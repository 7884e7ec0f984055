//! Building the environments of the two proving stages: the local one from
//! the program input, the remote one from the local stage's artifact.

use vstd::prelude::*;
use crate::artifact::{ProofArtifact, ProofArtifactView, ProofObjectView};
use crate::bytes::{be_bytes, u64_word};
use crate::environment::{EnvironmentBuilder, EnvironmentView, ExecutionEnvironment};
use crate::error::PipelineError;
use crate::journal::{
    decode_journal, journal_triple, lemma_triple_round_trip, triple_bytes, ProgramInput,
};

verus! {

/// Which number of the local journal's triple becomes the public input of the
/// remote stage. The two others stay private.
#[derive(Clone, Copy, Debug, PartialEq, Eq, Structural)]
pub enum Position {
    First,
    Second,
    Third,
}

impl Position {
    /// The number of `t` at this position.
    pub open spec fn of(self, t: (u64, u64, u64)) -> u64 {
        match self {
            Position::First => t.0,
            Position::Second => t.1,
            Position::Third => t.2,
        }
    }

    /// The number of `t` at this position.
    pub fn select(self, t: (u64, u64, u64)) -> (v: u64)
        ensures
            v == self.of(t),
    {
        match self {
            Position::First => t.0,
            Position::Second => t.1,
            Position::Third => t.2,
        }
    }
}

/// The environment of the local stage: no assumption, and `input` in the
/// engine's word format for the private program to read.
pub open spec fn local_environment_view(input: ProgramInput) -> EnvironmentView {
    EnvironmentView { assumptions: Seq::empty(), input: triple_bytes(input.triple()) }
}

/// What chaining makes of a local artifact: the environment in which that
/// artifact is the one assumption and the input is the ABI word of the
/// forwarded number, or `JournalDecodeError` where the journal holds no
/// triple.
pub open spec fn chained_environment(local: ProofArtifactView, forward: Position) -> Result<
    EnvironmentView,
    PipelineError,
> {
    match journal_triple(local.journal) {
        Some(t) => Ok(
            EnvironmentView {
                assumptions: seq![local],
                input: be_bytes(forward.of(t) as nat, 32),
            },
        ),
        None => Err(PipelineError::JournalDecodeError),
    }
}

/// The content of a result that holds an environment.
pub open spec fn environment_result(r: Result<ExecutionEnvironment, PipelineError>) -> Result<
    EnvironmentView,
    PipelineError,
> {
    match r {
        Ok(env) => Ok(env@),
        Err(e) => Err(e),
    }
}

/// Builds the environment of the local stage.
pub fn local_environment(input: &ProgramInput) -> (r: Result<ExecutionEnvironment, PipelineError>)
    ensures
        environment_result(r) == Ok::<EnvironmentView, PipelineError>(
            local_environment_view(*input),
        ),
{
    match EnvironmentBuilder::new().write(input) {
        Ok(builder) => {
            let env = builder.build();
            assert(env@.input =~= triple_bytes(input.triple()));
            Ok(env)
        },
        Err(e) => Err(e),
    }
}

/// Chains the local artifact into the environment of the remote stage. The
/// artifact is handed over to that environment; of its journal only the
/// number at `forward` goes into the input.
pub fn chain_assumption(local: ProofArtifact, forward: Position) -> (r: Result<
    ExecutionEnvironment,
    PipelineError,
>)
    ensures
        environment_result(r) == chained_environment(local@, forward),
{
    match decode_journal(local.journal.as_slice()) {
        Ok(t) => {
            let word = u64_word(forward.select(t));
            let builder = EnvironmentBuilder::new().add_assumption(local).write_slice(
                word.as_slice(),
            );
            let env = builder.build();
            assert(env@.assumptions =~= seq![local@]);
            assert(env@.input =~= be_bytes(forward.of(t) as nat, 32));
            Ok(env)
        },
        Err(e) => Err(e),
    }
}

/// Chaining is a function of the artifact's content and the position: two
/// runs on the same artifact end alike, with the same environment or both
/// with the same error.
pub proof fn lemma_chaining_is_deterministic(
    local: ProofArtifactView,
    forward: Position,
    first: Result<ExecutionEnvironment, PipelineError>,
    second: Result<ExecutionEnvironment, PipelineError>,
)
    requires
        environment_result(first) == chained_environment(local, forward),
        environment_result(second) == chained_environment(local, forward),
    ensures
        environment_result(first) == environment_result(second),
{
}

/// What is not forwarded stays private: two journals that agree on the
/// number at `forward` give the remote stage the same input, whatever their
/// other numbers are.
pub proof fn lemma_unforwarded_numbers_stay_private(
    a: ProofArtifactView,
    b: ProofArtifactView,
    forward: Position,
)
    requires
        journal_triple(a.journal) is Some,
        journal_triple(b.journal) is Some,
        forward.of(journal_triple(a.journal)->Some_0) == forward.of(
            journal_triple(b.journal)->Some_0,
        ),
    ensures
        chained_environment(a, forward) is Ok,
        chained_environment(b, forward) is Ok,
        chained_environment(a, forward)->Ok_0.input == chained_environment(
            b,
            forward,
        )->Ok_0.input,
{
}

/// The input of the local stage reads back unchanged: a journal that holds
/// what the private program was given decodes to the input tuple, whatever
/// the tuple, and chaining forwards the number of it at `forward` and no
/// other.
pub proof fn lemma_local_input_reads_back(
    input: ProgramInput,
    object: ProofObjectView,
    forward: Position,
)
    ensures
        journal_triple(local_environment_view(input).input) == Some(input.triple()),
        chained_environment(
            ProofArtifactView { proof: object, journal: local_environment_view(input).input },
            forward,
        ) matches Ok(environment) && environment.input == be_bytes(
            forward.of(input.triple()) as nat,
            32,
        ),
{
    lemma_triple_round_trip(input.triple());
}

} // verus!
