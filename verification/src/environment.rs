//! The execution environment of a proving stage: the assumptions that its
//! proof will depend on and the bytes that its program will read.

use vstd::prelude::*;
use crate::artifact::{artifacts_view, ProofArtifact, ProofArtifactView};
use crate::bytes::append_bytes;
use crate::error::PipelineError;
use crate::journal::{encode_input, triple_bytes, ProgramInput};

verus! {

/// The mathematical content of an environment, built or in the making.
pub struct EnvironmentView {
    /// The artifacts registered as assumptions, in the order of registration.
    pub assumptions: Seq<ProofArtifactView>,
    /// Everything written for the program to read, in the order of writing.
    pub input: Seq<u8>,
}

/// The configuration of one proving stage. It is made by an
/// [`EnvironmentBuilder`] and cannot be changed afterwards: a new stage takes
/// a new environment.
#[derive(Debug)]
pub struct ExecutionEnvironment {
    assumptions: Vec<ProofArtifact>,
    input: Vec<u8>,
}

/// Collects the assumptions and the input of an [`ExecutionEnvironment`].
#[derive(Debug)]
pub struct EnvironmentBuilder {
    assumptions: Vec<ProofArtifact>,
    input: Vec<u8>,
}

impl View for ExecutionEnvironment {
    type V = EnvironmentView;

    closed spec fn view(&self) -> EnvironmentView {
        EnvironmentView {
            assumptions: artifacts_view(self.assumptions@),
            input: self.input@,
        }
    }
}

impl View for EnvironmentBuilder {
    type V = EnvironmentView;

    closed spec fn view(&self) -> EnvironmentView {
        EnvironmentView {
            assumptions: artifacts_view(self.assumptions@),
            input: self.input@,
        }
    }
}

impl EnvironmentBuilder {
    /// A builder with no assumption and no input.
    pub fn new() -> (r: Self)
        ensures
            r@.assumptions == Seq::<ProofArtifactView>::empty(),
            r@.input == Seq::<u8>::empty(),
    {
        let r = EnvironmentBuilder { assumptions: Vec::new(), input: Vec::new() };
        assert(r@.assumptions =~= Seq::<ProofArtifactView>::empty());
        r
    }

    /// Registers `artifact` as an assumption: the builder takes it over.
    pub fn add_assumption(self, artifact: ProofArtifact) -> (r: Self)
        ensures
            r@.assumptions == self@.assumptions.push(artifact@),
            r@.input == self@.input,
    {
        let mut assumptions = self.assumptions;
        assumptions.push(artifact);
        let r = EnvironmentBuilder { assumptions, input: self.input };
        assert(r@.assumptions =~= self@.assumptions.push(artifact@));
        r
    }

    /// Writes raw bytes after what was written before.
    pub fn write_slice(self, bytes: &[u8]) -> (r: Self)
        ensures
            r@.assumptions == self@.assumptions,
            r@.input == self@.input + bytes@,
    {
        let mut input = self.input;
        append_bytes(&mut input, bytes);
        EnvironmentBuilder { assumptions: self.assumptions, input }
    }

    /// Writes a program input, in the engine's word format, after what was
    /// written before.
    pub fn write(self, input: &ProgramInput) -> (r: Result<Self, PipelineError>)
        ensures
            r matches Ok(b) && b@.assumptions == self@.assumptions && b@.input == self@.input
                + triple_bytes(input.triple()),
    {
        match encode_input(input) {
            Ok(bytes) => Ok(self.write_slice(bytes.as_slice())),
            Err(e) => Err(e),
        }
    }

    /// The environment that holds what the builder has collected.
    pub fn build(self) -> (env: ExecutionEnvironment)
        ensures
            env@ == self@,
    {
        ExecutionEnvironment { assumptions: self.assumptions, input: self.input }
    }
}

impl ExecutionEnvironment {
    /// The bytes that the program will read.
    pub fn input(&self) -> (r: &Vec<u8>)
        ensures
            r@ == self@.input,
    {
        &self.input
    }

    /// The artifacts that the stage's proof will depend on.
    pub fn assumptions(&self) -> (r: &Vec<ProofArtifact>)
        ensures
            artifacts_view(r@) == self@.assumptions,
    {
        &self.assumptions
    }

    /// Gives up the environment for its parts, the assumptions first.
    pub fn into_parts(self) -> (r: (Vec<ProofArtifact>, Vec<u8>))
        ensures
            artifacts_view(r.0@) == self@.assumptions,
            r.1@ == self@.input,
    {
        (self.assumptions, self.input)
    }
}

} // verus!
