//! The run of the pipeline as a state machine. The library decides; its
//! caller does the outside work (proving, sending) that each action asks for
//! and hands the outcome back as the next event.

use vstd::prelude::*;
use crate::artifact::{ProofArtifact, ProofArtifactView};
use crate::call::{build_call, call_payload};
use crate::chaining::{
    chain_assumption, chained_environment, local_environment, local_environment_view, Position,
};
use crate::environment::{EnvironmentView, ExecutionEnvironment};
use crate::error::{PipelineError, Stage};
use crate::journal::ProgramInput;
use crate::seal::{encode_seal, seal_encoding};
use crate::statement::{decode_statement, statement_of};

verus! {

/// The program that a proving stage runs.
#[derive(Clone, Copy, Debug, PartialEq, Eq, Structural)]
pub enum Program {
    /// The private program of the local stage, proved on this machine.
    Private,
    /// The publicly verifiable program of the remote stage, proved by the
    /// proving service.
    Public,
}

/// The proof format that a proving stage is asked for.
#[derive(Clone, Copy, Debug, PartialEq, Eq, Structural)]
pub enum ProofOptions {
    /// The engine's own tradeoff between size and speed.
    Default,
    /// A small proof of constant size that the ledger can verify.
    Succinct,
}

/// What the proving engine is asked to do.
#[derive(Debug)]
pub struct ProvingRequest {
    pub environment: ExecutionEnvironment,
    pub program: Program,
    pub options: ProofOptions,
}

/// The mathematical content of a [`ProvingRequest`].
pub struct ProvingRequestView {
    pub environment: EnvironmentView,
    pub program: Program,
    pub options: ProofOptions,
}

impl View for ProvingRequest {
    type V = ProvingRequestView;

    open spec fn view(&self) -> ProvingRequestView {
        ProvingRequestView {
            environment: self.environment@,
            program: self.program,
            options: self.options,
        }
    }
}

/// An error with the stage it came up in and, where a collaborator reported
/// it, the collaborator's own words.
#[derive(Clone, Debug, PartialEq, Eq)]
pub struct Failure {
    pub error: PipelineError,
    pub stage: Stage,
    pub cause: String,
}

/// The mathematical content of a [`Failure`].
pub struct FailureView {
    pub error: PipelineError,
    pub stage: Stage,
    pub cause: Seq<char>,
}

impl View for Failure {
    type V = FailureView;

    open spec fn view(&self) -> FailureView {
        FailureView { error: self.error, stage: self.stage, cause: self.cause@ }
    }
}

/// What the caller reports to the pipeline.
#[derive(Debug)]
pub enum Event {
    /// A run is asked for, on this input.
    Start(ProgramInput),
    /// The engine could not build its environment from the request.
    EnvironmentRejected(String),
    /// The engine returned an artifact.
    Proved(ProofArtifact),
    /// The engine failed.
    ProvingFailed(String),
    /// The proving service could not validate the chained assumption.
    AssumptionRejected(String),
    /// The transaction was sent and a receipt came back.
    Submitted,
    /// The transaction could not be sent or was not confirmed.
    SubmissionFailed(String),
}

/// The mathematical content of an [`Event`].
pub enum EventView {
    Start(ProgramInput),
    EnvironmentRejected(Seq<char>),
    Proved(ProofArtifactView),
    ProvingFailed(Seq<char>),
    AssumptionRejected(Seq<char>),
    Submitted,
    SubmissionFailed(Seq<char>),
}

impl View for Event {
    type V = EventView;

    open spec fn view(&self) -> EventView {
        match *self {
            Event::Start(input) => EventView::Start(input),
            Event::EnvironmentRejected(cause) => EventView::EnvironmentRejected(cause@),
            Event::Proved(artifact) => EventView::Proved(artifact@),
            Event::ProvingFailed(cause) => EventView::ProvingFailed(cause@),
            Event::AssumptionRejected(cause) => EventView::AssumptionRejected(cause@),
            Event::Submitted => EventView::Submitted,
            Event::SubmissionFailed(cause) => EventView::SubmissionFailed(cause@),
        }
    }
}

/// What the pipeline asks its caller to do next.
#[derive(Debug)]
pub enum Action {
    /// Run the proving engine and report `Proved` or one of the failures.
    Prove(ProvingRequest),
    /// Send this payload to the contract, once, and report `Submitted` or
    /// `SubmissionFailed`.
    Send(Vec<u8>),
    /// The run has succeeded; there is nothing more to do.
    Finish,
    /// The run has failed; there is nothing more to do.
    Abort(Failure),
    /// The event answers nothing that the pipeline was waiting for. It was
    /// ignored.
    Ignore,
}

/// The mathematical content of an [`Action`].
pub enum ActionView {
    Prove(ProvingRequestView),
    Send(Seq<u8>),
    Finish,
    Abort(FailureView),
    Ignore,
}

impl View for Action {
    type V = ActionView;

    open spec fn view(&self) -> ActionView {
        match *self {
            Action::Prove(request) => ActionView::Prove(request@),
            Action::Send(payload) => ActionView::Send(payload@),
            Action::Finish => ActionView::Finish,
            Action::Abort(failure) => ActionView::Abort(failure@),
            Action::Ignore => ActionView::Ignore,
        }
    }
}

/// How far a run has come.
#[derive(Clone, Copy, Debug, PartialEq, Eq, Structural)]
pub enum Phase {
    /// Nothing has happened yet.
    Ready,
    /// The local proof has been asked for.
    LocalProving,
    /// The remote proof has been asked for.
    RemoteProving,
    /// The payload has been handed out for sending.
    Submitting,
    /// The run has succeeded.
    Done,
    /// The run has failed.
    Failed,
}

/// The failure that ends a run.
pub open spec fn abort(error: PipelineError, stage: Stage, cause: Seq<char>) -> (Phase, ActionView) {
    (Phase::Failed, ActionView::Abort(FailureView { error, stage, cause }))
}

/// What the pipeline makes of a failure that the engine reports while it
/// waits for the proof of `stage`: none, if the event is no such failure.
pub open spec fn engine_failure(stage: Stage, event: EventView) -> Option<(Phase, ActionView)> {
    match event {
        EventView::EnvironmentRejected(cause) => Some(
            abort(PipelineError::EnvironmentBuildError, stage, cause),
        ),
        EventView::ProvingFailed(cause) => Some(abort(PipelineError::ProvingError, stage, cause)),
        EventView::AssumptionRejected(cause) => Some(
            abort(PipelineError::AssumptionRejected, stage, cause),
        ),
        _ => None,
    }
}

/// What the pipeline makes of the remote stage's artifact: the payload to
/// send, or the failure of the seal encoder or, after it, of the statement
/// decoder.
pub open spec fn publication(remote: ProofArtifactView) -> (Phase, ActionView) {
    match seal_encoding(remote.proof) {
        Err(e) => abort(e, Stage::SealEncoding, Seq::empty()),
        Ok(seal) => match statement_of(remote.journal) {
            Err(e) => abort(e, Stage::StatementDecoding, Seq::empty()),
            Ok(statement) => (Phase::Submitting, ActionView::Send(call_payload(statement, seal))),
        },
    }
}

/// The pipeline's rule: the phase that follows and the action that is asked
/// for, when `event` is reported in `phase`.
pub open spec fn transition(forward: Position, phase: Phase, event: EventView) -> (
    Phase,
    ActionView,
) {
    match phase {
        Phase::Ready => match event {
            EventView::Start(input) => (
                Phase::LocalProving,
                ActionView::Prove(
                    ProvingRequestView {
                        environment: local_environment_view(input),
                        program: Program::Private,
                        options: ProofOptions::Default,
                    },
                ),
            ),
            _ => (phase, ActionView::Ignore),
        },
        Phase::LocalProving => match event {
            EventView::Proved(local) => match chained_environment(local, forward) {
                Ok(environment) => (
                    Phase::RemoteProving,
                    ActionView::Prove(
                        ProvingRequestView {
                            environment,
                            program: Program::Public,
                            options: ProofOptions::Succinct,
                        },
                    ),
                ),
                Err(e) => abort(e, Stage::AssumptionChaining, Seq::empty()),
            },
            _ => match engine_failure(Stage::LocalProving, event) {
                Some(end) => end,
                None => (phase, ActionView::Ignore),
            },
        },
        Phase::RemoteProving => match event {
            EventView::Proved(remote) => publication(remote),
            _ => match engine_failure(Stage::RemoteProving, event) {
                Some(end) => end,
                None => (phase, ActionView::Ignore),
            },
        },
        Phase::Submitting => match event {
            EventView::Submitted => (Phase::Done, ActionView::Finish),
            EventView::SubmissionFailed(cause) => abort(
                PipelineError::SubmissionError,
                Stage::Submission,
                cause,
            ),
            _ => (phase, ActionView::Ignore),
        },
        Phase::Done => (phase, ActionView::Ignore),
        Phase::Failed => (phase, ActionView::Ignore),
    }
}

/// One run of the pipeline.
#[derive(Debug)]
pub struct Pipeline {
    forward: Position,
    phase: Phase,
}

/// The mathematical content of a [`Pipeline`].
pub struct PipelineView {
    /// Which number of the local journal is forwarded to the remote stage.
    pub forward: Position,
    /// How far the run has come.
    pub phase: Phase,
}

impl View for Pipeline {
    type V = PipelineView;

    closed spec fn view(&self) -> PipelineView {
        PipelineView { forward: self.forward, phase: self.phase }
    }
}

impl Pipeline {
    /// A run that has not started, and that will forward the number at
    /// `forward` of the local journal to the remote stage.
    pub fn new(forward: Position) -> (r: Self)
        ensures
            r@ == (PipelineView { forward, phase: Phase::Ready }),
    {
        Pipeline { forward, phase: Phase::Ready }
    }

    /// How far the run has come.
    pub fn phase(&self) -> (r: Phase)
        ensures
            r == self@.phase,
    {
        self.phase
    }

    /// Which number of the local journal the run forwards.
    pub fn forward(&self) -> (r: Position)
        ensures
            r == self@.forward,
    {
        self.forward
    }

    /// Takes an event and says what to do next, as `transition` rules.
    pub fn step(&mut self, event: Event) -> (action: Action)
        ensures
            final(self)@.forward == old(self)@.forward,
            (final(self)@.phase, action@) == transition(
                old(self)@.forward,
                old(self)@.phase,
                event@,
            ),
    {
        match self.phase {
            Phase::Ready => match event {
                Event::Start(input) => match local_environment(&input) {
                    Ok(environment) => {
                        self.phase = Phase::LocalProving;
                        Action::Prove(
                            ProvingRequest {
                                environment,
                                program: Program::Private,
                                options: ProofOptions::Default,
                            },
                        )
                    },
                    Err(e) => self.fail(e, Stage::LocalProving, String::new()),
                },
                _ => Action::Ignore,
            },
            Phase::LocalProving => match event {
                Event::Proved(local) => match chain_assumption(local, self.forward) {
                    Ok(environment) => {
                        self.phase = Phase::RemoteProving;
                        Action::Prove(
                            ProvingRequest {
                                environment,
                                program: Program::Public,
                                options: ProofOptions::Succinct,
                            },
                        )
                    },
                    Err(e) => self.fail(e, Stage::AssumptionChaining, String::new()),
                },
                Event::EnvironmentRejected(cause) => self.fail(
                    PipelineError::EnvironmentBuildError,
                    Stage::LocalProving,
                    cause,
                ),
                Event::ProvingFailed(cause) => self.fail(
                    PipelineError::ProvingError,
                    Stage::LocalProving,
                    cause,
                ),
                Event::AssumptionRejected(cause) => self.fail(
                    PipelineError::AssumptionRejected,
                    Stage::LocalProving,
                    cause,
                ),
                _ => Action::Ignore,
            },
            Phase::RemoteProving => match event {
                Event::Proved(remote) => self.publish(&remote),
                Event::EnvironmentRejected(cause) => self.fail(
                    PipelineError::EnvironmentBuildError,
                    Stage::RemoteProving,
                    cause,
                ),
                Event::ProvingFailed(cause) => self.fail(
                    PipelineError::ProvingError,
                    Stage::RemoteProving,
                    cause,
                ),
                Event::AssumptionRejected(cause) => self.fail(
                    PipelineError::AssumptionRejected,
                    Stage::RemoteProving,
                    cause,
                ),
                _ => Action::Ignore,
            },
            Phase::Submitting => match event {
                Event::Submitted => {
                    self.phase = Phase::Done;
                    Action::Finish
                },
                Event::SubmissionFailed(cause) => self.fail(
                    PipelineError::SubmissionError,
                    Stage::Submission,
                    cause,
                ),
                _ => Action::Ignore,
            },
            Phase::Done => Action::Ignore,
            Phase::Failed => Action::Ignore,
        }
    }

    /// Ends the run with a failure.
    fn fail(&mut self, error: PipelineError, stage: Stage, cause: String) -> (action: Action)
        ensures
            final(self)@.forward == old(self)@.forward,
            (final(self)@.phase, action@) == abort(error, stage, cause@),
    {
        self.phase = Phase::Failed;
        Action::Abort(Failure { error, stage, cause })
    }

    /// Turns the remote stage's artifact into the payload to send.
    fn publish(&mut self, remote: &ProofArtifact) -> (action: Action)
        ensures
            final(self)@.forward == old(self)@.forward,
            (final(self)@.phase, action@) == publication(remote@),
    {
        match encode_seal(&remote.proof) {
            Err(e) => self.fail(e, Stage::SealEncoding, String::new()),
            Ok(seal) => match decode_statement(remote.journal.as_slice()) {
                Err(e) => self.fail(e, Stage::StatementDecoding, String::new()),
                Ok(statement) => {
                    self.phase = Phase::Submitting;
                    Action::Send(build_call(&statement, seal.as_slice()))
                },
            },
        }
    }
}

/// How many payloads the pipeline hands out for sending while `events` are
/// reported to it one after the other, starting in `phase`.
pub open spec fn sends(forward: Position, phase: Phase, events: Seq<EventView>) -> nat
    decreases events.len(),
{
    if events.len() == 0 {
        0
    } else {
        let step = transition(forward, phase, events.first());
        let sent: nat = if step.1 is Send {
            1
        } else {
            0
        };
        sent + sends(forward, step.0, events.drop_first())
    }
}

/// A run sends at most once, whatever is reported to it and in whatever
/// order; once the payload is out, or the run has ended, it sends no more.
/// So a failed submission is never followed by a second attempt.
pub proof fn lemma_at_most_one_send(forward: Position, phase: Phase, events: Seq<EventView>)
    ensures
        sends(forward, phase, events) <= 1,
        phase is Submitting || phase is Done || phase is Failed ==> sends(forward, phase, events)
            == 0,
    decreases events.len(),
{
    if events.len() > 0 {
        let step = transition(forward, phase, events.first());
        lemma_send_only_after_remote_proof(forward, phase, events.first());
        lemma_at_most_one_send(forward, step.0, events.drop_first());
    }
}

/// A payload is handed out only in answer to the remote stage's artifact,
/// and the run then waits for the outcome of the submission. From there, and
/// from the end of a run, no phase before it is reached again.
pub proof fn lemma_send_only_after_remote_proof(forward: Position, phase: Phase, event: EventView)
    ensures
        transition(forward, phase, event).1 is Send ==> phase is RemoteProving && event is Proved
            && transition(forward, phase, event).0 is Submitting,
        phase is Submitting || phase is Done || phase is Failed ==> {
            let next = transition(forward, phase, event).0;
            next is Submitting || next is Done || next is Failed
        },
{
}

/// A run that has ended stays as it is: every further event is ignored.
pub proof fn lemma_the_end_is_final(forward: Position, phase: Phase, event: EventView)
    requires
        phase is Done || phase is Failed,
    ensures
        transition(forward, phase, event) == (phase, ActionView::Ignore),
{
}

/// Every failure that a collaborator reports, in the phase that waits for
/// that collaborator, ends the run with the matching error, the stage it
/// came up in and the collaborator's words unchanged. A rejected assumption
/// in particular is reported as such, never as anything milder.
pub proof fn lemma_reported_failures_are_surfaced(forward: Position, cause: Seq<char>)
    ensures
        transition(forward, Phase::Submitting, EventView::SubmissionFailed(cause)) == abort(
            PipelineError::SubmissionError,
            Stage::Submission,
            cause,
        ),
        transition(forward, Phase::RemoteProving, EventView::AssumptionRejected(cause)) == abort(
            PipelineError::AssumptionRejected,
            Stage::RemoteProving,
            cause,
        ),
        transition(forward, Phase::RemoteProving, EventView::ProvingFailed(cause)) == abort(
            PipelineError::ProvingError,
            Stage::RemoteProving,
            cause,
        ),
        transition(forward, Phase::LocalProving, EventView::ProvingFailed(cause)) == abort(
            PipelineError::ProvingError,
            Stage::LocalProving,
            cause,
        ),
        transition(forward, Phase::RemoteProving, EventView::EnvironmentRejected(cause)) == abort(
            PipelineError::EnvironmentBuildError,
            Stage::RemoteProving,
            cause,
        ),
        transition(forward, Phase::LocalProving, EventView::EnvironmentRejected(cause)) == abort(
            PipelineError::EnvironmentBuildError,
            Stage::LocalProving,
            cause,
        ),
{
}

/// What is sent is the call that asserts the remote journal's statement with
/// the remote proof's seal, and nothing of the local artifact: the payload
/// depends on the remote artifact alone.
pub proof fn lemma_payload_is_the_call(forward: Position, remote: ProofArtifactView)
    ensures
        match transition(forward, Phase::RemoteProving, EventView::Proved(remote)).1 {
            ActionView::Send(payload) => seal_encoding(remote.proof) is Ok && statement_of(
                remote.journal,
            ) is Ok && payload == call_payload(
                statement_of(remote.journal)->Ok_0,
                seal_encoding(remote.proof)->Ok_0,
            ),
            ActionView::Abort(failure) => (seal_encoding(remote.proof) is Err && failure.error
                == PipelineError::UnsupportedProofVariant) || (seal_encoding(remote.proof) is Ok
                && statement_of(remote.journal) is Err && failure.error
                == PipelineError::MalformedJournal),
            _ => false,
        },
{
}

/// The phase that a run is in after `events` were reported to it one after
/// the other, starting in `phase`.
pub open spec fn phase_after(forward: Position, phase: Phase, events: Seq<EventView>) -> Phase
    decreases events.len(),
{
    if events.len() == 0 {
        phase
    } else {
        phase_after(
            forward,
            transition(forward, phase, events.first()).0,
            events.drop_first(),
        )
    }
}

/// A run that succeeds has sent exactly once: whatever was reported to a run
/// that started before its payload was out and ended in `Done`, one payload
/// was handed out on the way, and none where the run started after that.
pub proof fn lemma_success_means_one_send(
    forward: Position,
    phase: Phase,
    events: Seq<EventView>,
)
    requires
        phase_after(forward, phase, events) is Done,
    ensures
        sends(forward, phase, events) == if phase is Ready || phase is LocalProving
            || phase is RemoteProving {
            1nat
        } else {
            0nat
        },
    decreases events.len(),
{
    if events.len() > 0 {
        let step = transition(forward, phase, events.first());
        lemma_send_only_after_remote_proof(forward, phase, events.first());
        if step.0 is Failed {
            lemma_failed_stays_failed(forward, events.drop_first());
        } else {
            lemma_success_means_one_send(forward, step.0, events.drop_first());
        }
    }
}

/// A failed run stays failed, whatever is reported to it.
pub proof fn lemma_failed_stays_failed(forward: Position, events: Seq<EventView>)
    ensures
        phase_after(forward, Phase::Failed, events) is Failed,
    decreases events.len(),
{
    if events.len() > 0 {
        lemma_failed_stays_failed(forward, events.drop_first());
    }
}

} // verus!
