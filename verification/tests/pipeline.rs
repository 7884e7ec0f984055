use proof_publisher::artifact::{ProofArtifact, ProofObject};
use proof_publisher::call::decode_call;
use proof_publisher::chaining::Position;
use proof_publisher::error::{PipelineError, Stage};
use proof_publisher::journal::{encode_input, ProgramInput};
use proof_publisher::pipeline::{
    Action, Event, Failure, Phase, Pipeline, ProofOptions, Program, ProvingRequest,
};
use proof_publisher::uint256::Uint256;

fn word(last: u8) -> Vec<u8> {
    let mut w = vec![0u8; 32];
    w[31] = last;
    w
}

fn local_artifact(n: u64, e: u64, v: u64) -> ProofArtifact {
    ProofArtifact::new(
        ProofObject::Composite,
        encode_input(&ProgramInput::new(n, e, v)).unwrap(),
    )
}

fn remote_artifact(statement: u8) -> ProofArtifact {
    ProofArtifact::new(
        ProofObject::Groth16 { seal: vec![0xaa, 0xbb, 0xcc], verifier_parameters: [0x50; 32] },
        word(statement),
    )
}

fn request(action: Action) -> ProvingRequest {
    match action {
        Action::Prove(request) => request,
        other => panic!("expected a proving request, got {other:?}"),
    }
}

fn payload(action: Action) -> Vec<u8> {
    match action {
        Action::Send(payload) => payload,
        other => panic!("expected a payload, got {other:?}"),
    }
}

fn failure(action: Action) -> Failure {
    match action {
        Action::Abort(failure) => failure,
        other => panic!("expected a failure, got {other:?}"),
    }
}

fn at_remote_proving() -> Pipeline {
    let mut pipeline = Pipeline::new(Position::Third);
    request(pipeline.step(Event::Start(ProgramInput::new(3, 5, 2))));
    request(pipeline.step(Event::Proved(local_artifact(3, 5, 2))));
    pipeline
}

fn at_submitting() -> Pipeline {
    let mut pipeline = at_remote_proving();
    payload(pipeline.step(Event::Proved(remote_artifact(2))));
    pipeline
}

#[test]
fn new_pipeline_is_ready() {
    let pipeline = Pipeline::new(Position::Second);
    assert_eq!(pipeline.phase(), Phase::Ready);
    assert_eq!(pipeline.forward(), Position::Second);
}

#[test]
fn start_asks_for_the_local_proof() {
    let mut pipeline = Pipeline::new(Position::Third);
    let request = request(pipeline.step(Event::Start(ProgramInput::new(3, 5, 2))));
    assert_eq!(pipeline.phase(), Phase::LocalProving);
    assert_eq!(request.program, Program::Private);
    assert_eq!(request.options, ProofOptions::Default);
    assert!(request.environment.assumptions().is_empty());
    assert_eq!(
        request.environment.input(),
        &encode_input(&ProgramInput::new(3, 5, 2)).unwrap()
    );
}

#[test]
fn local_proof_is_chained_into_the_remote_request() {
    let mut pipeline = Pipeline::new(Position::Third);
    pipeline.step(Event::Start(ProgramInput::new(3, 5, 2)));
    let local = local_artifact(3, 5, 2);
    let request = request(pipeline.step(Event::Proved(local.clone())));
    assert_eq!(pipeline.phase(), Phase::RemoteProving);
    assert_eq!(request.program, Program::Public);
    assert_eq!(request.options, ProofOptions::Succinct);
    assert_eq!(request.environment.assumptions(), &vec![local]);
    assert_eq!(request.environment.input(), &word(2));
}

#[test]
fn pipeline_forwards_the_position_it_was_made_with() {
    let mut pipeline = Pipeline::new(Position::First);
    pipeline.step(Event::Start(ProgramInput::new(3, 5, 2)));
    let request = request(pipeline.step(Event::Proved(local_artifact(3, 5, 2))));
    assert_eq!(request.environment.input(), &word(3));
    assert_eq!(pipeline.forward(), Position::First);
}

#[test]
fn remote_proof_becomes_the_call() {
    let mut pipeline = at_remote_proving();
    let payload = payload(pipeline.step(Event::Proved(remote_artifact(2))));
    assert_eq!(pipeline.phase(), Phase::Submitting);
    let mut expected = vec![0x8b, 0x28, 0x29, 0x47];
    expected.extend_from_slice(&word(2));
    expected.extend_from_slice(&word(0x40));
    expected.extend_from_slice(&word(7));
    expected.extend_from_slice(&[0x50, 0x50, 0x50, 0x50, 0xaa, 0xbb, 0xcc]);
    expected.extend_from_slice(&[0u8; 25]);
    assert_eq!(payload, expected);
    assert_eq!(
        decode_call(&payload),
        Some((Uint256::from_u64(2), vec![0x50, 0x50, 0x50, 0x50, 0xaa, 0xbb, 0xcc]))
    );
}

#[test]
fn receipt_finishes_the_run() {
    let mut pipeline = at_submitting();
    assert!(matches!(pipeline.step(Event::Submitted), Action::Finish));
    assert_eq!(pipeline.phase(), Phase::Done);
}

#[test]
fn whole_run_in_order() {
    let mut pipeline = Pipeline::new(Position::Third);
    let mut sends = 0;
    let events = vec![
        Event::Start(ProgramInput::new(3, 5, 2)),
        Event::Proved(local_artifact(3, 5, 2)),
        Event::Proved(remote_artifact(2)),
        Event::Submitted,
    ];
    let mut last = None;
    for event in events {
        let action = pipeline.step(event);
        if matches!(action, Action::Send(_)) {
            sends += 1;
        }
        last = Some(action);
    }
    assert_eq!(sends, 1);
    assert!(matches!(last, Some(Action::Finish)));
    assert_eq!(pipeline.phase(), Phase::Done);
}

#[test]
fn tampered_local_artifact_is_rejected() {
    let mut pipeline = Pipeline::new(Position::Third);
    let start = request(pipeline.step(Event::Start(ProgramInput::new(3, 5, 2))));
    assert_eq!(
        start.environment.input(),
        &vec![3, 0, 0, 0, 0, 0, 0, 0, 5, 0, 0, 0, 0, 0, 0, 0, 2, 0, 0, 0, 0, 0, 0, 0]
    );
    let tampered = local_artifact(7, 5, 2);
    let request = request(pipeline.step(Event::Proved(tampered.clone())));
    assert_eq!(request.environment.input(), &word(2));
    assert_eq!(request.environment.assumptions(), &vec![tampered]);
    let failure = failure(pipeline.step(Event::AssumptionRejected(
        "no receipt resolves the assumption".to_string(),
    )));
    assert_eq!(failure.error, PipelineError::AssumptionRejected);
    assert_eq!(failure.stage, Stage::RemoteProving);
    assert_eq!(failure.cause, "no receipt resolves the assumption");
    assert_eq!(pipeline.phase(), Phase::Failed);
    assert!(matches!(pipeline.step(Event::Proved(remote_artifact(2))), Action::Ignore));
    assert_eq!(pipeline.phase(), Phase::Failed);
}

#[test]
fn non_succinct_remote_proof_aborts_the_run() {
    for object in [ProofObject::Composite, ProofObject::Succinct, ProofObject::Fake] {
        let mut pipeline = at_remote_proving();
        let failure = failure(pipeline.step(Event::Proved(ProofArtifact::new(object, word(2)))));
        assert_eq!(failure.error, PipelineError::UnsupportedProofVariant);
        assert_eq!(failure.stage, Stage::SealEncoding);
        assert_eq!(failure.cause, "");
        assert_eq!(pipeline.phase(), Phase::Failed);
    }
}

#[test]
fn malformed_remote_journal_aborts_the_run() {
    for journal in [Vec::new(), vec![0u8; 31], vec![0u8; 33], vec![0u8; 64]] {
        let mut pipeline = at_remote_proving();
        let artifact = ProofArtifact::new(
            ProofObject::Groth16 { seal: vec![1], verifier_parameters: [0; 32] },
            journal,
        );
        let failure = failure(pipeline.step(Event::Proved(artifact)));
        assert_eq!(failure.error, PipelineError::MalformedJournal);
        assert_eq!(failure.stage, Stage::StatementDecoding);
        assert_eq!(pipeline.phase(), Phase::Failed);
    }
}

#[test]
fn unsupported_proof_is_reported_before_a_malformed_journal() {
    let mut pipeline = at_remote_proving();
    let artifact = ProofArtifact::new(ProofObject::Composite, vec![0u8; 5]);
    let failure = failure(pipeline.step(Event::Proved(artifact)));
    assert_eq!(failure.error, PipelineError::UnsupportedProofVariant);
}

#[test]
fn undecodable_local_journal_aborts_the_run() {
    let mut pipeline = Pipeline::new(Position::Third);
    pipeline.step(Event::Start(ProgramInput::new(3, 5, 2)));
    let artifact = ProofArtifact::new(ProofObject::Composite, vec![0u8; 12]);
    let failure = failure(pipeline.step(Event::Proved(artifact)));
    assert_eq!(failure.error, PipelineError::JournalDecodeError);
    assert_eq!(failure.stage, Stage::AssumptionChaining);
    assert_eq!(pipeline.phase(), Phase::Failed);
}

#[test]
fn failed_submission_is_surfaced_and_not_repeated() {
    let mut pipeline = at_submitting();
    let failure = failure(pipeline.step(Event::SubmissionFailed("connection reset".to_string())));
    assert_eq!(failure.error, PipelineError::SubmissionError);
    assert_eq!(failure.stage, Stage::Submission);
    assert_eq!(failure.cause, "connection reset");
    assert_eq!(pipeline.phase(), Phase::Failed);
    let later = vec![
        Event::Start(ProgramInput::new(3, 5, 2)),
        Event::Proved(local_artifact(3, 5, 2)),
        Event::Proved(remote_artifact(2)),
        Event::Submitted,
        Event::SubmissionFailed("again".to_string()),
    ];
    for event in later {
        assert!(matches!(pipeline.step(event), Action::Ignore));
        assert_eq!(pipeline.phase(), Phase::Failed);
    }
}

#[test]
fn engine_failures_abort_with_their_stage() {
    let mut pipeline = Pipeline::new(Position::Third);
    pipeline.step(Event::Start(ProgramInput::new(3, 5, 2)));
    let failure = failure(pipeline.step(Event::ProvingFailed("out of memory".to_string())));
    assert_eq!(
        failure,
        Failure {
            error: PipelineError::ProvingError,
            stage: Stage::LocalProving,
            cause: "out of memory".to_string()
        }
    );
    let mut pipeline = at_remote_proving();
    let failure = failure_of(&mut pipeline, Event::ProvingFailed("service down".to_string()));
    assert_eq!(failure.error, PipelineError::ProvingError);
    assert_eq!(failure.stage, Stage::RemoteProving);
    assert_eq!(failure.cause, "service down");
}

fn failure_of(pipeline: &mut Pipeline, event: Event) -> Failure {
    failure(pipeline.step(event))
}

#[test]
fn rejected_environment_aborts_with_its_stage() {
    let mut pipeline = Pipeline::new(Position::Third);
    pipeline.step(Event::Start(ProgramInput::new(3, 5, 2)));
    let failure = failure_of(&mut pipeline, Event::EnvironmentRejected("bad setting".to_string()));
    assert_eq!(failure.error, PipelineError::EnvironmentBuildError);
    assert_eq!(failure.stage, Stage::LocalProving);
    let mut pipeline = at_remote_proving();
    let failure = failure_of(&mut pipeline, Event::EnvironmentRejected("bad setting".to_string()));
    assert_eq!(failure.error, PipelineError::EnvironmentBuildError);
    assert_eq!(failure.stage, Stage::RemoteProving);
    assert_eq!(failure.cause, "bad setting");
}

#[test]
fn rejected_assumption_is_never_downgraded() {
    let mut pipeline = Pipeline::new(Position::Third);
    pipeline.step(Event::Start(ProgramInput::new(3, 5, 2)));
    let failure = failure_of(&mut pipeline, Event::AssumptionRejected("invalid".to_string()));
    assert_eq!(failure.error, PipelineError::AssumptionRejected);
    assert_eq!(failure.stage, Stage::LocalProving);
}

#[test]
fn events_out_of_turn_are_ignored() {
    let mut pipeline = Pipeline::new(Position::Third);
    assert!(matches!(pipeline.step(Event::Submitted), Action::Ignore));
    assert!(matches!(pipeline.step(Event::Proved(remote_artifact(2))), Action::Ignore));
    assert!(matches!(pipeline.step(Event::ProvingFailed(String::new())), Action::Ignore));
    assert_eq!(pipeline.phase(), Phase::Ready);
    pipeline.step(Event::Start(ProgramInput::new(3, 5, 2)));
    assert!(matches!(pipeline.step(Event::Start(ProgramInput::new(1, 1, 1))), Action::Ignore));
    assert!(matches!(pipeline.step(Event::Submitted), Action::Ignore));
    assert!(matches!(pipeline.step(Event::SubmissionFailed(String::new())), Action::Ignore));
    assert_eq!(pipeline.phase(), Phase::LocalProving);
    let mut pipeline = at_submitting();
    assert!(matches!(pipeline.step(Event::Proved(remote_artifact(2))), Action::Ignore));
    assert!(matches!(pipeline.step(Event::ProvingFailed(String::new())), Action::Ignore));
    assert!(matches!(pipeline.step(Event::AssumptionRejected(String::new())), Action::Ignore));
    assert_eq!(pipeline.phase(), Phase::Submitting);
}

#[test]
fn finished_run_ignores_everything() {
    let mut pipeline = at_submitting();
    pipeline.step(Event::Submitted);
    let later = vec![
        Event::Start(ProgramInput::new(3, 5, 2)),
        Event::Proved(remote_artifact(2)),
        Event::Submitted,
        Event::SubmissionFailed(String::new()),
        Event::EnvironmentRejected(String::new()),
    ];
    for event in later {
        assert!(matches!(pipeline.step(event), Action::Ignore));
        assert_eq!(pipeline.phase(), Phase::Done);
    }
}

#[test]
fn no_order_of_events_sends_twice() {
    let make = |k: usize| match k {
        0 => Event::Start(ProgramInput::new(3, 5, 2)),
        1 => Event::Proved(local_artifact(3, 5, 2)),
        2 => Event::Proved(remote_artifact(2)),
        3 => Event::Submitted,
        4 => Event::SubmissionFailed("lost".to_string()),
        _ => Event::ProvingFailed("down".to_string()),
    };
    for code in 0..6usize.pow(5) {
        let mut pipeline = Pipeline::new(Position::Third);
        let mut sends = 0;
        let mut rest = code;
        for _ in 0..5 {
            if matches!(pipeline.step(make(rest % 6)), Action::Send(_)) {
                sends += 1;
            }
            rest /= 6;
        }
        assert!(sends <= 1);
    }
}
