//! The ways a pipeline run can fail.

use vstd::prelude::*;

verus! {

/// Why a pipeline run stopped. Every one of these ends the run: nothing is
/// retried and nothing is recovered from.
#[derive(Clone, Copy, Debug, PartialEq, Eq, Structural)]
pub enum PipelineError {
    /// The input of a stage could not be turned into an execution environment.
    EnvironmentBuildError,
    /// The proving engine failed.
    ProvingError,
    /// The proving service could not validate the chained assumption.
    AssumptionRejected,
    /// The local journal does not hold the expected tuple.
    JournalDecodeError,
    /// The remote journal is not the strict encoding of one 256-bit number.
    MalformedJournal,
    /// The proof object is not of the variant that the ledger can verify.
    UnsupportedProofVariant,
    /// The transaction could not be sent or was not confirmed.
    SubmissionError,
}

/// The part of the pipeline in which something happened.
#[derive(Clone, Copy, Debug, PartialEq, Eq, Structural)]
pub enum Stage {
    LocalProving,
    AssumptionChaining,
    RemoteProving,
    SealEncoding,
    StatementDecoding,
    Submission,
}

/// The bytes of a result, with the error left as it is.
pub open spec fn bytes_result(r: Result<Vec<u8>, PipelineError>) -> Result<Seq<u8>, PipelineError> {
    match r {
        Ok(bytes) => Ok(bytes@),
        Err(e) => Err(e),
    }
}

impl PipelineError {
    /// The name of the error, for diagnostics.
    pub fn name(&self) -> (r: &'static str)
        ensures
            r@ == match *self {
                PipelineError::EnvironmentBuildError => "EnvironmentBuildError"@,
                PipelineError::ProvingError => "ProvingError"@,
                PipelineError::AssumptionRejected => "AssumptionRejected"@,
                PipelineError::JournalDecodeError => "JournalDecodeError"@,
                PipelineError::MalformedJournal => "MalformedJournal"@,
                PipelineError::UnsupportedProofVariant => "UnsupportedProofVariant"@,
                PipelineError::SubmissionError => "SubmissionError"@,
            },
    {
        match self {
            PipelineError::EnvironmentBuildError => "EnvironmentBuildError",
            PipelineError::ProvingError => "ProvingError",
            PipelineError::AssumptionRejected => "AssumptionRejected",
            PipelineError::JournalDecodeError => "JournalDecodeError",
            PipelineError::MalformedJournal => "MalformedJournal",
            PipelineError::UnsupportedProofVariant => "UnsupportedProofVariant",
            PipelineError::SubmissionError => "SubmissionError",
        }
    }
}

impl Stage {
    /// The name of the stage, for diagnostics.
    pub fn name(&self) -> (r: &'static str)
        ensures
            r@ == match *self {
                Stage::LocalProving => "local proving"@,
                Stage::AssumptionChaining => "assumption chaining"@,
                Stage::RemoteProving => "remote proving"@,
                Stage::SealEncoding => "seal encoding"@,
                Stage::StatementDecoding => "statement decoding"@,
                Stage::Submission => "submission"@,
            },
    {
        match self {
            Stage::LocalProving => "local proving",
            Stage::AssumptionChaining => "assumption chaining",
            Stage::RemoteProving => "remote proving",
            Stage::SealEncoding => "seal encoding",
            Stage::StatementDecoding => "statement decoding",
            Stage::Submission => "submission",
        }
    }
}

} // verus!
