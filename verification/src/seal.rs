//! The seal: a proof in the byte layout that the ledger's verifier expects.

use vstd::prelude::*;
use crate::artifact::{ProofObject, ProofObjectView};
use crate::bytes::append_bytes;
use crate::error::{bytes_result, PipelineError};

verus! {

/// The number of bytes of the selector that stands before the proof.
pub const SELECTOR_LEN: usize = 4;

/// The selector of a verifier: the first four bytes of the digest of its
/// parameters. It names the proof system and its version, and depends on
/// nothing else.
pub open spec fn verifier_selector(verifier_parameters: Seq<u8>) -> Seq<u8> {
    verifier_parameters.take(SELECTOR_LEN as int)
}

/// The encoded seal of a proof object: the selector immediately followed by
/// the proof's bytes, with no length and no padding. Only the constant-size
/// variant has one.
pub open spec fn seal_encoding(object: ProofObjectView) -> Result<Seq<u8>, PipelineError> {
    match object {
        ProofObjectView::Groth16 { seal, verifier_parameters } => Ok(
            verifier_selector(verifier_parameters) + seal,
        ),
        _ => Err(PipelineError::UnsupportedProofVariant),
    }
}

/// Encodes the seal of a proof object for the ledger's verifier, or refuses a proof
/// of any other variant than the constant-size one.
pub fn encode_seal(object: &ProofObject) -> (r: Result<Vec<u8>, PipelineError>)
    ensures
        bytes_result(r) == seal_encoding(object@),
        !(object@ is Groth16) ==> r == Err::<Vec<u8>, PipelineError>(
            PipelineError::UnsupportedProofVariant,
        ),
{
    match object {
        ProofObject::Groth16 { seal, verifier_parameters } => {
            let mut out: Vec<u8> = Vec::new();
            let mut i: usize = 0;
            while i < SELECTOR_LEN
                invariant
                    i <= SELECTOR_LEN,
                    out@ == verifier_parameters@.take(i as int),
                decreases SELECTOR_LEN - i,
            {
                out.push(verifier_parameters[i]);
                assert(verifier_parameters@.take(i + 1) =~= verifier_parameters@.take(
                    i as int,
                ).push(verifier_parameters@[i as int]));
                i += 1;
            }
            append_bytes(&mut out, seal.as_slice());
            Ok(out)
        },
        _ => Err(PipelineError::UnsupportedProofVariant),
    }
}

/// Encoding is repeatable: two encodings of the same proof object are the
/// same bytes, or fail alike.
pub proof fn lemma_seal_encoding_is_repeatable(
    object: ProofObjectView,
    first: Result<Vec<u8>, PipelineError>,
    second: Result<Vec<u8>, PipelineError>,
)
    requires
        bytes_result(first) == seal_encoding(object),
        bytes_result(second) == seal_encoding(object),
    ensures
        bytes_result(first) == bytes_result(second),
{
}

/// An encoded seal is four bytes longer than the proof, and the proof
/// follows the selector unchanged: nothing is cut off and nothing is added.
pub proof fn lemma_seal_keeps_the_proof(seal: Seq<u8>, verifier_parameters: Seq<u8>)
    requires
        verifier_parameters.len() == 32,
    ensures
        seal_encoding(ProofObjectView::Groth16 { seal, verifier_parameters }) matches Ok(encoded)
            && encoded.len() == SELECTOR_LEN + seal.len() && encoded.skip(SELECTOR_LEN as int)
            == seal && encoded.take(SELECTOR_LEN as int) == verifier_selector(
            verifier_parameters,
        ),
{
    let encoded = verifier_selector(verifier_parameters) + seal;
    assert(encoded.skip(SELECTOR_LEN as int) =~= seal);
    assert(encoded.take(SELECTOR_LEN as int) =~= verifier_selector(verifier_parameters));
}

} // verus!
