//! The statement that is asserted on the ledger: the one 256-bit number in
//! the journal of the remote stage.

use vstd::prelude::*;
use crate::bytes::{be_bytes, be_value, lemma_be_bytes_of_be_value};
use crate::error::PipelineError;
use crate::uint256::Uint256;

verus! {

/// The number of bytes of an ABI word.
pub const WORD_LEN: usize = 32;

/// The statement in a journal: the journal must be exactly one ABI word,
/// which is read as a big-endian number. A journal of any other length is
/// malformed, be it shorter, longer, or a whole number of further words.
pub open spec fn statement_of(journal: Seq<u8>) -> Result<nat, PipelineError> {
    if journal.len() == WORD_LEN {
        Ok(be_value(journal))
    } else {
        Err(PipelineError::MalformedJournal)
    }
}

/// The content of a result that holds a statement.
pub open spec fn statement_result(r: Result<Uint256, PipelineError>) -> Result<nat, PipelineError> {
    match r {
        Ok(s) => Ok(s@),
        Err(e) => Err(e),
    }
}

/// Strictly decodes the journal of the remote stage into the statement.
pub fn decode_statement(journal: &[u8]) -> (r: Result<Uint256, PipelineError>)
    ensures
        statement_result(r) == statement_of(journal@),
        r matches Ok(s) ==> s.be@ == journal@,
        journal@.len() % 32 != 0 ==> r == Err::<Uint256, PipelineError>(
            PipelineError::MalformedJournal,
        ),
{
    if journal.len() != WORD_LEN {
        return Err(PipelineError::MalformedJournal);
    }
    let mut be: [u8; 32] = [0u8; 32];
    let mut i: usize = 0;
    while i < WORD_LEN
        invariant
            i <= WORD_LEN,
            journal@.len() == WORD_LEN,
            forall|k: int| 0 <= k < i ==> be@[k] == journal@[k],
        decreases WORD_LEN - i,
    {
        be[i] = journal[i];
        i += 1;
    }
    assert(be@ =~= journal@);
    Ok(Uint256::from_be_bytes(be))
}

/// A journal that decodes is the canonical encoding of its statement: to
/// encode the statement again gives the journal back, byte for byte.
pub proof fn lemma_decoded_journal_is_canonical(journal: Seq<u8>)
    requires
        statement_of(journal) is Ok,
    ensures
        journal == be_bytes(statement_of(journal)->Ok_0, WORD_LEN as nat),
{
    lemma_be_bytes_of_be_value(journal);
}

} // verus!
