//! The input of the private program and the journal in which its results come
//! back, both in the proving engine's word format.

use vstd::prelude::*;
use crate::bytes::{le_bytes_to_words, le_u64_at, le_words_bytes, words_to_le_bytes};
use crate::error::PipelineError;

verus! {

/// The error of `risc0_zkvm::serde`. Nothing is read out of it: every such
/// error becomes one of the pipeline's own.
#[verifier::external_type_specification]
#[verifier::external_body]
pub struct ExSerdeError(risc0_zkvm::serde::Error);

/// The input of the private program: three 64-bit numbers, in this order.
#[derive(Clone, Copy, Debug, PartialEq, Eq, Structural)]
pub struct ProgramInput {
    pub n: u64,
    pub e: u64,
    pub x: u64,
}

impl ProgramInput {
    /// The input as a tuple.
    pub open spec fn triple(self) -> (u64, u64, u64) {
        (self.n, self.e, self.x)
    }

    /// The input made of the three numbers.
    pub fn new(n: u64, e: u64, x: u64) -> (r: Self)
        ensures
            r.triple() == (n, e, x),
    {
        ProgramInput { n, e, x }
    }
}

/// The two 32-bit words of a 64-bit number, low word first.
pub open spec fn u64_words(v: u64) -> Seq<u32> {
    seq![(v % 0x1_0000_0000) as u32, (v / 0x1_0000_0000) as u32]
}

/// The six words that stand for a triple of 64-bit numbers.
pub open spec fn triple_words(t: (u64, u64, u64)) -> Seq<u32> {
    u64_words(t.0) + u64_words(t.1) + u64_words(t.2)
}

/// The bytes that stand for a triple: each number as eight little-endian
/// bytes.
pub open spec fn triple_bytes(t: (u64, u64, u64)) -> Seq<u8> {
    le_words_bytes(triple_words(t))
}

/// The triple whose numbers stand in the first 24 bytes.
pub open spec fn triple_at(bytes: Seq<u8>) -> (u64, u64, u64)
    recommends
        bytes.len() >= 24,
{
    (le_u64_at(bytes, 0) as u64, le_u64_at(bytes, 8) as u64, le_u64_at(bytes, 16) as u64)
}

/// What a journal decodes to: the triple in its first six words, if it is
/// made of whole words and holds at least six. Words after the sixth are not
/// looked at.
pub open spec fn journal_triple(journal: Seq<u8>) -> Option<(u64, u64, u64)> {
    if journal.len() % 4 == 0 && journal.len() >= 24 {
        Some(triple_at(journal))
    } else {
        None
    }
}

/// The 64-bit number that a low and a high word make.
pub open spec fn u64_of_words(low: u32, high: u32) -> u64 {
    (low + high * 0x1_0000_0000) as u64
}

/// The triple whose numbers stand in the first six words.
pub open spec fn words_triple(words: Seq<u32>) -> (u64, u64, u64)
    recommends
        words.len() >= 6,
{
    (
        u64_of_words(words[0], words[1]),
        u64_of_words(words[2], words[3]),
        u64_of_words(words[4], words[5]),
    )
}

/// `risc0_zkvm::serde::to_vec` on a triple of `u64`: six words, each number
/// as its low word followed by its high word. On integers it does not fail.
#[verifier::external_body]
fn serialize_triple(n: u64, e: u64, x: u64) -> (r: Result<Vec<u32>, risc0_zkvm::serde::Error>)
    ensures
        r is Ok,
        r->Ok_0@ == triple_words((n, e, x)),
{
    risc0_zkvm::serde::to_vec(&(n, e, x))
}

/// `risc0_zkvm::serde::from_slice` reading a triple of `u64` from words. It
/// succeeds when six words are there, takes each number from a low word
/// followed by a high word, and does not look at what follows the sixth.
#[verifier::external_body]
fn deserialize_triple(words: &[u32]) -> (r: Result<(u64, u64, u64), risc0_zkvm::serde::Error>)
    ensures
        r is Ok <==> words@.len() >= 6,
        r matches Ok(t) ==> t == words_triple(words@),
{
    risc0_zkvm::serde::from_slice::<(u64, u64, u64), u32>(words)
}

/// The bytes that an execution environment hands to the private program for
/// `input`. The engine's serializer does not fail on three integers, so this
/// always succeeds.
pub fn encode_input(input: &ProgramInput) -> (r: Result<Vec<u8>, PipelineError>)
    ensures
        r matches Ok(bytes) && bytes@ == triple_bytes(input.triple()),
{
    match serialize_triple(input.n, input.e, input.x) {
        Ok(words) => Ok(words_to_le_bytes(&words)),
        Err(_) => Err(PipelineError::EnvironmentBuildError),
    }
}

/// Decodes the journal of the private program into its triple. A journal
/// that is not made of whole words, or holds fewer than six, is refused.
pub fn decode_journal(journal: &[u8]) -> (r: Result<(u64, u64, u64), PipelineError>)
    ensures
        r == match journal_triple(journal@) {
            Some(t) => Ok::<(u64, u64, u64), PipelineError>(t),
            None => Err(PipelineError::JournalDecodeError),
        },
{
    match le_bytes_to_words(journal) {
        Some(words) => match deserialize_triple(words.as_slice()) {
            Ok(t) => Ok(t),
            Err(_) => Err(PipelineError::JournalDecodeError),
        },
        None => Err(PipelineError::JournalDecodeError),
    }
}

/// A triple that is written as input bytes and read back as a journal is the
/// triple that was written.
pub proof fn lemma_triple_round_trip(t: (u64, u64, u64))
    ensures
        triple_bytes(t).len() == 24,
        journal_triple(triple_bytes(t)) == Some(t),
{
    let words = triple_words(t);
    let bytes = triple_bytes(t);
    assert(words.len() == 6);
    assert(bytes.len() == 24);
    assert(words[0] == (t.0 % 0x1_0000_0000) as u32);
    assert(words[1] == (t.0 / 0x1_0000_0000) as u32);
    assert(words[2] == (t.1 % 0x1_0000_0000) as u32);
    assert(words[3] == (t.1 / 0x1_0000_0000) as u32);
    assert(words[4] == (t.2 % 0x1_0000_0000) as u32);
    assert(words[5] == (t.2 / 0x1_0000_0000) as u32);
    lemma_le_number(bytes, 0, words[0], words[1], t.0);
    lemma_le_number(bytes, 8, words[2], words[3], t.1);
    lemma_le_number(bytes, 16, words[4], words[5], t.2);
}

/// Eight bytes that hold the low and the high word of a number, each least
/// significant byte first, are the number's little-endian bytes.
proof fn lemma_le_number(bytes: Seq<u8>, at: int, low: u32, high: u32, v: u64)
    requires
        0 <= at,
        at + 8 <= bytes.len(),
        low == v % 0x1_0000_0000,
        high == v / 0x1_0000_0000,
        bytes[at] == (low % 256) as u8,
        bytes[at + 1] == (low / 256 % 256) as u8,
        bytes[at + 2] == (low / 65536 % 256) as u8,
        bytes[at + 3] == (low / 16777216) as u8,
        bytes[at + 4] == (high % 256) as u8,
        bytes[at + 5] == (high / 256 % 256) as u8,
        bytes[at + 6] == (high / 65536 % 256) as u8,
        bytes[at + 7] == (high / 16777216) as u8,
    ensures
        le_u64_at(bytes, at) == v,
{
    lemma_word_digits(low);
    lemma_word_digits(high);
    assert(v == low + high * 0x1_0000_0000);
}

/// A 32-bit word is the sum of its four base-256 digits, each at its weight.
proof fn lemma_word_digits(w: u32)
    ensures
        w == (w % 256) + (w / 256 % 256) * 0x100 + (w / 65536 % 256) * 0x1_0000 + (w / 16777216)
            * 0x100_0000,
        w / 16777216 < 256,
{
    assert(w == (w % 256) + (w / 256 % 256) * 0x100 + (w / 65536 % 256) * 0x1_0000 + (w
        / 16777216) * 0x100_0000) by (bit_vector);
    assert(w / 16777216 < 256) by (bit_vector);
}

} // verus!
