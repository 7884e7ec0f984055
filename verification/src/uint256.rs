//! The 256-bit unsigned integer that the ledger's ABI calls `uint256`.

use vstd::prelude::*;
use crate::bytes::{
    be_bytes, be_value, lemma_be_bytes_of_be_value, lemma_be_value_bound,
    lemma_be_value_of_be_bytes, lemma_pow256_eight, lemma_pow256_monotonic, pow256, read_word,
    u64_word,
};

verus! {

/// A 256-bit unsigned integer, held as its 32 big-endian bytes: the form in
/// which it stands in a journal and in a call.
#[derive(Clone, Copy, Debug, PartialEq, Eq)]
pub struct Uint256 {
    pub be: [u8; 32],
}

impl View for Uint256 {
    type V = nat;

    /// The number itself.
    open spec fn view(&self) -> nat {
        be_value(self.be@)
    }
}

impl Uint256 {
    /// The number whose big-endian bytes are `bytes`.
    pub fn from_be_bytes(bytes: [u8; 32]) -> (r: Self)
        ensures
            r.be == bytes,
            r@ == be_value(bytes@),
    {
        Uint256 { be: bytes }
    }

    /// The 32 big-endian bytes of the number.
    pub fn to_be_bytes(&self) -> (r: [u8; 32])
        ensures
            r == self.be,
            r@ == be_bytes(self@, 32),
    {
        proof {
            lemma_be_bytes_of_be_value(self.be@);
        }
        self.be
    }

    /// The 64-bit number `v` as a 256-bit one.
    pub fn from_u64(v: u64) -> (r: Self)
        ensures
            r@ == v,
    {
        proof {
            lemma_u64_fits_word(v as nat);
        }
        Uint256 { be: u64_word(v) }
    }

    /// The number as a `u64`, if it is small enough.
    pub fn to_u64(&self) -> (r: Option<u64>)
        ensures
            r matches Some(v) ==> v == self@,
            r is Some <==> self@ <= u64::MAX,
    {
        assert(self.be@.subrange(0, 32) =~= self.be@);
        read_word(self.be.as_slice(), 0)
    }

    /// Every value is below two to the 256th.
    pub proof fn lemma_in_range(self)
        ensures
            self@ < pow256(32),
    {
        lemma_be_value_bound(self.be@);
    }
}

/// A number that fits in 64 bits is written and read back unchanged at the
/// width of a word.
pub proof fn lemma_u64_fits_word(v: nat)
    requires
        v <= u64::MAX,
    ensures
        v < pow256(32),
        be_value(be_bytes(v, 32)) == v,
{
    lemma_pow256_eight();
    lemma_pow256_monotonic(8, 32);
    lemma_be_value_of_be_bytes(v, 32);
}

} // verus!
