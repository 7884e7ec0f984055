//! The call that publishes a statement and its seal: `set(uint256,bytes)` in
//! the ledger's ABI, and the strict decoder that reads such a call back.

use vstd::prelude::*;
use crate::bytes::{
    append_bytes, append_zeros, be_bytes, be_value, lemma_be_bytes_len,
    lemma_be_bytes_of_be_value, lemma_be_value_of_be_bytes, read_word, u64_word, zeros,
};
use crate::uint256::{lemma_u64_fits_word, Uint256};

verus! {

/// The number of bytes before the seal's own bytes: the selector, the
/// statement, the offset of the seal and its length.
pub const HEAD_LEN: usize = 100;

/// The selector of `set(uint256,bytes)`: the first four bytes of the
/// Keccak-256 hash of that signature.
pub open spec fn set_selector() -> Seq<u8> {
    seq![0x8bu8, 0x28u8, 0x29u8, 0x47u8]
}

/// The number of zero bytes that fill `len` bytes up to whole words.
pub open spec fn padding(len: nat) -> nat {
    ((32 - len % 32) % 32) as nat
}

/// The call `set(statement, seal)`: the selector, then the statement as a
/// word, the offset of the seal among the arguments (two words), and the
/// seal as its length, its bytes and zeros up to a whole word.
pub open spec fn call_payload(statement: nat, seal: Seq<u8>) -> Seq<u8> {
    set_selector() + be_bytes(statement, 32) + be_bytes(64, 32) + be_bytes(seal.len(), 32) + seal
        + zeros(padding(seal.len()))
}

/// What a payload decodes to. Decoding is strict: the selector, the offset,
/// the length of the whole and every padding byte must be as `call_payload`
/// writes them.
pub open spec fn call_decoding(payload: Seq<u8>) -> Option<(nat, Seq<u8>)> {
    if payload.len() < HEAD_LEN {
        None
    } else {
        let len = be_value(payload.subrange(68, 100));
        if payload.take(4) == set_selector() && be_value(payload.subrange(36, 68)) == 64
            && payload.len() == HEAD_LEN + len + padding(len) && payload.skip(HEAD_LEN + len)
            == zeros(padding(len)) {
            Some((be_value(payload.subrange(4, 36)), payload.subrange(100, HEAD_LEN + len)))
        } else {
            None
        }
    }
}

/// Builds the payload of the call that asserts `statement` with `seal`.
pub fn build_call(statement: &Uint256, seal: &[u8]) -> (payload: Vec<u8>)
    ensures
        payload@ == call_payload(statement@, seal@),
{
    let mut payload: Vec<u8> = Vec::new();
    payload.push(0x8b);
    payload.push(0x28);
    payload.push(0x29);
    payload.push(0x47);
    assert(payload@ =~= set_selector());
    let word = statement.to_be_bytes();
    append_bytes(&mut payload, word.as_slice());
    let offset = u64_word(64);
    append_bytes(&mut payload, offset.as_slice());
    let len = seal.len();
    let length = u64_word(len as u64);
    append_bytes(&mut payload, length.as_slice());
    append_bytes(&mut payload, seal);
    append_zeros(&mut payload, (32 - len % 32) % 32);
    payload
}

/// Reads a payload back into the statement and the seal, if it is a call of
/// `set` in canonical form.
pub fn decode_call(payload: &[u8]) -> (r: Option<(Uint256, Vec<u8>)>)
    ensures
        match call_decoding(payload@) {
            Some(call) => r matches Some(got) && got.0@ == call.0 && got.1@ == call.1,
            None => r is None,
        },
{
    let total = payload.len();
    if total < HEAD_LEN {
        return None;
    }
    if payload[0] != 0x8b || payload[1] != 0x28 || payload[2] != 0x29 || payload[3] != 0x47 {
        assert(payload@.take(4)[0] == payload@[0]);
        assert(payload@.take(4)[1] == payload@[1]);
        assert(payload@.take(4)[2] == payload@[2]);
        assert(payload@.take(4)[3] == payload@[3]);
        return None;
    }
    assert(payload@.take(4) =~= set_selector());
    match read_word(payload, 36) {
        Some(offset) => {
            if offset != 64 {
                return None;
            }
        },
        None => {
            return None;
        },
    }
    let ghost len_value = be_value(payload@.subrange(68, 100));
    let len: usize = match read_word(payload, 68) {
        Some(len) => {
            if len > (total - HEAD_LEN) as u64 {
                return None;
            }
            len as usize
        },
        None => {
            return None;
        },
    };
    assert(len == len_value);
    if total - HEAD_LEN - len != (32 - len % 32) % 32 {
        return None;
    }
    let mut i: usize = HEAD_LEN + len;
    while i < total
        invariant
            HEAD_LEN + len <= i <= total,
            total == payload@.len(),
            total == HEAD_LEN + len + padding(len as nat),
            len == be_value(payload@.subrange(68, 100)),
            forall|k: int| HEAD_LEN + len <= k < i ==> payload@[k] == 0,
        decreases total - i,
    {
        if payload[i] != 0 {
            assert(payload@.skip(HEAD_LEN + len)[i - HEAD_LEN - len] == payload@[i as int]);
            assert(zeros(padding(len as nat))[i - HEAD_LEN - len] == 0u8);
            return None;
        }
        i += 1;
    }
    assert(payload@.skip(HEAD_LEN + len) =~= zeros(padding(len as nat)));
    let mut be: [u8; 32] = [0u8; 32];
    let mut j: usize = 0;
    while j < 32
        invariant
            j <= 32,
            HEAD_LEN <= payload@.len(),
            forall|k: int| 0 <= k < j ==> be@[k] == payload@[4 + k],
        decreases 32 - j,
    {
        be[j] = payload[4 + j];
        j += 1;
    }
    assert(be@ =~= payload@.subrange(4, 36));
    let mut seal: Vec<u8> = Vec::new();
    let mut k: usize = 0;
    while k < len
        invariant
            k <= len,
            HEAD_LEN + len <= total,
            total == payload.len(),
            seal@ == payload@.subrange(100, HEAD_LEN + k),
        decreases len - k,
    {
        seal.push(payload[HEAD_LEN + k]);
        assert(payload@.subrange(100, HEAD_LEN + k + 1) =~= payload@.subrange(
            100,
            HEAD_LEN + k,
        ).push(payload@[HEAD_LEN + k]));
        k += 1;
    }
    Some((Uint256::from_be_bytes(be), seal))
}

/// What the builder writes, the decoder reads back: every statement and
/// every seal come out of their payload exactly as they went in.
pub proof fn lemma_call_round_trip(statement: Uint256, seal: Seq<u8>)
    requires
        seal.len() <= usize::MAX,
    ensures
        call_decoding(call_payload(statement@, seal)) == Some((statement@, seal)),
{
    let payload = call_payload(statement@, seal);
    let len = seal.len();
    statement.lemma_in_range();
    lemma_u64_fits_word(64);
    lemma_u64_fits_word(len);
    lemma_be_bytes_len(statement@, 32);
    lemma_be_bytes_len(64, 32);
    lemma_be_bytes_len(len, 32);
    lemma_be_value_of_be_bytes(statement@, 32);
    assert(payload.len() == HEAD_LEN + len + padding(len));
    assert(payload.take(4) =~= set_selector());
    assert(payload.subrange(4, 36) =~= be_bytes(statement@, 32));
    assert(payload.subrange(36, 68) =~= be_bytes(64, 32));
    assert(payload.subrange(68, 100) =~= be_bytes(len, 32));
    assert(payload.subrange(100, HEAD_LEN + len) =~= seal);
    assert(payload.skip(HEAD_LEN + len) =~= zeros(padding(len)));
}

/// The decoder accepts nothing but what the builder writes: a payload that
/// decodes is, byte for byte, the payload built from what it decodes to.
pub proof fn lemma_call_decoding_is_strict(payload: Seq<u8>)
    requires
        call_decoding(payload) is Some,
    ensures
        payload == call_payload(call_decoding(payload)->Some_0.0, call_decoding(payload)->Some_0.1),
{
    let call = call_decoding(payload)->Some_0;
    let len = be_value(payload.subrange(68, 100));
    lemma_be_bytes_of_be_value(payload.subrange(4, 36));
    lemma_be_bytes_of_be_value(payload.subrange(36, 68));
    lemma_be_bytes_of_be_value(payload.subrange(68, 100));
    assert(call.1.len() == len);
    assert(payload =~= payload.take(4) + payload.subrange(4, 36) + payload.subrange(36, 68)
        + payload.subrange(68, 100) + payload.subrange(100, HEAD_LEN + len) + payload.skip(
        HEAD_LEN + len,
    ));
}

/// A call is the selector and whole words: its length is the head, the seal
/// and the padding, and what follows the selector is a multiple of 32 bytes.
pub proof fn lemma_call_is_whole_words(statement: nat, seal: Seq<u8>)
    ensures
        call_payload(statement, seal).len() == HEAD_LEN + seal.len() + padding(seal.len()),
        (call_payload(statement, seal).len() - 4) % 32 == 0,
        padding(seal.len()) < 32,
{
    lemma_be_bytes_len(statement, 32);
    lemma_be_bytes_len(64, 32);
    lemma_be_bytes_len(seal.len(), 32);
}

} // verus!
