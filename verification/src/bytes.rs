//! Byte-level models shared by the codecs: little-endian words as the proving
//! engine lays them out, and big-endian numbers as the ledger's ABI does.

use vstd::prelude::*;

verus! {

/// The four bytes of a 32-bit word, least significant first.
pub open spec fn le_word_bytes(w: u32) -> Seq<u8> {
    seq![
        (w % 256) as u8,
        (w / 256 % 256) as u8,
        (w / 65536 % 256) as u8,
        (w / 16777216) as u8,
    ]
}

/// A sequence of 32-bit words laid out as bytes, each word least significant
/// byte first.
pub open spec fn le_words_bytes(words: Seq<u32>) -> Seq<u8> {
    Seq::new(4 * words.len(), |i: int| le_word_bytes(words[i / 4])[i % 4])
}

/// The number whose four little-endian bytes start at `at`.
pub open spec fn le_u32_at(bytes: Seq<u8>, at: int) -> nat
    recommends
        0 <= at,
        at + 4 <= bytes.len(),
{
    (bytes[at] as nat) + (bytes[at + 1] as nat) * 0x100 + (bytes[at + 2] as nat) * 0x1_0000 + (
    bytes[at + 3] as nat) * 0x100_0000
}

/// The 32-bit words that a byte string is made of, each read least
/// significant byte first. Bytes after the last whole word are left out.
pub open spec fn le_bytes_words(bytes: Seq<u8>) -> Seq<u32> {
    Seq::new((bytes.len() / 4) as nat, |i: int| le_u32_at(bytes, 4 * i) as u32)
}

/// The number whose eight little-endian bytes start at `at`.
pub open spec fn le_u64_at(bytes: Seq<u8>, at: int) -> nat
    recommends
        0 <= at,
        at + 8 <= bytes.len(),
{
    (bytes[at] as nat) + (bytes[at + 1] as nat) * 0x100 + (bytes[at + 2] as nat) * 0x1_0000 + (
    bytes[at + 3] as nat) * 0x100_0000 + (bytes[at + 4] as nat) * 0x1_0000_0000 + (bytes[at
        + 5] as nat) * 0x100_0000_0000 + (bytes[at + 6] as nat) * 0x1_0000_0000_0000 + (bytes[at
        + 7] as nat) * 0x100_0000_0000_0000
}

/// `n` bytes, all zero.
pub open spec fn zeros(n: nat) -> Seq<u8> {
    Seq::new(n, |i: int| 0u8)
}

/// 256 to the power `k`.
pub open spec fn pow256(k: nat) -> nat
    decreases k,
{
    if k == 0 {
        1
    } else {
        256 * pow256((k - 1) as nat)
    }
}

/// The value of a byte string read as a big-endian number.
pub open spec fn be_value(bytes: Seq<u8>) -> nat
    decreases bytes.len(),
{
    if bytes.len() == 0 {
        0
    } else {
        be_value(bytes.drop_last()) * 256 + bytes.last() as nat
    }
}

/// The `width` low-order base-256 digits of `n`, most significant first.
pub open spec fn be_bytes(n: nat, width: nat) -> Seq<u8>
    decreases width,
{
    if width == 0 {
        Seq::empty()
    } else {
        be_bytes(n / 256, (width - 1) as nat).push((n % 256) as u8)
    }
}

/// `be_bytes` gives exactly `width` bytes.
pub proof fn lemma_be_bytes_len(n: nat, width: nat)
    ensures
        be_bytes(n, width).len() == width,
    decreases width,
{
    if width > 0 {
        lemma_be_bytes_len(n / 256, (width - 1) as nat);
    }
}

/// No power of 256 is zero.
pub proof fn lemma_pow256_positive(k: nat)
    ensures
        pow256(k) >= 1,
    decreases k,
{
    if k > 0 {
        lemma_pow256_positive((k - 1) as nat);
    }
}

/// A larger exponent never gives a smaller power.
pub proof fn lemma_pow256_monotonic(j: nat, k: nat)
    requires
        j <= k,
    ensures
        pow256(j) <= pow256(k),
    decreases k,
{
    if j < k {
        lemma_pow256_monotonic(j, (k - 1) as nat);
        lemma_pow256_positive((k - 1) as nat);
    }
}

/// 256 to the eighth is two to the 64th, the first number that no `u64` holds.
pub proof fn lemma_pow256_eight()
    ensures
        pow256(8) == 0x1_0000_0000_0000_0000,
{
    reveal_with_fuel(pow256, 9);
}

/// A big-endian string of `k` bytes stands for a number below 256 to the `k`.
pub proof fn lemma_be_value_bound(bytes: Seq<u8>)
    ensures
        be_value(bytes) < pow256(bytes.len()),
    decreases bytes.len(),
{
    if bytes.len() > 0 {
        lemma_be_value_bound(bytes.drop_last());
    }
}

/// Writing a number that fits in `width` digits and reading it back gives the
/// number.
pub proof fn lemma_be_value_of_be_bytes(n: nat, width: nat)
    requires
        n < pow256(width),
    ensures
        be_value(be_bytes(n, width)) == n,
    decreases width,
{
    if width > 0 {
        let rest = be_bytes(n / 256, (width - 1) as nat);
        lemma_be_value_of_be_bytes(n / 256, (width - 1) as nat);
        assert(be_bytes(n, width).drop_last() =~= rest);
        assert(be_bytes(n, width).last() == (n % 256) as u8);
    }
}

/// Reading a byte string and writing the number back at the same width gives
/// the string.
pub proof fn lemma_be_bytes_of_be_value(bytes: Seq<u8>)
    ensures
        be_bytes(be_value(bytes), bytes.len()) == bytes,
    decreases bytes.len(),
{
    if bytes.len() > 0 {
        let n = be_value(bytes);
        lemma_be_bytes_of_be_value(bytes.drop_last());
        assert(n / 256 == be_value(bytes.drop_last()));
        assert(n % 256 == bytes.last() as nat);
        assert(be_bytes(n, bytes.len()) =~= bytes);
    }
}

/// A longer prefix of a big-endian string never stands for a smaller number.
pub proof fn lemma_be_value_prefix(bytes: Seq<u8>, k: int)
    requires
        0 <= k <= bytes.len(),
    ensures
        be_value(bytes.take(k)) <= be_value(bytes),
    decreases bytes.len() - k,
{
    if k < bytes.len() {
        lemma_be_value_prefix(bytes, k + 1);
        assert(bytes.take(k + 1).drop_last() =~= bytes.take(k));
    } else {
        assert(bytes.take(k) =~= bytes);
    }
}

/// Lays 32-bit words out as bytes, each word least significant byte first.
pub fn words_to_le_bytes(words: &Vec<u32>) -> (out: Vec<u8>)
    ensures
        out@ == le_words_bytes(words@),
{
    let mut out: Vec<u8> = Vec::new();
    let mut i: usize = 0;
    while i < words.len()
        invariant
            i <= words.len(),
            out@.len() == 4 * i,
            forall|k: int| 0 <= k < 4 * i ==> out@[k] == le_word_bytes(words@[k / 4])[k % 4],
        decreases words.len() - i,
    {
        let w: u32 = words[i];
        out.push((w % 256) as u8);
        out.push((w / 256 % 256) as u8);
        out.push((w / 65536 % 256) as u8);
        out.push((w / 16777216) as u8);
        i += 1;
    }
    assert(out@ =~= le_words_bytes(words@));
    out
}

/// Reads bytes as 32-bit words, each least significant byte first, if they
/// make whole words.
pub fn le_bytes_to_words(bytes: &[u8]) -> (r: Option<Vec<u32>>)
    ensures
        r is Some <==> bytes@.len() % 4 == 0,
        r matches Some(words) ==> words@ == le_bytes_words(bytes@),
{
    let len = bytes.len();
    if len % 4 != 0 {
        return None;
    }
    let mut words: Vec<u32> = Vec::new();
    let mut i: usize = 0;
    while i < len / 4
        invariant
            len == bytes@.len(),
            len % 4 == 0,
            i <= len / 4,
            words@.len() == i,
            forall|k: int| 0 <= k < i ==> words@[k] == le_u32_at(bytes@, 4 * k) as u32,
        decreases len / 4 - i,
    {
        let b0: u32 = bytes[4 * i] as u32;
        let b1: u32 = bytes[4 * i + 1] as u32;
        let b2: u32 = bytes[4 * i + 2] as u32;
        let b3: u32 = bytes[4 * i + 3] as u32;
        words.push(b0 + b1 * 0x100 + b2 * 0x1_0000 + b3 * 0x100_0000);
        i += 1;
    }
    assert(words@ =~= le_bytes_words(bytes@));
    Some(words)
}

/// The 32-byte big-endian word that stands for `v`.
pub fn u64_word(v: u64) -> (word: [u8; 32])
    ensures
        word@ == be_bytes(v as nat, 32),
{
    let mut word: [u8; 32] = [0u8; 32];
    let mut rest: u64 = v;
    let mut i: usize = 0;
    while i < 32
        invariant
            i <= 32,
            be_bytes(v as nat, 32) == be_bytes(rest as nat, (32 - i) as nat) + word@.subrange(
                32 - i,
                32,
            ),
        decreases 32 - i,
    {
        let ghost before = word@;
        word[31 - i] = (rest % 256) as u8;
        assert(be_bytes(rest as nat, (32 - i) as nat) + before.subrange(32 - i, 32) =~= be_bytes(
            (rest / 256) as nat,
            (32 - i - 1) as nat,
        ) + word@.subrange(32 - i - 1, 32));
        rest = rest / 256;
        i += 1;
    }
    assert(be_bytes(rest as nat, 0) + word@.subrange(0, 32) =~= word@);
    word
}

/// Reads the 32-byte big-endian word that starts at `at`, if the number fits
/// in 64 bits.
pub(crate) fn read_word(bytes: &[u8], at: usize) -> (r: Option<u64>)
    requires
        at + 32 <= bytes@.len(),
    ensures
        r matches Some(v) ==> v == be_value(bytes@.subrange(at as int, at + 32)),
        r is Some <==> be_value(bytes@.subrange(at as int, at + 32)) <= u64::MAX,
{
    let ghost word = bytes@.subrange(at as int, at + 32);
    let mut acc: u64 = 0;
    let mut i: usize = 0;
    while i < 32
        invariant
            i <= 32,
            at + 32 <= bytes.len(),
            word == bytes@.subrange(at as int, at + 32),
            acc == be_value(word.take(i as int)),
        decreases 32 - i,
    {
        proof {
            assert(word.take(i + 1).drop_last() =~= word.take(i as int));
            lemma_be_value_prefix(word, i + 1);
        }
        if acc > 0x00FF_FFFF_FFFF_FFFF {
            return None;
        }
        acc = acc * 256 + bytes[at + i] as u64;
        i += 1;
    }
    assert(word.take(32) =~= word);
    Some(acc)
}

/// Appends a copy of `src` to `out`.
pub fn append_bytes(out: &mut Vec<u8>, src: &[u8])
    ensures
        final(out)@ == old(out)@ + src@,
{
    let mut i: usize = 0;
    while i < src.len()
        invariant
            i <= src@.len(),
            out@ == old(out)@ + src@.take(i as int),
        decreases src.len() - i,
    {
        out.push(src[i]);
        assert(src@.take(i + 1) =~= src@.take(i as int).push(src@[i as int]));
        i += 1;
    }
    assert(src@.take(src@.len() as int) =~= src@);
}

/// Appends `n` zero bytes to `out`.
pub fn append_zeros(out: &mut Vec<u8>, n: usize)
    ensures
        final(out)@ == old(out)@ + zeros(n as nat),
{
    let mut i: usize = 0;
    while i < n
        invariant
            i <= n,
            out@ == old(out)@ + zeros(i as nat),
        decreases n - i,
    {
        out.push(0u8);
        assert(zeros((i + 1) as nat) =~= zeros(i as nat).push(0u8));
        i += 1;
    }
}

} // verus!
