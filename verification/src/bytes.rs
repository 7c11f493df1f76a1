//! Little-endian 32-bit words inside byte sequences.

use vstd::prelude::*;

verus! {

/// The word stored at bytes `at .. at + 4`, least significant byte first.
pub open spec fn word_at(bytes: Seq<u8>, at: int) -> u32 {
    (bytes[at] + 256 * bytes[at + 1] + 65536 * bytes[at + 2] + 16777216 * bytes[at + 3]) as u32
}

/// The word stored at bytes `at .. at + 4`, most significant byte first.
pub open spec fn big_word_at(bytes: Seq<u8>, at: int) -> u32 {
    (16777216 * bytes[at] + 65536 * bytes[at + 1] + 256 * bytes[at + 2] + bytes[at + 3]) as u32
}

/// The `i`-th byte of `word`, counted from the least significant one.
pub open spec fn byte_of(word: u32, i: int) -> u8 {
    if i == 0 {
        (word % 256) as u8
    } else if i == 1 {
        (word / 256 % 256) as u8
    } else if i == 2 {
        (word / 65536 % 256) as u8
    } else {
        (word / 16777216) as u8
    }
}

/// The bytes of `words` in order, four to a word.
pub open spec fn words_bytes(words: Seq<u32>) -> Seq<u8> {
    Seq::new(4 * words.len(), |i: int| byte_of(words[i / 4], i % 4))
}

/// Reads the word at `at`.
pub fn read_word(bytes: &[u8], at: usize) -> (word: u32)
    requires
        at + 4 <= bytes@.len(),
    ensures
        word == word_at(bytes@, at as int),
{
    bytes[at] as u32 + 256 * (bytes[at + 1] as u32) + 65536 * (bytes[at + 2] as u32) + 16777216 * (
    bytes[at + 3] as u32)
}

/// Appends the four bytes of `word`.
pub fn push_word(out: &mut Vec<u8>, word: u32)
    ensures
        final(out)@ == old(out)@ + words_bytes(seq![word]),
{
    out.push((word % 256) as u8);
    out.push((word / 256 % 256) as u8);
    out.push((word / 65536 % 256) as u8);
    out.push((word / 16777216) as u8);
    assert(out@ =~= old(out)@ + words_bytes(seq![word]));
}

/// Lays `words` out as bytes.
pub fn encode_words(words: &[u32]) -> (out: Vec<u8>)
    ensures
        out@ == words_bytes(words@),
{
    let mut out: Vec<u8> = Vec::new();
    let mut i: usize = 0;
    while i < words.len()
        invariant
            i <= words@.len(),
            out@ == words_bytes(words@.take(i as int)),
        decreases words@.len() - i,
    {
        push_word(&mut out, words[i]);
        proof {
            assert(words_bytes(words@.take(i + 1)) =~= words_bytes(words@.take(i as int))
                + words_bytes(seq![words@[i as int]]));
        }
        i += 1;
    }
    assert(words@.take(i as int) =~= words@);
    out
}

proof fn lemma_bytes_make_word(w: u32)
    ensures
        byte_of(w, 0) + 256 * byte_of(w, 1) + 65536 * byte_of(w, 2) + 16777216 * byte_of(w, 3) == w,
{
    let low: u32 = w % 65536;
    let high: u32 = w / 65536;
    assert(w % 256 == low % 256 && w / 256 % 256 == low / 256);
    assert(w / 16777216 == high / 256 && w / 65536 % 256 == high % 256);
    assert(low == low % 256 + 256 * (low / 256));
    assert(high == high % 256 + 256 * (high / 256));
}

/// Reading back a word that was laid out gives that word.
pub proof fn law_word_round_trip(words: Seq<u32>, k: int)
    requires
        0 <= k < words.len(),
    ensures
        word_at(words_bytes(words), 4 * k) == words[k],
{
    let b = words_bytes(words);
    let w = words[k];
    lemma_bytes_make_word(w);
    assert(4 * k / 4 == k && 4 * k % 4 == 0);
    assert((4 * k + 1) / 4 == k && (4 * k + 1) % 4 == 1);
    assert((4 * k + 2) / 4 == k && (4 * k + 2) % 4 == 2);
    assert((4 * k + 3) / 4 == k && (4 * k + 3) % 4 == 3);
    assert(b[4 * k] == byte_of(w, 0));
    assert(b[4 * k + 1] == byte_of(w, 1));
    assert(b[4 * k + 2] == byte_of(w, 2));
    assert(b[4 * k + 3] == byte_of(w, 3));
}

/// The number that the four bytes from `at` on spell, least significant first.
pub open spec fn spelled_at(bytes: Seq<u8>, at: int) -> int {
    bytes[at] + 0x100 * bytes[at + 1] + 0x1_0000 * bytes[at + 2] + 0x100_0000 * bytes[at + 3]
}

/// A word read from bytes is the number that its four bytes spell.
pub proof fn law_words_are_spelled(bytes: Seq<u8>, at: int)
    ensures
        word_at(bytes, at) == spelled_at(bytes, at),
        big_word_at(bytes, at) == 0x100_0000 * bytes[at] + 0x1_0000 * bytes[at + 1] + 0x100
            * bytes[at + 2] + bytes[at + 3],
{
}

/// Words laid out take four bytes each, in their order, and every word is the
/// number that its bytes spell.
pub proof fn law_words_are_laid_out(words: Seq<u32>, k: int)
    requires
        0 <= k < words.len(),
    ensures
        words_bytes(words).len() == 4 * words.len(),
        spelled_at(words_bytes(words), 4 * k) == words[k],
{
    law_word_round_trip(words, k);
    law_words_are_spelled(words_bytes(words), 4 * k);
}

} // verus!
