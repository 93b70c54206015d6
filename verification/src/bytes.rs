//! Words and their bytes in memory.
//!
//! Every number a shader reads is carried here as the bit pattern of an IEEE 754
//! binary32 value, held in a `u32`. A buffer handed to the device is the bytes of
//! such words as they lie in memory, so their order within a word is the machine's.
use vstd::prelude::*;

verus! {

/// Order of the four bytes of a word in memory.
#[derive(Clone, Copy, Debug, PartialEq, Eq, Structural)]
pub enum Endian {
    /// Least significant byte first.
    Little,
    /// Most significant byte first.
    Big,
}

/// The four bytes of `w` in the order `e`.
pub open spec fn word_bytes(w: u32, e: Endian) -> Seq<u8> {
    let b0 = (w % 256) as u8;
    let b1 = ((w / 256) % 256) as u8;
    let b2 = ((w / 65536) % 256) as u8;
    let b3 = (w / 16777216) as u8;
    match e {
        Endian::Little => seq![b0, b1, b2, b3],
        Endian::Big => seq![b3, b2, b1, b0],
    }
}

/// The bytes of a run of words: word `i` fills bytes `4 * i .. 4 * i + 4`.
pub open spec fn words_bytes(words: Seq<u32>, e: Endian) -> Seq<u8> {
    Seq::new(4 * words.len(), |i: int| word_bytes(words[i / 4], e)[i % 4])
}

/// The word whose bytes in order `e` start at `at` in `bytes`.
pub open spec fn word_at(bytes: Seq<u8>, at: int, e: Endian) -> u32 {
    let (b0, b1, b2, b3) = match e {
        Endian::Little => (bytes[at], bytes[at + 1], bytes[at + 2], bytes[at + 3]),
        Endian::Big => (bytes[at + 3], bytes[at + 2], bytes[at + 1], bytes[at]),
    };
    (b0 + 256 * b1 + 65536 * b2 + 16777216 * b3) as u32
}

/// `bytes` is the memory of `words` on a machine of either byte order.
pub open spec fn in_memory(words: Seq<u32>, bytes: Seq<u8>) -> bool {
    bytes == words_bytes(words, Endian::Little) || bytes == words_bytes(words, Endian::Big)
}

/// Reading a word back from its own bytes gives the word.
pub proof fn lemma_word_round_trip(w: u32, e: Endian)
    ensures
        word_bytes(w, e).len() == 4,
        word_at(word_bytes(w, e), 0, e) == w,
{
}

/// Word `i` of a run is read back from its place in the run's bytes.
pub proof fn lemma_words_round_trip(words: Seq<u32>, e: Endian, i: int)
    requires
        0 <= i < words.len(),
    ensures
        words_bytes(words, e).len() == 4 * words.len(),
        word_at(words_bytes(words, e), 4 * i, e) == words[i],
{
    let bytes = words_bytes(words, e);
    let own = word_bytes(words[i], e);
    assert(bytes[4 * i] == own[0]);
    assert(bytes[4 * i + 1] == own[1]);
    assert(bytes[4 * i + 2] == own[2]);
    assert(bytes[4 * i + 3] == own[3]);
    lemma_word_round_trip(words[i], e);
}

/// The bytes of `words` as they lie in memory, by `bytemuck::cast_slice` from `u32`
/// to `u8`. That cast keeps the address and multiplies the length by four, so the
/// result is each word's bytes in the machine's order: the contract says it is one
/// of the two orders, the same for every word, and not which.
#[verifier::external_body]
pub(crate) fn cast_words(words: &[u32]) -> (r: Vec<u8>)
    ensures
        r@ == words_bytes(words@, Endian::Little) || r@ == words_bytes(words@, Endian::Big),
{
    bytemuck::cast_slice::<u32, u8>(words).to_vec()
}

/// Reads the word whose bytes in order `e` start at `at`.
pub fn read_word(bytes: &[u8], at: usize, e: Endian) -> (r: u32)
    requires
        at + 4 <= bytes@.len(),
    ensures
        r == word_at(bytes@, at as int, e),
{
    let x0: u32 = bytes[at] as u32;
    let x1: u32 = bytes[at + 1] as u32;
    let x2: u32 = bytes[at + 2] as u32;
    let x3: u32 = bytes[at + 3] as u32;
    match e {
        Endian::Little => x0 + 256 * x1 + 65536 * x2 + 16777216 * x3,
        Endian::Big => x3 + 256 * x2 + 65536 * x1 + 16777216 * x0,
    }
}

} // verus!
