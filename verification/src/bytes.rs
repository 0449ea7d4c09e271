//! Byte layouts of 32-bit words, and the two outside encoders that produce them.

use vstd::prelude::*;

verus! {

/// Number of bytes in one 32-bit word.
pub const WORD_SIZE: usize = 4;

/// Byte `k` of a word, counted from the least significant one.
pub open spec fn word_byte(word: u32, k: int) -> u8 {
    if k == 0 {
        (word % 256) as u8
    } else if k == 1 {
        (word / 0x100 % 256) as u8
    } else if k == 2 {
        (word / 0x1_0000 % 256) as u8
    } else {
        (word / 0x100_0000 % 256) as u8
    }
}

/// The bytes of a run of words in memory order: word after word, each with its
/// least significant byte first, or each with its most significant byte first.
pub open spec fn words_layout(words: Seq<u32>, big_endian: bool) -> Seq<u8> {
    Seq::new(
        4 * words.len(),
        |j: int| word_byte(words[j / 4], if big_endian { 3 - j % 4 } else { j % 4 }),
    )
}

/// The little-endian layout of a run of words.
pub open spec fn little_endian(words: Seq<u32>) -> Seq<u8> {
    words_layout(words, false)
}

/// Holds of the bytes that a machine stores for a run of words: they are the
/// little-endian layout or the big-endian one.
pub open spec fn is_native_layout(bytes: Seq<u8>, words: Seq<u32>) -> bool {
    bytes == words_layout(words, false) || bytes == words_layout(words, true)
}

/// Outside type: the error of `bincode`. Nothing is known of its values.
#[verifier::external_type_specification]
#[verifier::external_body]
pub struct ExBincodeErrorKind(bincode::ErrorKind);

/// Calls `bytemuck::cast_slice` from `u32` to `u8`, which hands back the memory
/// of the words as bytes. Trusted: the result holds the four bytes of every
/// word, in the words' order and in the byte order of the machine. The cast
/// cannot fail towards `u8`, whose alignment is one and whose size divides
/// every length.
#[verifier::external_body]
fn cast_words(words: &[u32]) -> (bytes: &[u8])
    ensures
        is_native_layout(bytes@, words@),
{
    bytemuck::cast_slice(words)
}

/// Calls `bincode::serialize` on a pair of `u32`. Trusted: with the fixed-width
/// little-endian configuration of that function, the result is the first
/// word's four bytes followed by the second's, least significant byte first,
/// with no prefix; writing fixed-width integers to a vector without a size
/// limit has no error path.
#[verifier::external_body]
fn serialize_pair(first: u32, second: u32) -> (out: Result<Vec<u8>, bincode::Error>)
    ensures
        out is Ok,
        out->Ok_0@ == little_endian(seq![first, second]),
{
    bincode::serialize(&(first, second))
}

/// The bytes of `words` as this machine lays them out in memory.
pub fn native_bytes(words: &Vec<u32>) -> (bytes: Vec<u8>)
    ensures
        is_native_layout(bytes@, words@),
        bytes@.len() == 4 * words@.len(),
{
    let raw = cast_words(words.as_slice());
    vstd::slice::slice_to_vec(raw)
}

/// The eight bytes of two words, each with its least significant byte first.
pub fn record_bytes(first: u32, second: u32) -> (bytes: Vec<u8>)
    ensures
        bytes@ == little_endian(seq![first, second]),
        bytes@.len() == 8,
{
    serialize_pair(first, second).unwrap()
}

} // verus!
