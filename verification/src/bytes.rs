//! Byte images: the bytes that a run of 32-bit words occupies in memory.
//!
//! Buffers are filled from the memory image of their data, so the image
//! follows the byte order of the machine. Both orders are described here;
//! a contract that speaks of an image holds for whichever the machine has.

use vstd::prelude::*;

verus! {

/// The order in which the four bytes of a word lie in memory.
#[derive(Clone, Copy, Debug, PartialEq, Eq, Structural)]
pub enum ByteOrder {
    /// Least significant byte first.
    LittleEndian,
    /// Most significant byte first.
    BigEndian,
}

/// The four bytes of `word` in the given order.
pub open spec fn word_bytes(word: u32, order: ByteOrder) -> Seq<u8> {
    let b0 = (word % 0x100) as u8;
    let b1 = ((word / 0x100) % 0x100) as u8;
    let b2 = ((word / 0x1_0000) % 0x100) as u8;
    let b3 = ((word / 0x100_0000) % 0x100) as u8;
    match order {
        ByteOrder::LittleEndian => seq![b0, b1, b2, b3],
        ByteOrder::BigEndian => seq![b3, b2, b1, b0],
    }
}

/// The bytes of a run of words in the given order: byte `i` is byte `i % 4`
/// of word `i / 4`.
pub open spec fn words_bytes(words: Seq<u32>, order: ByteOrder) -> Seq<u8> {
    Seq::new(4 * words.len(), |i: int| word_bytes(words[i / 4], order)[i % 4])
}

/// `bytes` is the memory image of `words` in one of the two byte orders.
pub open spec fn is_image_of(bytes: Seq<u8>, words: Seq<u32>) -> bool {
    ||| bytes == words_bytes(words, ByteOrder::LittleEndian)
    ||| bytes == words_bytes(words, ByteOrder::BigEndian)
}

/// The memory image of `words`, by `bytemuck::cast_slice` from `u32` to `u8`.
///
/// Trusted: the cast reinterprets the memory of the slice, four bytes for
/// each word and in the order of the words, with each word's bytes in the
/// byte order of the machine. It cannot fail towards `u8`, whose size is one
/// and whose alignment is the least.
#[verifier::external_body]
pub(crate) fn cast_words(words: &[u32]) -> (bytes: Vec<u8>)
    ensures
        is_image_of(bytes@, words@),
{
    bytemuck::cast_slice::<u32, u8>(words).to_vec()
}

} // verus!
