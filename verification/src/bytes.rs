//! Memory images of 16- and 32-bit values, as they are handed to the graphics
//! device.

use vstd::endian::Endian;
use vstd::prelude::*;

verus! {

/// Byte number `k` of `value`, counted from the least significant one.
pub open spec fn byte_of(value: int, k: int) -> u8 {
    if k == 0 {
        (value % 256) as u8
    } else if k == 1 {
        ((value / 0x100) % 256) as u8
    } else if k == 2 {
        ((value / 0x1_0000) % 256) as u8
    } else {
        ((value / 0x100_0000) % 256) as u8
    }
}

/// The bytes of `words`, four per word, each word laid out in the given order.
pub open spec fn word_bytes(order: Endian, words: Seq<u32>) -> Seq<u8> {
    Seq::new(
        4 * words.len(),
        |j: int|
            byte_of(
                words[j / 4] as int,
                match order {
                    Endian::Little => j % 4,
                    Endian::Big => 3 - j % 4,
                },
            ),
    )
}

/// The bytes of `halves`, two per value, each value laid out in the given order.
pub open spec fn half_bytes(order: Endian, halves: Seq<u16>) -> Seq<u8> {
    Seq::new(
        2 * halves.len(),
        |j: int|
            byte_of(
                halves[j / 2] as int,
                match order {
                    Endian::Little => j % 2,
                    Endian::Big => 1 - j % 2,
                },
            ),
    )
}

/// `bytes` is what `words` look like in this machine's memory, whichever byte
/// order the machine has.
pub open spec fn is_word_image(bytes: Seq<u8>, words: Seq<u32>) -> bool {
    bytes == word_bytes(Endian::Little, words) || bytes == word_bytes(Endian::Big, words)
}

/// `bytes` is what `halves` look like in this machine's memory, whichever byte
/// order the machine has.
pub open spec fn is_half_image(bytes: Seq<u8>, halves: Seq<u16>) -> bool {
    bytes == half_bytes(Endian::Little, halves) || bytes == half_bytes(Endian::Big, halves)
}

/// Calls `bytemuck::cast_slice` to read a slice of 32-bit words as bytes.
///
/// Not proved: that the cast yields the words' memory, four bytes per word in
/// the machine's byte order. For these element types the cast cannot fail.
#[verifier::external_body]
pub(crate) fn cast_words(words: &Vec<u32>) -> (bytes: Vec<u8>)
    ensures
        is_word_image(bytes@, words@),
{
    bytemuck::cast_slice::<u32, u8>(words.as_slice()).to_vec()
}

/// Calls `bytemuck::cast_slice` to read a slice of 16-bit values as bytes.
///
/// Not proved: that the cast yields the values' memory, two bytes per value in
/// the machine's byte order. For these element types the cast cannot fail.
#[verifier::external_body]
pub(crate) fn cast_halves(halves: &Vec<u16>) -> (bytes: Vec<u8>)
    ensures
        is_half_image(bytes@, halves@),
{
    bytemuck::cast_slice::<u16, u8>(halves.as_slice()).to_vec()
}

} // verus!
