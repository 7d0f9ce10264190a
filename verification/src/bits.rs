//! Bit-level operations on 32-bit register words.

use vstd::prelude::*;

verus! {

/// Whether at least one of the bits selected by `mask` is set in `word`.
pub open spec fn is_set(word: u32, mask: u32) -> bool {
    word & mask != 0
}

/// `word` with the bits selected by `mask` taken from `value` and all others kept.
pub open spec fn replaced(word: u32, mask: u32, value: u32) -> u32 {
    (word & !mask) | (value & mask)
}

/// The least significant byte of `word`.
pub open spec fn low_byte(word: u32) -> u8 {
    (word & 0xff) as u8
}

/// The word whose bytes, least significant first, are `b0`, `b1`, `b2`, `b3`.
pub open spec fn le_word(b0: u8, b1: u8, b2: u8, b3: u8) -> u32 {
    (b0 + b1 * 0x100 + b2 * 0x1_0000 + b3 * 0x100_0000) as u32
}

/// Byte number `index` of `word`, counting from the least significant one.
pub open spec fn byte_at(word: u32, index: u32) -> u8 {
    ((word >> (8 * index)) & 0xff) as u8
}

/// Tests whether any bit of `mask` is set in `word`.
pub fn has_bit(word: u32, mask: u32) -> (set: bool)
    ensures
        set == is_set(word, mask),
{
    word & mask != 0
}

/// Replaces the bits of `word` under `mask` by those of `value`.
pub fn replace(word: u32, mask: u32, value: u32) -> (result: u32)
    ensures
        result == replaced(word, mask, value),
        result & mask == value & mask,
        result & !mask == word & !mask,
{
    proof {
        lemma_replaced_parts(word, mask, value);
    }
    (word & !mask) | (value & mask)
}

/// Truncates `word` to its least significant byte.
pub fn lowest_byte(word: u32) -> (byte: u8)
    ensures
        byte == low_byte(word),
{
    let low: u32 = word & 0xff;
    assert(low < 0x100) by (bit_vector)
        requires
            low == word & 0xff,
    ;
    low as u8
}

/// Packs four bytes, least significant first, into one word.
pub fn pack(b0: u8, b1: u8, b2: u8, b3: u8) -> (word: u32)
    ensures
        word == le_word(b0, b1, b2, b3),
{
    let word: u32 = (b0 as u32) | ((b1 as u32) << 8) | ((b2 as u32) << 16) | ((b3 as u32) << 24);
    assert(word == b0 + b1 * 0x100 + b2 * 0x1_0000 + b3 * 0x100_0000) by (bit_vector)
        requires
            word == (b0 as u32) | ((b1 as u32) << 8) | ((b2 as u32) << 16) | ((b3 as u32) << 24),
    ;
    word
}

/// Replacing bits changes exactly the bits under the mask.
pub proof fn lemma_replaced_parts(word: u32, mask: u32, value: u32)
    ensures
        replaced(word, mask, value) & mask == value & mask,
        replaced(word, mask, value) & !mask == word & !mask,
{
    assert(((word & !mask) | (value & mask)) & mask == value & mask) by (bit_vector);
    assert(((word & !mask) | (value & mask)) & !mask == word & !mask) by (bit_vector);
}

/// Each byte of a packed word is the byte that was packed at that place.
pub proof fn lemma_pack_bytes(b0: u8, b1: u8, b2: u8, b3: u8)
    ensures
        byte_at(le_word(b0, b1, b2, b3), 0) == b0,
        byte_at(le_word(b0, b1, b2, b3), 1) == b1,
        byte_at(le_word(b0, b1, b2, b3), 2) == b2,
        byte_at(le_word(b0, b1, b2, b3), 3) == b3,
        low_byte(le_word(b0, b1, b2, b3)) == b0,
{
    let word: u32 = le_word(b0, b1, b2, b3);
    assert(word == b0 + b1 * 0x100 + b2 * 0x1_0000 + b3 * 0x100_0000);
    assert(((word >> 0u32) & 0xff) == b0 && ((word >> 8u32) & 0xff) == b1 && ((word >> 16u32)
        & 0xff) == b2 && ((word >> 24u32) & 0xff) == b3 && (word & 0xff) == b0) by (bit_vector)
        requires
            word == b0 + b1 * 0x100 + b2 * 0x1_0000 + b3 * 0x100_0000,
    ;
}

/// A word is what its four bytes pack to: packing and taking the bytes apart undo
/// each other.
pub proof fn lemma_bytes_pack(word: u32)
    ensures
        le_word(byte_at(word, 0), byte_at(word, 1), byte_at(word, 2), byte_at(word, 3)) == word,
{
    let b0: u8 = byte_at(word, 0);
    let b1: u8 = byte_at(word, 1);
    let b2: u8 = byte_at(word, 2);
    let b3: u8 = byte_at(word, 3);
    assert(b0 + b1 * 0x100 + b2 * 0x1_0000 + b3 * 0x100_0000 == word) by (bit_vector)
        requires
            b0 == ((word >> 0u32) & 0xff) as u8,
            b1 == ((word >> 8u32) & 0xff) as u8,
            b2 == ((word >> 16u32) & 0xff) as u8,
            b3 == ((word >> 24u32) & 0xff) as u8,
    ;
}

} // verus!
