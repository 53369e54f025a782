//! Word and byte arithmetic used throughout the contracts: composing and
//! splitting 16-bit words, wrapping 8/16-bit arithmetic, sign extension,
//! and single-bit reads.

use vstd::prelude::*;

verus! {

/// High byte of a 16-bit word.
pub open spec fn hi8(w: u16) -> u8 {
    (w >> 8) as u8
}

/// Low byte of a 16-bit word.
pub open spec fn lo8(w: u16) -> u8 {
    (w & 0xFF) as u8
}

/// The 16-bit word with the given high and low bytes.
pub open spec fn word16(hi: u8, lo: u8) -> u16 {
    ((hi as u16) << 8) | (lo as u16)
}

/// 16-bit addition, wrapping around at 0x10000.
pub open spec fn wadd16(x: u16, y: u16) -> u16 {
    if x + y > 0xFFFF {
        (x + y - 0x10000) as u16
    } else {
        (x + y) as u16
    }
}

/// 16-bit subtraction, wrapping around at 0.
pub open spec fn wsub16(x: u16, y: u16) -> u16 {
    if x - y < 0 {
        (x - y + 0x10000) as u16
    } else {
        (x - y) as u16
    }
}

/// 8-bit addition, wrapping around at 0x100.
pub open spec fn wadd8(x: u8, y: u8) -> u8 {
    if x + y > 0xFF {
        (x + y - 0x100) as u8
    } else {
        (x + y) as u8
    }
}

/// 8-bit subtraction, wrapping around at 0.
pub open spec fn wsub8(x: u8, y: u8) -> u8 {
    if x - y < 0 {
        (x - y + 0x100) as u8
    } else {
        (x - y) as u8
    }
}

/// A byte sign-extended to 16 bits.
pub open spec fn sext16(v: u8) -> u16 {
    (v as i8) as u16
}

/// Bit `i` of a byte, as a boolean.
pub open spec fn bit_get(v: u8, i: u8) -> bool
    recommends
        i < 8,
{
    (v >> i) & 1 == 1
}

/// Masking a byte to its low nibble bounds it below 0x10.
pub broadcast proof fn lemma_u8_low_nibble(v: u8)
    ensures
        #[trigger] (v & 0xF) < 0x10,
{
    assert(v & 0xF < 0x10) by (bit_vector);
}

/// Masking a word to its low nibble bounds it below 0x10.
pub broadcast proof fn lemma_u16_mask4(v: u16)
    ensures
        #[trigger] (v & 0xF) < 0x10,
{
    assert(v & 0xF < 0x10) by (bit_vector);
}

/// Masking a word to its low byte bounds it below 0x100.
pub broadcast proof fn lemma_u16_mask8(v: u16)
    ensures
        #[trigger] (v & 0xFF) < 0x100,
{
    assert(v & 0xFF < 0x100) by (bit_vector);
}

/// Masking a word to its low twelve bits bounds it below 0x1000.
pub broadcast proof fn lemma_u16_mask12(v: u16)
    ensures
        #[trigger] (v & 0xFFF) < 0x1000,
{
    assert(v & 0xFFF < 0x1000) by (bit_vector);
}

/// A shift by zero is the identity.
pub broadcast proof fn lemma_u8_shr0(v: u8)
    ensures
        #[trigger] (v >> 0u8) == v,
{
    assert(v >> 0u8 == v) by (bit_vector);
}

/// The mask bounds used by the half-carry and carry computations.
pub broadcast group group_mask_bounds {
    lemma_u8_low_nibble,
    lemma_u16_mask4,
    lemma_u16_mask8,
    lemma_u16_mask12,
    lemma_u8_shr0,
}

/// Splitting a word into its bytes and recomposing them gives the word back.
pub proof fn lemma_word_roundtrip(w: u16)
    ensures
        word16(hi8(w), lo8(w)) == w,
{
    assert(((((w >> 8) as u8) as u16) << 8) | (((w & 0xFF) as u8) as u16) == w) by (bit_vector);
}

} // verus!
