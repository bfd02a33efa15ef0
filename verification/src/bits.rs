//! Facts about bytes seen as bit patterns, shared by the register file and
//! the arithmetic unit.

use vstd::prelude::*;

verus! {

/// The four high bits of a byte, one by one, add up to the byte masked
/// with `0xF0`.
pub proof fn lemma_high_nibble(v: u8)
    by (bit_vector)
    ensures
        (if v & 0x80 != 0 { 0x80u8 } else { 0u8 }) + (if v & 0x40 != 0 { 0x40u8 } else { 0u8 })
            + (if v & 0x20 != 0 { 0x20u8 } else { 0u8 }) + (if v & 0x10 != 0 { 0x10u8 } else { 0u8 })
            == v & 0xF0,
{
}

/// Masking the low nibble of a word away is masking the low nibble of
/// its low byte away.
pub proof fn lemma_word_bytes(w: u16)
    by (bit_vector)
    ensures
        w & 0xFFF0 == (w / 256) * 256 + ((w % 256) & 0xF0),
{
}

} // verus!
