//! Splitting 16-bit words into bytes and joining them back, plus the
//! sign-extension used by relative jumps.

use vstd::prelude::*;

verus! {

/// High byte of a 16-bit word.
pub open spec fn spec_hi(v: u16) -> u8 {
    (v >> 8) as u8
}

/// Low byte of a 16-bit word.
pub open spec fn spec_lo(v: u16) -> u8 {
    (v & 0xff) as u8
}

/// The 16-bit word with the given high and low bytes.
pub open spec fn word16(hi: u8, lo: u8) -> u16 {
    ((hi as u16) << 8) | (lo as u16)
}

/// A word recomposed from its split bytes is the original word.
pub proof fn lemma_word_roundtrip(v: u16)
    by (bit_vector)
    ensures
        word16(spec_hi(v), spec_lo(v)) == v,
{
}

/// Splitting a composed word yields the bytes it was composed from.
pub proof fn lemma_pair_roundtrip(hi: u8, lo: u8)
    by (bit_vector)
    ensures
        spec_hi(word16(hi, lo)) == hi,
        spec_lo(word16(hi, lo)) == lo,
{
}

/// The 16-bit value of an 8-bit offset read as a signed byte, as relative
/// jumps interpret their operand.
pub open spec fn spec_sign_ext(b: u8) -> u16 {
    if b < 128 {
        b as u16
    } else {
        (b + 0xFF00) as u16
    }
}

/// Sign-extend an 8-bit jump offset to the 16-bit value that is added,
/// wrapping, to the program counter.
pub fn sign_ext(b: u8) -> (r: u16)
    ensures
        r == spec_sign_ext(b),
{
    if b < 128 {
        b as u16
    } else {
        b as u16 + 0xFF00
    }
}

} // verus!
