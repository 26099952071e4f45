//! Bit ranges of machine words.
//!
//! The ranges are read and written by the `bit_field` crate. This module states
//! what those calls return, as shifts and masks, and the rest of the library is
//! proved against these statements.
use bit_field::BitField;
use vstd::prelude::*;

verus! {

/// Bits `lo..hi` of a 64-bit word, moved down to bit 0.
pub open spec fn bits_of_u64(word: u64, lo: usize, hi: usize) -> u64
    recommends
        lo < hi <= 64,
{
    ((word << ((64 - hi) as u64)) >> ((64 - hi) as u64)) >> (lo as u64)
}

/// The word with bits `lo..hi` replaced by `value`, all other bits kept.
pub open spec fn with_bits_u64(word: u64, lo: usize, hi: usize, value: u64) -> u64
    recommends
        lo < hi <= 64,
{
    (word & !((((!0u64) << ((64 - hi) as u64)) >> ((64 - hi) as u64)) >> (lo as u64) << (lo as u64)))
        | (value << (lo as u64))
}

/// Whether `value` has no bit set at or above position `width`.
pub open spec fn fits_u64(value: u64, width: usize) -> bool
    recommends
        0 < width <= 64,
{
    (value << ((64 - width) as u64)) >> ((64 - width) as u64) == value
}

/// Bits `lo..hi` of a 16-bit word, moved down to bit 0.
pub open spec fn bits_of_u16(word: u16, lo: usize, hi: usize) -> u16
    recommends
        lo < hi <= 16,
{
    ((word << ((16 - hi) as u16)) >> ((16 - hi) as u16)) >> (lo as u16)
}

/// The word with bits `lo..hi` replaced by `value`, all other bits kept.
pub open spec fn with_bits_u16(word: u16, lo: usize, hi: usize, value: u16) -> u16
    recommends
        lo < hi <= 16,
{
    (word & !((((!0u16) << ((16 - hi) as u16)) >> ((16 - hi) as u16)) >> (lo as u16) << (lo as u16)))
        | (value << (lo as u16))
}

/// Whether `value` has no bit set at or above position `width`.
pub open spec fn fits_u16(value: u16, width: usize) -> bool
    recommends
        0 < width <= 16,
{
    (value << ((16 - width) as u16)) >> ((16 - width) as u16) == value
}

/// Calls `BitField::get_bits` of `bit_field` on a `u64` with the range
/// `lo..hi`. For a non-empty range inside the word the crate shifts the bits
/// above `hi` out at the top, shifts back, and then shifts the bits below `lo`
/// out at the bottom; the contract states that result. Ranges that the crate
/// rejects are left out.
#[verifier::external_body]
pub(crate) fn get_bits_u64(word: u64, lo: usize, hi: usize) -> (out: u64)
    requires
        lo < hi <= 64,
    ensures
        out == bits_of_u64(word, lo, hi),
{
    word.get_bits(lo..hi)
}

/// Calls `BitField::set_bits` of `bit_field` on a `u64` with the range
/// `lo..hi`. For a non-empty range inside the word and a value that fits into
/// it, the crate clears the range and ors the value in, shifted up to `lo`; the
/// contract states that result. Ranges and values that the crate rejects are
/// left out.
#[verifier::external_body]
pub(crate) fn set_bits_u64(word: &mut u64, lo: usize, hi: usize, value: u64)
    requires
        lo < hi <= 64,
        fits_u64(value, (hi - lo) as usize),
    ensures
        *final(word) == with_bits_u64(*old(word), lo, hi, value),
{
    word.set_bits(lo..hi, value);
}

/// Calls `BitField::get_bits` of `bit_field` on a `u16` with the range
/// `lo..hi`; the contract is that of the 64-bit form at width 16.
#[verifier::external_body]
pub(crate) fn get_bits_u16(word: u16, lo: usize, hi: usize) -> (out: u16)
    requires
        lo < hi <= 16,
    ensures
        out == bits_of_u16(word, lo, hi),
{
    word.get_bits(lo..hi)
}

/// Calls `BitField::set_bits` of `bit_field` on a `u16` with the range
/// `lo..hi`; the contract is that of the 64-bit form at width 16.
#[verifier::external_body]
pub(crate) fn set_bits_u16(word: &mut u16, lo: usize, hi: usize, value: u16)
    requires
        lo < hi <= 16,
        fits_u16(value, (hi - lo) as usize),
    ensures
        *final(word) == with_bits_u16(*old(word), lo, hi, value),
{
    word.set_bits(lo..hi, value);
}

} // verus!
