//! Bit ranges of a 64-bit word, read and written through the `bit_field` crate.

use bit_field::BitField;
use vstd::prelude::*;

verus! {

/// The bits `start..end` of `value`, moved down so that bit `start` becomes bit 0.
pub open spec fn bit_range(value: u64, start: u64, end: u64) -> u64 {
    ((value << ((64 - end) as u64)) >> ((64 - end) as u64)) >> start
}

/// Whether `bits` has no bit set at or above position `end - start`.
pub open spec fn fits_bit_range(bits: u64, start: u64, end: u64) -> bool {
    (bits << ((64 - (end - start)) as u64)) >> ((64 - (end - start)) as u64) == bits
}

/// The word with a zero in each of the bits `start..end` and a one elsewhere.
pub open spec fn bit_range_hole(start: u64, end: u64) -> u64 {
    !((((!0u64) << ((64 - end) as u64)) >> ((64 - end) as u64)) >> start << start)
}

/// `value` with its bits `start..end` replaced by the low bits of `bits`.
pub open spec fn with_bit_range(value: u64, start: u64, end: u64, bits: u64) -> u64 {
    (value & bit_range_hole(start, end)) | (bits << start)
}

/// `value` with bit `bit` made equal to `on`.
pub open spec fn with_bit(value: u64, bit: u64, on: bool) -> u64 {
    if on {
        value | (1u64 << bit)
    } else {
        value & !(1u64 << bit)
    }
}

/// `BitField::get_bits` of `bit_field` on a `u64`, for a non-empty range inside
/// the word: the result is the word shifted up until bit `end` falls off, back
/// down, and then down by `start`.
#[verifier::external_body]
pub(crate) fn get_bits(value: u64, start: usize, end: usize) -> (r: u64)
    requires
        start < end <= 64,
    ensures
        r == bit_range(value, start as u64, end as u64),
{
    value.get_bits(start..end)
}

/// `BitField::set_bits` of `bit_field` on a `u64`, for a non-empty range inside
/// the word and a value that fits into it: the bits of the range are cleared
/// and the value, shifted up by `start`, is or-ed in.
#[verifier::external_body]
pub(crate) fn set_bits(value: u64, start: usize, end: usize, bits: u64) -> (r: u64)
    requires
        start < end <= 64,
        fits_bit_range(bits, start as u64, end as u64),
    ensures
        r == with_bit_range(value, start as u64, end as u64, bits),
{
    let mut word = value;
    word.set_bits(start..end, bits);
    word
}

/// `BitField::set_bit` of `bit_field` on a `u64`, for a position inside the
/// word: the bit is set or cleared and the others stay.
#[verifier::external_body]
pub(crate) fn set_bit(value: u64, bit: usize, on: bool) -> (r: u64)
    requires
        bit < 64,
    ensures
        r == with_bit(value, bit as u64, on),
{
    let mut word = value;
    word.set_bit(bit, on);
    word
}

} // verus!
