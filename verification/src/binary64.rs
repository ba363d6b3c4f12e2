//! Reading IEEE 754 binary64 bit patterns: one sign bit, eleven exponent bits,
//! fifty-two fraction bits, from the top down.

use vstd::prelude::*;

verus! {

/// The bit pattern of positive zero.
pub const POSITIVE_ZERO: u64 = 0;

/// The bit pattern of the canonical quiet not-a-number.
pub const NOT_A_NUMBER: u64 = 0x7ff8_0000_0000_0000;

/// The sign field of a pattern: its topmost bit.
pub open spec fn sign(bits: u64) -> nat {
    (bits as nat) / 0x8000_0000_0000_0000
}

/// The biased exponent field: the eleven bits below the sign.
pub open spec fn exponent(bits: u64) -> nat {
    ((bits as nat) / 0x10_0000_0000_0000) % 0x800
}

/// The fraction field: the low fifty-two bits.
pub open spec fn fraction(bits: u64) -> nat {
    (bits as nat) % 0x10_0000_0000_0000
}

/// The pattern stands for not-a-number: every exponent bit set, fraction not zero.
pub open spec fn denotes_nan(bits: u64) -> bool {
    exponent(bits) == 0x7ff && fraction(bits) != 0
}

/// The pattern stands for zero, of either sign.
pub open spec fn denotes_zero(bits: u64) -> bool {
    exponent(bits) == 0 && fraction(bits) == 0
}

/// The pattern stands for a number that compares below zero: the sign is set and
/// the pattern is neither a zero nor not-a-number. Negative infinity is included.
pub open spec fn denotes_negative(bits: u64) -> bool {
    sign(bits) == 1 && !denotes_zero(bits) && !denotes_nan(bits)
}

/// Tells whether a pattern is not-a-number.
pub fn is_nan(bits: u64) -> (r: bool)
    ensures
        r == denotes_nan(bits),
{
    let magnitude: u64 = bits % 0x8000_0000_0000_0000;
    magnitude > 0x7ff0_0000_0000_0000
}

/// Tells whether a pattern is positive or negative zero.
pub fn is_zero(bits: u64) -> (r: bool)
    ensures
        r == denotes_zero(bits),
{
    bits == 0 || bits == 0x8000_0000_0000_0000
}

/// Tells whether a pattern compares below zero.
pub fn is_negative(bits: u64) -> (r: bool)
    ensures
        r == denotes_negative(bits),
{
    0x8000_0000_0000_0000 < bits && bits <= 0xfff0_0000_0000_0000
}

} // verus!
