//! Single-precision numbers carried across the boundary by their bit pattern.
//!
//! The boundary never computes with these numbers. It hands them through and,
//! for the optional ranges of the configuration record, asks one question:
//! whether a number is below zero.

use vstd::prelude::*;

verus! {

/// An IEEE-754 binary32 number, held as its 32 bits.
#[derive(Clone, Copy, Debug, PartialEq, Eq, Structural)]
pub struct Float32 {
    pub bits: u32,
}

/// Bits of `-1.0`.
pub const NEGATIVE_ONE_BITS: u32 = 0xBF80_0000;

impl Float32 {
    /// The sign bit: 1 for numbers written with a minus sign.
    pub open spec fn sign(self) -> u32 {
        self.bits >> 31
    }

    /// The eight exponent bits.
    pub open spec fn exponent(self) -> u32 {
        (self.bits >> 23) & 0xFF
    }

    /// The twenty-three fraction bits.
    pub open spec fn fraction(self) -> u32 {
        self.bits & 0x7F_FFFF
    }

    /// Not a number: all exponent bits set and a fraction other than zero.
    pub open spec fn is_nan(self) -> bool {
        self.exponent() == 0xFF && self.fraction() != 0
    }

    /// Positive or negative zero.
    pub open spec fn is_zero(self) -> bool {
        self.exponent() == 0 && self.fraction() == 0
    }

    /// The number compares as less than zero: it carries a minus sign and is
    /// neither a zero nor a NaN.
    pub open spec fn below_zero(self) -> bool {
        self.sign() == 1 && !self.is_nan() && !self.is_zero()
    }

    /// Wraps a bit pattern.
    pub fn from_bits(bits: u32) -> (x: Float32)
        ensures
            x.bits == bits,
    {
        Float32 { bits }
    }

    /// The bit pattern.
    pub fn to_bits(self) -> (bits: u32)
        ensures
            bits == self.bits,
    {
        self.bits
    }

    /// Whether the number compares as less than zero.
    pub fn is_below_zero(self) -> (below: bool)
        ensures
            below == self.below_zero(),
    {
        let bits: u32 = self.bits;
        assert((0x8000_0000u32 < bits && bits <= 0xFF80_0000u32) <==> ((bits >> 31) == 1 && !(((bits
            >> 23) & 0xFF) == 0xFF && (bits & 0x7F_FFFF) != 0) && !(((bits >> 23) & 0xFF) == 0 && (
        bits & 0x7F_FFFF) == 0))) by (bit_vector);
        0x8000_0000 < bits && bits <= 0xFF80_0000
    }

    /// `-1.0`, the canonical mark of an unset bound.
    pub fn negative_one() -> (x: Float32)
        ensures
            x.bits == NEGATIVE_ONE_BITS,
            x.below_zero(),
    {
        let x = Float32 { bits: NEGATIVE_ONE_BITS };
        assert(x.below_zero()) by {
            assert((0xBF80_0000u32 >> 31) == 1 && ((0xBF80_0000u32 >> 23) & 0xFF) == 0x7F && (
            0xBF80_0000u32 & 0x7F_FFFF) == 0) by (bit_vector);
        }
        x
    }
}

} // verus!
