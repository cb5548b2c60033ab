//! Single-precision parameters carried as raw IEEE-754 bit patterns.
//!
//! The host side never computes with the scales, epsilons and frequencies it
//! hands to a kernel: it only decides whether a value is admissible. Those
//! decisions are decisions about bit patterns, and are made here on the bits.
use vstd::prelude::*;

verus! {

/// Bits of positive infinity: every pattern above it, sign bit aside, is a NaN.
pub const F32_INFINITY_BITS: u32 = 0x7f80_0000;

/// Bits of negative zero, the smallest pattern with the sign bit set.
pub const F32_NEGATIVE_ZERO_BITS: u32 = 0x8000_0000;

/// Bits of `1.0`.
pub const F32_ONE_BITS: u32 = 0x3f80_0000;

/// Bits of `1e-6`.
pub const F32_MICRO_BITS: u32 = 0x3586_37bd;

/// A single-precision value, by its bit pattern.
#[derive(Clone, Copy, Debug, PartialEq, Eq, Structural)]
pub struct F32Bits {
    pub bits: u32,
}

impl F32Bits {
    /// The value is neither an infinity nor a NaN: its exponent field is not all ones.
    pub open spec fn finite(self) -> bool {
        self.bits % F32_NEGATIVE_ZERO_BITS < F32_INFINITY_BITS
    }

    /// The value is strictly greater than zero: the sign bit is clear, the
    /// magnitude is not zero, and the value is not a NaN.
    pub open spec fn positive(self) -> bool {
        0 < self.bits <= F32_INFINITY_BITS
    }

    /// The value compares greater than or equal to zero: a NaN does not, and
    /// negative zero does.
    pub open spec fn at_least_zero(self) -> bool {
        self.bits <= F32_INFINITY_BITS || self.bits == F32_NEGATIVE_ZERO_BITS
    }

    /// Admissible as a scale: finite and strictly positive.
    pub open spec fn usable(self) -> bool {
        self.finite() && self.positive()
    }

    /// Takes a bit pattern as it is.
    pub fn from_bits(bits: u32) -> (value: Self)
        ensures
            value == (F32Bits { bits }),
    {
        F32Bits { bits }
    }

    /// Whether the value is finite and strictly positive.
    pub fn is_finite_positive(self) -> (usable: bool)
        ensures
            usable == self.usable(),
    {
        self.bits % F32_NEGATIVE_ZERO_BITS < F32_INFINITY_BITS && 0 < self.bits && self.bits
            <= F32_INFINITY_BITS
    }

    /// Whether the value compares greater than or equal to zero.
    pub fn is_at_least_zero(self) -> (r: bool)
        ensures
            r == self.at_least_zero(),
    {
        self.bits <= F32_INFINITY_BITS || self.bits == F32_NEGATIVE_ZERO_BITS
    }
}

/// By sign, and by the magnitude that the other bits make up: a value is
/// finite below the magnitude of infinity and no number above it; it is usable
/// as a scale where it is finite, not zero and not negative; and it is at least
/// zero where it is a number that is zero or not negative.
pub proof fn law_signs_and_magnitudes_decide(value: F32Bits)
    ensures
        ({
            let negative = value.bits >= 0x8000_0000;
            let magnitude = if negative {
                value.bits - 0x8000_0000
            } else {
                value.bits as int
            };
            &&& value.finite() <==> magnitude < 0x7f80_0000
            &&& value.usable() <==> !negative && 0 < magnitude < 0x7f80_0000
            &&& value.positive() <==> !negative && 0 < magnitude <= 0x7f80_0000
            &&& value.at_least_zero() <==> magnitude == 0 || (!negative && magnitude <= 0x7f80_0000)
        }),
{
}

} // verus!
