//! Numbers as the boundary layer hands them over: IEEE-754 binary64 values,
//! held as their bit pattern so that every decision on them is exact.

use vstd::prelude::*;

verus! {

/// 2^63: weight of the sign bit.
pub const SIGN_WEIGHT: u64 = 0x8000_0000_0000_0000;

/// 2^52: weight of the lowest exponent bit.
pub const EXPONENT_WEIGHT: u64 = 0x0010_0000_0000_0000;

/// Biased exponent shared by the infinities and the NaNs.
pub const EXPONENT_ALL_ONES: u64 = 0x7ff;

/// Sign bit of a binary64 pattern (1 for negative).
pub open spec fn sign_of(bits: u64) -> int {
    bits as int / SIGN_WEIGHT as int
}

/// Biased exponent field of a binary64 pattern.
pub open spec fn exponent_of(bits: u64) -> int {
    (bits as int / EXPONENT_WEIGHT as int) % 2048
}

/// The pattern without its sign bit; zero exactly for +0 and -0.
pub open spec fn magnitude_of(bits: u64) -> int {
    bits as int % SIGN_WEIGHT as int
}

/// Neither an infinity nor a NaN.
pub open spec fn finite(bits: u64) -> bool {
    exponent_of(bits) != EXPONENT_ALL_ONES
}

/// The value is +0 or -0.
pub open spec fn zero(bits: u64) -> bool {
    magnitude_of(bits) == 0
}

/// A finite value strictly greater than zero.
pub open spec fn positive(bits: u64) -> bool {
    finite(bits) && sign_of(bits) == 0 && !zero(bits)
}

/// A finite value that compares `>= 0` (this includes -0).
pub open spec fn nonnegative(bits: u64) -> bool {
    finite(bits) && (sign_of(bits) == 0 || zero(bits))
}

/// A binary64 floating-point value, stored as its bit pattern.
#[derive(Clone, Copy, Debug, PartialEq, Eq, Structural)]
pub struct Binary64 {
    pub bits: u64,
}

impl Binary64 {
    /// Wraps a bit pattern.
    pub fn from_bits(bits: u64) -> (r: Binary64)
        ensures
            r.bits == bits,
    {
        Binary64 { bits }
    }

    /// The bit pattern.
    pub fn to_bits(self) -> (r: u64)
        ensures
            r == self.bits,
    {
        self.bits
    }

    /// Neither infinite nor NaN.
    pub fn is_finite(self) -> (r: bool)
        ensures
            r == finite(self.bits),
    {
        (self.bits / EXPONENT_WEIGHT) % 2048 != EXPONENT_ALL_ONES
    }

    /// Equal to +0 or -0.
    pub fn is_zero(self) -> (r: bool)
        ensures
            r == zero(self.bits),
    {
        self.bits % SIGN_WEIGHT == 0
    }

    /// Finite and strictly greater than zero.
    pub fn is_positive(self) -> (r: bool)
        ensures
            r == positive(self.bits),
    {
        self.is_finite() && self.bits / SIGN_WEIGHT == 0 && !self.is_zero()
    }

    /// Finite and not less than zero.
    pub fn is_nonnegative(self) -> (r: bool)
        ensures
            r == nonnegative(self.bits),
    {
        self.is_finite() && (self.bits / SIGN_WEIGHT == 0 || self.is_zero())
    }
}

} // verus!
