//! Single-precision numbers as bit patterns, and the order among them.

use vstd::prelude::*;

verus! {

/// The bit that holds the sign of a single-precision number.
pub const SIGN_BIT: u32 = 0x8000_0000;

/// The pattern of positive infinity: every exponent bit set, no fraction bit.
pub const INFINITY_BITS: u32 = 0x7f80_0000;

/// The pattern of the number one.
pub const ONE_BITS: u32 = 0x3f80_0000;

/// A single-precision number in the binary interchange format, held as its
/// 32-bit pattern: one sign bit, eight exponent bits, twenty-three fraction
/// bits. Two scalars are `==` when their patterns agree, which is finer than
/// equality of numbers: the two zeros differ, and so do the not-a-number
/// patterns. Use [`Scalar::same_number`] for numeric equality.
#[derive(Clone, Copy, Debug, PartialEq, Eq, Structural)]
pub struct Scalar {
    pub bits: u32,
}

impl Scalar {
    /// The pattern without its sign bit.
    pub open spec fn magnitude(self) -> int {
        self.bits as int % 0x8000_0000
    }

    /// The sign bit is set.
    pub open spec fn sign_set(self) -> bool {
        self.bits >= 0x8000_0000
    }

    /// The pattern is not a number: all exponent bits set and a fraction bit too.
    pub open spec fn is_nan(self) -> bool {
        self.magnitude() > 0x7f80_0000
    }

    /// The pattern is a number other than an infinity.
    pub open spec fn is_finite(self) -> bool {
        self.magnitude() < 0x7f80_0000
    }

    /// An integer that orders numbers as the numbers themselves are ordered:
    /// for patterns `a` and `b` that are numbers, `a` is less than `b` exactly
    /// when `a.key() < b.key()`, and they are equal as numbers exactly when the
    /// keys are equal. Both zeros have key 0.
    pub open spec fn key(self) -> int {
        if self.sign_set() {
            -self.magnitude()
        } else {
            self.magnitude()
        }
    }

    /// Equality as numbers: neither is not-a-number and the keys agree.
    pub open spec fn same_number(self, other: Scalar) -> bool {
        !self.is_nan() && !other.is_nan() && self.key() == other.key()
    }

    /// A finite number greater than zero.
    pub open spec fn is_positive_finite(self) -> bool {
        0 < self.bits < 0x7f80_0000
    }

    pub fn from_bits(bits: u32) -> (s: Scalar)
        ensures
            s.bits == bits,
    {
        Scalar { bits }
    }

    pub fn to_bits(self) -> (bits: u32)
        ensures
            bits == self.bits,
    {
        self.bits
    }

    /// The number zero, with a clear sign bit.
    pub fn zero() -> (s: Scalar)
        ensures
            s.bits == 0,
            s.key() == 0,
            s.is_finite(),
    {
        Scalar { bits: 0 }
    }

    /// The number one.
    pub fn one() -> (s: Scalar)
        ensures
            s.bits == ONE_BITS,
            s.is_positive_finite(),
    {
        Scalar { bits: ONE_BITS }
    }

    fn exec_magnitude(self) -> (m: u32)
        ensures
            m == self.magnitude(),
            m < 0x8000_0000,
    {
        if self.bits >= SIGN_BIT {
            self.bits - SIGN_BIT
        } else {
            self.bits
        }
    }

    pub fn nan(self) -> (b: bool)
        ensures
            b == self.is_nan(),
    {
        self.exec_magnitude() > INFINITY_BITS
    }

    pub fn finite(self) -> (b: bool)
        ensures
            b == self.is_finite(),
    {
        self.exec_magnitude() < INFINITY_BITS
    }

    pub fn positive_finite(self) -> (b: bool)
        ensures
            b == self.is_positive_finite(),
    {
        0 < self.bits && self.bits < INFINITY_BITS
    }

    pub fn order_key(self) -> (k: i64)
        ensures
            k == self.key(),
            -0x8000_0000 < k < 0x8000_0000,
    {
        let m: u32 = self.exec_magnitude();
        if self.bits >= SIGN_BIT {
            -(m as i64)
        } else {
            m as i64
        }
    }

    pub fn equals_number(self, other: Scalar) -> (b: bool)
        ensures
            b == self.same_number(other),
    {
        !self.nan() && !other.nan() && self.order_key() == other.order_key()
    }
}

} // verus!
