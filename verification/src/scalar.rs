//! Single-precision numbers as bit patterns.
//!
//! The layout is that of IEEE 754 binary32: one sign bit, eight exponent bits,
//! twenty-three fraction bits. Order and sign are functions of the pattern and
//! are modelled here with plain integers; no rounding operation is defined.

use vstd::prelude::*;

verus! {

/// The weight of the sign bit; a pattern at or above it is negative.
pub const SIGN_BIT: u32 = 0x8000_0000;

/// The pattern of positive infinity; a larger magnitude is not a number.
pub const INFINITY: u32 = 0x7f80_0000;

/// The pattern of `0.5`.
pub const HALF: u32 = 0x3f00_0000;

/// The pattern of `1.0`.
pub const ONE: u32 = 0x3f80_0000;

/// The pattern of `-1.0`.
pub const MINUS_ONE: u32 = 0xbf80_0000;

/// A single-precision number, held as its bit pattern.
///
/// `==` on this type compares patterns. The numeric comparisons are
/// [`Scalar::lt`], [`Scalar::gt`] and [`Scalar::same`].
#[derive(Clone, Copy, PartialEq, Eq, Structural, Debug)]
pub struct Scalar {
    pub bits: u32,
}

impl Scalar {
    /// The pattern without the sign bit.
    pub open spec fn magnitude(self) -> int {
        self.bits as int % 0x8000_0000
    }

    /// Whether the sign bit is set.
    pub open spec fn is_negative(self) -> bool {
        self.bits >= SIGN_BIT
    }

    /// Whether the pattern is not a number.
    pub open spec fn is_nan(self) -> bool {
        self.magnitude() > INFINITY
    }

    /// Whether the pattern is one of the two zeros.
    pub open spec fn is_zero(self) -> bool {
        self.magnitude() == 0
    }

    /// An integer that orders numbers as their values are ordered: the
    /// magnitude, negated under the sign bit. The two zeros share rank 0.
    pub open spec fn rank(self) -> int {
        if self.is_negative() {
            -self.magnitude()
        } else {
            self.magnitude()
        }
    }

    /// The numeric `<`: false as soon as either side is not a number.
    pub open spec fn below(self, other: Scalar) -> bool {
        !self.is_nan() && !other.is_nan() && self.rank() < other.rank()
    }

    /// The numeric `==`: false as soon as either side is not a number, true of
    /// the two zeros.
    pub open spec fn same_value(self, other: Scalar) -> bool {
        !self.is_nan() && !other.is_nan() && self.rank() == other.rank()
    }

    /// The larger of two numbers. A side that is not a number loses to the
    /// other; of two sides that compare equal the first is kept.
    pub open spec fn larger(self, other: Scalar) -> Scalar {
        if self.is_nan() {
            other
        } else if other.is_nan() {
            self
        } else if self.below(other) {
            other
        } else {
            self
        }
    }

    /// The smaller of two numbers, with the conventions of [`Scalar::larger`].
    pub open spec fn smaller(self, other: Scalar) -> Scalar {
        if self.is_nan() {
            other
        } else if other.is_nan() {
            self
        } else if other.below(self) {
            other
        } else {
            self
        }
    }

    /// The pattern with the sign bit cleared.
    pub open spec fn absolute(self) -> Scalar {
        Scalar { bits: self.magnitude() as u32 }
    }

    /// The pattern with the sign bit flipped.
    pub open spec fn negated(self) -> Scalar {
        if self.is_negative() {
            Scalar { bits: (self.bits - SIGN_BIT) as u32 }
        } else {
            Scalar { bits: (self.bits + SIGN_BIT) as u32 }
        }
    }

    /// The magnitude of `self` under the sign bit of `sign`.
    pub open spec fn signed_as(self, sign: Scalar) -> Scalar {
        if sign.is_negative() {
            Scalar { bits: (self.magnitude() + SIGN_BIT) as u32 }
        } else {
            self.absolute()
        }
    }

    pub fn from_bits(bits: u32) -> (r: Scalar)
        ensures
            r.bits == bits,
    {
        Scalar { bits }
    }

    pub fn to_bits(self) -> (bits: u32)
        ensures
            bits == self.bits,
    {
        self.bits
    }

    /// Positive zero.
    pub open spec fn spec_zero() -> Scalar {
        Scalar { bits: 0 }
    }

    /// The number `1.0`.
    pub open spec fn spec_one() -> Scalar {
        Scalar { bits: ONE }
    }

    /// The number `-1.0`.
    pub open spec fn spec_minus_one() -> Scalar {
        Scalar { bits: MINUS_ONE }
    }

    /// The number `0.5`.
    pub open spec fn spec_half() -> Scalar {
        Scalar { bits: HALF }
    }

    /// Positive zero.
    #[verifier::when_used_as_spec(spec_zero)]
    pub fn zero() -> (r: Scalar)
        ensures
            r == Scalar::spec_zero(),
    {
        Scalar { bits: 0 }
    }

    /// The number `1.0`.
    #[verifier::when_used_as_spec(spec_one)]
    pub fn one() -> (r: Scalar)
        ensures
            r == Scalar::spec_one(),
    {
        Scalar { bits: ONE }
    }

    /// The number `-1.0`.
    #[verifier::when_used_as_spec(spec_minus_one)]
    pub fn minus_one() -> (r: Scalar)
        ensures
            r == Scalar::spec_minus_one(),
    {
        Scalar { bits: MINUS_ONE }
    }

    /// The number `0.5`.
    #[verifier::when_used_as_spec(spec_half)]
    pub fn half() -> (r: Scalar)
        ensures
            r == Scalar::spec_half(),
    {
        Scalar { bits: HALF }
    }

    fn magnitude_bits(self) -> (m: u32)
        ensures
            m == self.magnitude(),
    {
        self.bits % SIGN_BIT
    }

    fn rank_value(self) -> (k: i64)
        ensures
            k == self.rank(),
    {
        let m: u32 = self.magnitude_bits();
        if self.bits >= SIGN_BIT {
            -(m as i64)
        } else {
            m as i64
        }
    }

    pub fn sign_bit(self) -> (b: bool)
        ensures
            b == self.is_negative(),
    {
        self.bits >= SIGN_BIT
    }

    pub fn nan(self) -> (b: bool)
        ensures
            b == self.is_nan(),
    {
        self.magnitude_bits() > INFINITY
    }

    /// Whether the number equals zero; true of both zeros.
    pub fn zeroed(self) -> (b: bool)
        ensures
            b == self.is_zero(),
    {
        self.magnitude_bits() == 0
    }

    /// The numeric `<`.
    pub fn lt(self, other: Scalar) -> (b: bool)
        ensures
            b == self.below(other),
    {
        !self.nan() && !other.nan() && self.rank_value() < other.rank_value()
    }

    /// The numeric `>`.
    pub fn gt(self, other: Scalar) -> (b: bool)
        ensures
            b == other.below(self),
    {
        other.lt(self)
    }

    /// The numeric `==`.
    pub fn same(self, other: Scalar) -> (b: bool)
        ensures
            b == self.same_value(other),
    {
        !self.nan() && !other.nan() && self.rank_value() == other.rank_value()
    }

    pub fn max(self, other: Scalar) -> (r: Scalar)
        ensures
            r == self.larger(other),
    {
        if self.nan() {
            other
        } else if other.nan() {
            self
        } else if self.lt(other) {
            other
        } else {
            self
        }
    }

    pub fn min(self, other: Scalar) -> (r: Scalar)
        ensures
            r == self.smaller(other),
    {
        if self.nan() {
            other
        } else if other.nan() {
            self
        } else if other.lt(self) {
            other
        } else {
            self
        }
    }

    pub fn abs(self) -> (r: Scalar)
        ensures
            r == self.absolute(),
    {
        Scalar { bits: self.magnitude_bits() }
    }

    pub fn neg(self) -> (r: Scalar)
        ensures
            r == self.negated(),
    {
        if self.bits >= SIGN_BIT {
            Scalar { bits: self.bits - SIGN_BIT }
        } else {
            Scalar { bits: self.bits + SIGN_BIT }
        }
    }

    /// The magnitude of `self` under the sign of `sign`.
    pub fn with_sign_of(self, sign: Scalar) -> (r: Scalar)
        ensures
            r == self.signed_as(sign),
    {
        let m: u32 = self.magnitude_bits();
        if sign.bits >= SIGN_BIT {
            Scalar { bits: m + SIGN_BIT }
        } else {
            Scalar { bits: m }
        }
    }
}

impl Default for Scalar {
    fn default() -> (r: Scalar)
        ensures
            r.bits == 0,
    {
        Scalar { bits: 0 }
    }
}

} // verus!
