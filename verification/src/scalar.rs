//! Single-precision values as the library carries them.
//!
//! A [`Scalar`] is the bit pattern of an IEEE 754 binary32 value. The library
//! never adds or multiplies scalars; it compares them, picks the lesser or the
//! greater, and flips signs. All three are exact on bit patterns.

use vstd::prelude::*;

verus! {

/// The sign bit of a binary32 pattern.
pub const SIGN_BIT: u32 = 0x8000_0000;

/// The magnitude of positive infinity; larger magnitudes are NaNs.
pub const INFINITY_BITS: u32 = 0x7f80_0000;

/// An offset larger than the whole range of [`Scalar::total`].
pub const NAN_OFFSET: i64 = 0x2_0000_0000;

/// A binary32 value, held as its bit pattern.
#[derive(Clone, Copy, Debug, PartialEq, Eq, Structural)]
pub struct Scalar {
    pub bits: u32,
}

impl Scalar {
    /// Whether the sign bit is set.
    pub open spec fn negative(self) -> bool {
        self.bits >= SIGN_BIT
    }

    /// The pattern without its sign bit.
    pub open spec fn magnitude(self) -> int {
        if self.bits >= SIGN_BIT {
            self.bits - SIGN_BIT
        } else {
            self.bits as int
        }
    }

    /// Whether the pattern encodes a NaN.
    pub open spec fn nan(self) -> bool {
        self.magnitude() > INFINITY_BITS
    }

    /// The position of a number on the real line, as far as order goes:
    /// both zeros share position 0, and `a` is numerically less than `b`
    /// exactly when `a.rank() < b.rank()`.
    pub open spec fn rank(self) -> int {
        if self.negative() {
            -self.magnitude()
        } else {
            self.magnitude()
        }
    }

    /// A one-to-one position that refines [`rank`](Self::rank): negative zero
    /// comes just before positive zero.
    pub open spec fn total(self) -> int {
        if self.negative() {
            -self.magnitude() - 1
        } else {
            self.magnitude()
        }
    }

    /// The order in which the lesser of two scalars is picked: numbers by
    /// [`total`](Self::total), every NaN after every number.
    pub open spec fn low_key(self) -> int {
        if self.nan() {
            self.total() + NAN_OFFSET
        } else {
            self.total()
        }
    }

    /// The order in which the greater of two scalars is picked: numbers by
    /// [`total`](Self::total), every NaN before every number.
    pub open spec fn high_key(self) -> int {
        if self.nan() {
            self.total() - NAN_OFFSET
        } else {
            self.total()
        }
    }

    /// Numeric `<`: false whenever a NaN is involved, and the two zeros are
    /// equal.
    pub open spec fn lt_spec(self, other: Scalar) -> bool {
        !self.nan() && !other.nan() && self.rank() < other.rank()
    }

    /// Numeric `<=`.
    pub open spec fn le_spec(self, other: Scalar) -> bool {
        !self.nan() && !other.nan() && self.rank() <= other.rank()
    }

    /// The lesser of two scalars; a NaN loses against anything else.
    pub open spec fn min_spec(self, other: Scalar) -> Scalar {
        if self.low_key() <= other.low_key() {
            self
        } else {
            other
        }
    }

    /// The greater of two scalars; a NaN loses against anything else.
    pub open spec fn max_spec(self, other: Scalar) -> Scalar {
        if self.high_key() >= other.high_key() {
            self
        } else {
            other
        }
    }

    /// The same magnitude with the other sign.
    pub open spec fn neg_spec(self) -> Scalar {
        if self.bits >= SIGN_BIT {
            Scalar { bits: (self.bits - SIGN_BIT) as u32 }
        } else {
            Scalar { bits: (self.bits + SIGN_BIT) as u32 }
        }
    }

    /// The magnitude with a clear sign bit.
    pub open spec fn abs_spec(self) -> Scalar {
        Scalar { bits: self.magnitude() as u32 }
    }

    /// Wraps a bit pattern.
    pub fn from_bits(bits: u32) -> (s: Scalar)
        ensures
            s.bits == bits,
    {
        Scalar { bits }
    }

    /// The bit pattern.
    pub fn to_bits(self) -> (bits: u32)
        ensures
            bits == self.bits,
    {
        self.bits
    }

    /// Positive zero.
    pub fn zero() -> (s: Scalar)
        ensures
            s.bits == 0,
    {
        Scalar { bits: 0 }
    }

    /// Positive infinity.
    pub fn infinity() -> (s: Scalar)
        ensures
            s.bits == INFINITY_BITS,
    {
        Scalar { bits: INFINITY_BITS }
    }

    /// Negative infinity.
    pub fn neg_infinity() -> (s: Scalar)
        ensures
            s == Scalar::infinity_spec().neg_spec(),
    {
        Scalar { bits: 0xff80_0000 }
    }

    /// Positive infinity, for contracts.
    pub open spec fn infinity_spec() -> Scalar {
        Scalar { bits: INFINITY_BITS }
    }

    /// Positive zero, for contracts.
    pub open spec fn zero_spec() -> Scalar {
        Scalar { bits: 0 }
    }

    fn magnitude_bits(self) -> (m: u32)
        ensures
            m == self.magnitude(),
    {
        if self.bits >= SIGN_BIT {
            self.bits - SIGN_BIT
        } else {
            self.bits
        }
    }

    /// Whether the value is a NaN.
    pub fn is_nan(self) -> (r: bool)
        ensures
            r == self.nan(),
    {
        self.magnitude_bits() > INFINITY_BITS
    }

    fn rank_value(self) -> (r: i64)
        ensures
            r == self.rank(),
    {
        let m: i64 = self.magnitude_bits() as i64;
        if self.bits >= SIGN_BIT {
            -m
        } else {
            m
        }
    }

    /// The position of the value in the one-to-one order.
    pub fn total_key(self) -> (r: i64)
        ensures
            r == self.total(),
    {
        let m: i64 = self.magnitude_bits() as i64;
        if self.bits >= SIGN_BIT {
            -m - 1
        } else {
            m
        }
    }

    /// Numeric `self < other`.
    pub fn lt(self, other: Scalar) -> (r: bool)
        ensures
            r == self.lt_spec(other),
    {
        !self.is_nan() && !other.is_nan() && self.rank_value() < other.rank_value()
    }

    /// Numeric `self <= other`.
    pub fn le(self, other: Scalar) -> (r: bool)
        ensures
            r == self.le_spec(other),
    {
        !self.is_nan() && !other.is_nan() && self.rank_value() <= other.rank_value()
    }

    /// Numeric `self > other`.
    pub fn gt(self, other: Scalar) -> (r: bool)
        ensures
            r == other.lt_spec(self),
    {
        other.lt(self)
    }

    /// Numeric `self >= other`.
    pub fn ge(self, other: Scalar) -> (r: bool)
        ensures
            r == other.le_spec(self),
    {
        other.le(self)
    }

    /// The lesser of the two; if one is a NaN, the other.
    pub fn min(self, other: Scalar) -> (r: Scalar)
        ensures
            r == self.min_spec(other),
    {
        let a: i64 = if self.is_nan() {
            self.total_key() + NAN_OFFSET
        } else {
            self.total_key()
        };
        let b: i64 = if other.is_nan() {
            other.total_key() + NAN_OFFSET
        } else {
            other.total_key()
        };
        if a <= b {
            self
        } else {
            other
        }
    }

    /// The greater of the two; if one is a NaN, the other.
    pub fn max(self, other: Scalar) -> (r: Scalar)
        ensures
            r == self.max_spec(other),
    {
        let a: i64 = if self.is_nan() {
            self.total_key() - NAN_OFFSET
        } else {
            self.total_key()
        };
        let b: i64 = if other.is_nan() {
            other.total_key() - NAN_OFFSET
        } else {
            other.total_key()
        };
        if a >= b {
            self
        } else {
            other
        }
    }

    /// The value with its sign flipped.
    pub fn neg(self) -> (r: Scalar)
        ensures
            r == self.neg_spec(),
    {
        if self.bits >= SIGN_BIT {
            Scalar { bits: self.bits - SIGN_BIT }
        } else {
            Scalar { bits: self.bits + SIGN_BIT }
        }
    }

    /// The value with its sign cleared.
    pub fn abs(self) -> (r: Scalar)
        ensures
            r == self.abs_spec(),
    {
        Scalar { bits: self.magnitude_bits() }
    }

    /// The value held between two bounds: `low` where the value is
    /// numerically less than `low`, `high` where it is numerically greater
    /// than `high`, and the value itself otherwise (so a NaN stays a NaN).
    /// The bounds must be numbers in order.
    pub fn clamp(self, low: Scalar, high: Scalar) -> (r: Scalar)
        requires
            low.le_spec(high),
        ensures
            r == self.clamp_spec(low, high),
    {
        if self.lt(low) {
            low
        } else if self.gt(high) {
            high
        } else {
            self
        }
    }

    /// See [`clamp`](Self::clamp).
    pub open spec fn clamp_spec(self, low: Scalar, high: Scalar) -> Scalar {
        if self.lt_spec(low) {
            low
        } else if high.lt_spec(self) {
            high
        } else {
            self
        }
    }
}

/// Two scalars at the same one-to-one position are the same scalar.
pub proof fn total_is_one_to_one(a: Scalar, b: Scalar)
    requires
        a.total() == b.total(),
    ensures
        a == b,
{
}

/// Picking the lesser does not depend on the order of the arguments, gives
/// back an argument, and nests freely.
pub proof fn min_laws(a: Scalar, b: Scalar, c: Scalar)
    ensures
        a.min_spec(b) == b.min_spec(a),
        a.min_spec(a) == a,
        a.min_spec(b) == a || a.min_spec(b) == b,
        a.min_spec(b).min_spec(c) == a.min_spec(b.min_spec(c)),
        a.min_spec(b).low_key() <= a.low_key(),
        a.min_spec(b).low_key() <= b.low_key(),
{
}

/// Picking the greater does not depend on the order of the arguments, gives
/// back an argument, and nests freely.
pub proof fn max_laws(a: Scalar, b: Scalar, c: Scalar)
    ensures
        a.max_spec(b) == b.max_spec(a),
        a.max_spec(a) == a,
        a.max_spec(b) == a || a.max_spec(b) == b,
        a.max_spec(b).max_spec(c) == a.max_spec(b.max_spec(c)),
        a.max_spec(b).high_key() >= a.high_key(),
        a.max_spec(b).high_key() >= b.high_key(),
{
}

/// Among numbers, the lesser by [`Scalar::min_spec`] is not numerically
/// greater than either argument, and the greater by [`Scalar::max_spec`] is
/// not numerically less.
pub proof fn min_max_bound(a: Scalar, b: Scalar)
    requires
        !a.nan(),
        !b.nan(),
    ensures
        a.min_spec(b).le_spec(a),
        a.min_spec(b).le_spec(b),
        a.le_spec(a.max_spec(b)),
        b.le_spec(a.max_spec(b)),
{
}

/// A clamped number lies between the bounds.
pub proof fn clamp_is_within(value: Scalar, low: Scalar, high: Scalar)
    requires
        low.le_spec(high),
        !value.nan(),
    ensures
        low.le_spec(value.clamp_spec(low, high)),
        value.clamp_spec(low, high).le_spec(high),
        low.le_spec(value) && value.le_spec(high) ==> value.clamp_spec(low, high) == value,
{
}

/// Flipping the sign twice gives the value back, and reverses numeric order.
pub proof fn neg_laws(a: Scalar, b: Scalar)
    ensures
        a.neg_spec().neg_spec() == a,
        a.neg_spec().nan() == a.nan(),
        a.neg_spec().rank() == -a.rank(),
        a.lt_spec(b) == b.neg_spec().lt_spec(a.neg_spec()),
{
}

} // verus!
