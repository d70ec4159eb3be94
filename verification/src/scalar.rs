//! IEEE-754 binary64 values held by their bit pattern, with the order the
//! format defines on them.

use vstd::prelude::*;

verus! {

/// Bit pattern of the sign bit.
pub const SIGN_BIT: u64 = 0x8000_0000_0000_0000u64;

/// Bit pattern of positive infinity; every magnitude above it is a NaN.
pub const INFINITY_BITS: u64 = 0x7FF0_0000_0000_0000u64;

/// A binary64 value, stored as its bit pattern. `==` on this type compares
/// patterns; the numeric comparisons are the methods below.
#[derive(Clone, Copy, Debug, PartialEq, Eq, Structural)]
pub struct Scalar {
    pub bits: u64,
}

/// The pattern with the sign bit cleared.
pub open spec fn magnitude_of(bits: u64) -> int {
    if bits >= SIGN_BIT {
        bits - SIGN_BIT
    } else {
        bits as int
    }
}

impl Scalar {
    /// The bits without the sign.
    pub open spec fn magnitude(self) -> int {
        magnitude_of(self.bits)
    }

    /// Whether the pattern encodes a NaN.
    pub open spec fn nan(self) -> bool {
        self.magnitude() > INFINITY_BITS
    }

    /// Whether the sign bit is set.
    pub open spec fn negative(self) -> bool {
        self.bits >= SIGN_BIT
    }

    /// An integer that orders the non-NaN values as the format does: both
    /// zeros map to 0, positive values to their magnitude, negative values to
    /// its opposite.
    pub open spec fn key(self) -> int {
        if self.negative() {
            -self.magnitude()
        } else {
            self.magnitude()
        }
    }

    /// Strictly below, as the format compares: false whenever a NaN is
    /// involved, and the two zeros are equal.
    pub open spec fn lt(self, other: Scalar) -> bool {
        !self.nan() && !other.nan() && self.key() < other.key()
    }

    /// Strictly above: `other` is strictly below `self`.
    pub open spec fn gt(self, other: Scalar) -> bool {
        other.lt(self)
    }

    /// Numerically equal: neither is a NaN and the keys agree.
    pub open spec fn same(self, other: Scalar) -> bool {
        !self.nan() && !other.nan() && self.key() == other.key()
    }

    /// Below or equal.
    pub open spec fn le(self, other: Scalar) -> bool {
        !self.nan() && !other.nan() && self.key() <= other.key()
    }

    /// Above or equal.
    pub open spec fn ge(self, other: Scalar) -> bool {
        other.le(self)
    }

    /// The value without its sign.
    pub open spec fn magnitude_value(self) -> Scalar {
        Scalar { bits: self.magnitude() as u64 }
    }

    /// The larger of two values; where one is a NaN, the other.
    pub open spec fn larger(self, other: Scalar) -> Scalar {
        if self.nan() {
            other
        } else if other.nan() {
            self
        } else if self.lt(other) {
            other
        } else {
            self
        }
    }

    /// The value of a bit pattern.
    pub fn from_bits(bits: u64) -> (r: Scalar)
        ensures
            r.bits == bits,
    {
        Scalar { bits }
    }

    /// The bit pattern of the value.
    pub fn to_bits(self) -> (r: u64)
        ensures
            r == self.bits,
    {
        self.bits
    }

    /// Positive zero.
    pub fn zero() -> (r: Scalar)
        ensures
            r.bits == 0,
            !r.nan(),
            r.key() == 0,
    {
        Scalar { bits: 0 }
    }

    /// Whether the value is a NaN.
    pub fn is_nan(self) -> (r: bool)
        ensures
            r == self.nan(),
    {
        let m: u64 = if self.bits >= SIGN_BIT {
            self.bits - SIGN_BIT
        } else {
            self.bits
        };
        m > INFINITY_BITS
    }

    /// The order key as a machine integer.
    pub fn order_key(self) -> (r: i64)
        ensures
            r == self.key(),
    {
        if self.bits >= SIGN_BIT {
            let m: u64 = self.bits - SIGN_BIT;
            -(m as i64)
        } else {
            self.bits as i64
        }
    }

    /// Whether the value is strictly below the other.
    pub fn is_lt(self, other: Scalar) -> (r: bool)
        ensures
            r == self.lt(other),
    {
        !self.is_nan() && !other.is_nan() && self.order_key() < other.order_key()
    }

    /// Whether the value is strictly above the other.
    pub fn is_gt(self, other: Scalar) -> (r: bool)
        ensures
            r == self.gt(other),
    {
        other.is_lt(self)
    }

    /// Whether the value is below or equal to the other.
    pub fn is_le(self, other: Scalar) -> (r: bool)
        ensures
            r == self.le(other),
    {
        !self.is_nan() && !other.is_nan() && self.order_key() <= other.order_key()
    }

    /// Whether the value is above or equal to the other.
    pub fn is_ge(self, other: Scalar) -> (r: bool)
        ensures
            r == self.ge(other),
    {
        other.is_le(self)
    }

    /// Clears the sign.
    pub fn abs(self) -> (r: Scalar)
        ensures
            r == self.magnitude_value(),
            !r.negative(),
            r.nan() == self.nan(),
    {
        if self.bits >= SIGN_BIT {
            Scalar { bits: self.bits - SIGN_BIT }
        } else {
            self
        }
    }

    /// The larger of the two.
    pub fn max(self, other: Scalar) -> (r: Scalar)
        ensures
            r == self.larger(other),
    {
        if self.is_nan() {
            other
        } else if other.is_nan() {
            self
        } else if self.is_lt(other) {
            other
        } else {
            self
        }
    }

    /// Whether the two values are numerically equal.
    pub fn is_same(self, other: Scalar) -> (r: bool)
        ensures
            r == self.same(other),
    {
        !self.is_nan() && !other.is_nan() && self.order_key() == other.order_key()
    }
}

/// Of two values that are not NaN exactly one of below, equal and above
/// holds.
pub proof fn lemma_order_total(a: Scalar, b: Scalar)
    requires
        !a.nan(),
        !b.nan(),
    ensures
        a.lt(b) || a.same(b) || a.gt(b),
        !(a.lt(b) && a.same(b)),
        !(a.lt(b) && a.gt(b)),
        !(a.same(b) && a.gt(b)),
{
}

/// Below is transitive.
pub proof fn lemma_lt_transitive(a: Scalar, b: Scalar, c: Scalar)
    requires
        a.lt(b),
        b.lt(c),
    ensures
        a.lt(c),
{
}

/// A NaN is neither below, above nor equal to anything.
pub proof fn lemma_nan_unordered(a: Scalar, b: Scalar)
    requires
        a.nan() || b.nan(),
    ensures
        !a.lt(b),
        !a.gt(b),
        !a.same(b),
        !a.le(b),
        !a.ge(b),
{
}

} // verus!
