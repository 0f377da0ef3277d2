//! Single-precision numbers as integers.
//!
//! The renderer's arithmetic is carried out elsewhere; what this library has to
//! do with a number is to compare it. A [`Scalar`] therefore keeps the number's
//! IEEE 754 binary32 pattern and orders patterns by integer arithmetic alone.
//! Among the patterns that stand for numbers, a larger magnitude field means a
//! larger absolute value, so the signed magnitude, the [`Scalar::rank`], orders
//! scalars exactly as their values are ordered. Patterns beyond the infinities
//! stand for no number and compare with nothing, not even with themselves.

use vstd::prelude::*;

verus! {

/// The pattern of negative zero: the sign bit alone.
pub const SIGN: u32 = 0x8000_0000;

/// The magnitude of the two infinities. A larger magnitude is not a number.
pub const INFINITE: u32 = 0x7F80_0000;

/// A single-precision value, held as its bit pattern. `==` compares patterns:
/// it tells the two zeros apart, and finds what is not a number equal to
/// itself. The order of the values is [`Scalar::lt`] and its kin.
#[derive(Clone, Copy, Debug, PartialEq, Eq, Structural)]
pub struct Scalar {
    pub bits: u32,
}

impl Scalar {
    /// The pattern without its sign bit.
    pub open spec fn magnitude(self) -> int {
        if self.bits < SIGN {
            self.bits as int
        } else {
            self.bits - SIGN
        }
    }

    /// Whether the sign bit is set.
    pub open spec fn sign_bit(self) -> bool {
        self.bits >= SIGN
    }

    /// Whether the pattern stands for a number, the infinities included.
    pub open spec fn is_number(self) -> bool {
        self.magnitude() <= INFINITE
    }

    /// The signed magnitude. Both zeros have rank 0; of two numbers the one
    /// with the smaller rank is the smaller number.
    pub open spec fn rank(self) -> int {
        if self.sign_bit() {
            -self.magnitude()
        } else {
            self.magnitude()
        }
    }

    /// `self < other` as numbers.
    pub open spec fn below(self, other: Scalar) -> bool {
        self.is_number() && other.is_number() && self.rank() < other.rank()
    }

    /// `self <= other` as numbers.
    pub open spec fn at_most(self, other: Scalar) -> bool {
        self.is_number() && other.is_number() && self.rank() <= other.rank()
    }

    /// `self > 0` as a number.
    pub open spec fn positive(self) -> bool {
        self.is_number() && self.rank() > 0
    }

    /// `self < 0` as a number.
    pub open spec fn negative(self) -> bool {
        self.is_number() && self.rank() < 0
    }

    /// `low <= self <= high` as numbers.
    pub open spec fn within(self, low: Scalar, high: Scalar) -> bool {
        low.at_most(self) && self.at_most(high)
    }

    /// `low < self < high` as numbers.
    pub open spec fn strictly_within(self, low: Scalar, high: Scalar) -> bool {
        low.below(self) && self.below(high)
    }

    /// Wraps a bit pattern.
    pub fn from_bits(bits: u32) -> (s: Scalar)
        ensures
            s.bits == bits,
    {
        Scalar { bits }
    }

    /// The bit pattern.
    pub fn to_bits(self) -> (bits: u32)
        ensures
            bits == self.bits,
    {
        self.bits
    }

    /// Positive zero.
    pub fn zero() -> (s: Scalar)
        ensures
            s.bits == 0,
            s.is_number(),
            s.rank() == 0,
    {
        Scalar { bits: 0 }
    }

    /// The number one: exponent field 127, empty fraction.
    pub fn one() -> (s: Scalar)
        ensures
            s.bits == 0x3F80_0000,
            s.is_number(),
            s.rank() == 0x3F80_0000,
    {
        Scalar { bits: 0x3F80_0000 }
    }

    /// The largest finite number.
    pub fn largest() -> (s: Scalar)
        ensures
            s.bits == INFINITE - 1,
            s.is_number(),
            forall|x: Scalar| x.is_number() && x.magnitude() != INFINITE ==> x.at_most(s),
    {
        Scalar { bits: 0x7F7F_FFFF }
    }

    /// Whether the pattern stands for no number.
    pub fn is_nan(self) -> (nan: bool)
        ensures
            nan == !self.is_number(),
    {
        if self.bits < SIGN {
            self.bits > INFINITE
        } else {
            self.bits - SIGN > INFINITE
        }
    }

    /// The rank of a number, as a machine integer.
    fn signed(self) -> (r: i64)
        ensures
            r == self.rank(),
    {
        if self.bits < SIGN {
            self.bits as i64
        } else {
            -((self.bits - SIGN) as i64)
        }
    }

    /// `self < other`; false as soon as one of the two is not a number.
    pub fn lt(self, other: Scalar) -> (r: bool)
        ensures
            r == self.below(other),
    {
        !self.is_nan() && !other.is_nan() && self.signed() < other.signed()
    }

    /// `self <= other`; false as soon as one of the two is not a number.
    pub fn le(self, other: Scalar) -> (r: bool)
        ensures
            r == self.at_most(other),
    {
        !self.is_nan() && !other.is_nan() && self.signed() <= other.signed()
    }

    /// `self > other`; false as soon as one of the two is not a number.
    pub fn gt(self, other: Scalar) -> (r: bool)
        ensures
            r == other.below(self),
    {
        other.lt(self)
    }

    /// `self >= other`; false as soon as one of the two is not a number.
    pub fn ge(self, other: Scalar) -> (r: bool)
        ensures
            r == other.at_most(self),
    {
        other.le(self)
    }

    /// `self > 0`; false for what is not a number.
    pub fn is_positive(self) -> (r: bool)
        ensures
            r == self.positive(),
    {
        !self.is_nan() && self.signed() > 0
    }

    /// `self < 0`; false for what is not a number.
    pub fn is_negative(self) -> (r: bool)
        ensures
            r == self.negative(),
    {
        !self.is_nan() && self.signed() < 0
    }

    /// `low <= self <= high`.
    pub fn is_within(self, low: Scalar, high: Scalar) -> (r: bool)
        ensures
            r == self.within(low, high),
    {
        low.le(self) && self.le(high)
    }

    /// `low < self < high`.
    pub fn is_strictly_within(self, low: Scalar, high: Scalar) -> (r: bool)
        ensures
            r == self.strictly_within(low, high),
    {
        low.lt(self) && self.lt(high)
    }
}

/// Of two numbers exactly one of `a < b`, `a` and `b` equal in value, `b < a`
/// holds, and `a <= b` is the first or the second.
pub proof fn order_is_total(a: Scalar, b: Scalar)
    requires
        a.is_number(),
        b.is_number(),
    ensures
        a.below(b) || b.below(a) || a.rank() == b.rank(),
        !(a.below(b) && b.below(a)),
        a.at_most(b) <==> !b.below(a),
        a.at_most(b) && b.at_most(a) <==> a.rank() == b.rank(),
{
}

/// The order is transitive, and mixing `<` with `<=` keeps `<`.
pub proof fn order_is_transitive(a: Scalar, b: Scalar, c: Scalar)
    ensures
        a.at_most(b) && b.at_most(c) ==> a.at_most(c),
        a.below(b) && b.at_most(c) ==> a.below(c),
        a.at_most(b) && b.below(c) ==> a.below(c),
{
}

/// Lowering the upper end of a range keeps what lies at or below the new end,
/// and nothing else.
pub proof fn range_narrows(x: Scalar, low: Scalar, high: Scalar, lower: Scalar)
    requires
        lower.at_most(high),
    ensures
        x.within(low, lower) <==> x.within(low, high) && x.at_most(lower),
        x.strictly_within(low, lower) <==> x.strictly_within(low, high) && x.below(lower),
{
}

/// What is not a number is neither below, above nor equal to anything.
pub proof fn not_a_number_is_unordered(a: Scalar, b: Scalar)
    requires
        !a.is_number(),
    ensures
        !a.below(b),
        !b.below(a),
        !a.at_most(b),
        !b.at_most(a),
        !a.at_most(a),
{
}

} // verus!
