//! Binary64 numbers held as their bit patterns.
//!
//! Only what can be decided on the pattern itself is offered here: whether
//! a number is a NaN, whether it is zero, its negation, and how two numbers
//! are ordered.

use vstd::prelude::*;

verus! {

/// The bit that holds the sign.
pub const SIGN_BIT: u64 = 0x8000_0000_0000_0000;

/// The bits that hold exponent and fraction.
pub const MAGNITUDE_MASK: u64 = 0x7FFF_FFFF_FFFF_FFFF;

/// Exponent and fraction of an infinity; above it lie the NaNs.
pub const INFINITY_MAGNITUDE: u64 = 0x7FF0_0000_0000_0000;

/// The pattern of the number one.
pub const ONE_BITS: u64 = 0x3FF0_0000_0000_0000;

/// A binary64 number, given by its 64 bits: sign, exponent, fraction.
///
/// `==` on this type compares patterns, not numbers: the two zeros differ,
/// and a NaN equals itself.
#[derive(Clone, Copy, Debug, PartialEq, Eq, Structural)]
pub struct Binary64 {
    pub bits: u64,
}

impl Binary64 {
    /// Exponent and fraction, read as one unsigned number. Among numbers
    /// of one sign, a larger magnitude is a number further from zero.
    pub open spec fn magnitude(self) -> int {
        self.bits as int % 0x8000_0000_0000_0000
    }

    /// The sign bit is set.
    pub open spec fn negative(self) -> bool {
        self.bits >= 0x8000_0000_0000_0000
    }

    /// The pattern is that of a NaN.
    pub open spec fn nan(self) -> bool {
        self.magnitude() > 0x7FF0_0000_0000_0000
    }

    /// The number is zero, of either sign.
    pub open spec fn zero(self) -> bool {
        self.magnitude() == 0
    }

    /// The place of a number that is no NaN among all such numbers: the
    /// magnitude, counted downwards from zero for the negative ones. Two
    /// numbers are in the order of their ranks, and equal where the ranks
    /// are; the two zeros share rank 0.
    pub open spec fn rank(self) -> int {
        if self.negative() {
            -self.magnitude()
        } else {
            self.magnitude()
        }
    }

    /// `self < other` as numbers. A NaN is below nothing and nothing is
    /// below it.
    pub open spec fn less(self, other: Binary64) -> bool {
        !self.nan() && !other.nan() && self.rank() < other.rank()
    }

    /// The number with the opposite sign.
    pub open spec fn negated(self) -> Binary64 {
        Binary64 {
            bits: if self.negative() {
                (self.bits - 0x8000_0000_0000_0000) as u64
            } else {
                (self.bits + 0x8000_0000_0000_0000) as u64
            },
        }
    }

    /// The number with the given pattern.
    pub fn from_bits(bits: u64) -> (r: Binary64)
        ensures
            r.bits == bits,
    {
        Binary64 { bits }
    }

    /// The pattern of the number.
    pub fn to_bits(&self) -> (r: u64)
        ensures
            r == self.bits,
    {
        self.bits
    }

    /// The number one.
    pub fn one() -> (r: Binary64)
        ensures
            r.bits == ONE_BITS,
            !r.nan(),
            !r.zero(),
            !r.negative(),
    {
        Binary64 { bits: ONE_BITS }
    }

    /// Whether the pattern is that of a NaN.
    pub fn is_nan(&self) -> (r: bool)
        ensures
            r == self.nan(),
    {
        let bits: u64 = self.bits;
        assert(bits & 0x7FFF_FFFF_FFFF_FFFF == bits % 0x8000_0000_0000_0000) by (bit_vector);
        (bits & MAGNITUDE_MASK) > INFINITY_MAGNITUDE
    }

    /// Whether the number is zero, of either sign.
    pub fn is_zero(&self) -> (r: bool)
        ensures
            r == self.zero(),
    {
        let bits: u64 = self.bits;
        assert(bits & 0x7FFF_FFFF_FFFF_FFFF == bits % 0x8000_0000_0000_0000) by (bit_vector);
        (bits & MAGNITUDE_MASK) == 0
    }

    /// The number with the opposite sign.
    pub fn negate(&self) -> (r: Binary64)
        ensures
            r == self.negated(),
    {
        let bits: u64 = self.bits;
        assert(bits >= 0x8000_0000_0000_0000 ==> bits ^ 0x8000_0000_0000_0000 == bits
            - 0x8000_0000_0000_0000) by (bit_vector);
        assert(bits < 0x8000_0000_0000_0000 ==> bits ^ 0x8000_0000_0000_0000 == bits
            + 0x8000_0000_0000_0000) by (bit_vector);
        Binary64 { bits: bits ^ SIGN_BIT }
    }

    /// Whether `self < other` as numbers.
    pub fn less_than(&self, other: &Binary64) -> (r: bool)
        ensures
            r == self.less(*other),
    {
        if self.is_nan() || other.is_nan() {
            return false;
        }
        let a: u64 = self.bits;
        let b: u64 = other.bits;
        assert(a & 0x7FFF_FFFF_FFFF_FFFF == a % 0x8000_0000_0000_0000) by (bit_vector);
        assert(b & 0x7FFF_FFFF_FFFF_FFFF == b % 0x8000_0000_0000_0000) by (bit_vector);
        let a_magnitude: u64 = a & MAGNITUDE_MASK;
        let b_magnitude: u64 = b & MAGNITUDE_MASK;
        if a >= SIGN_BIT {
            if b >= SIGN_BIT {
                b_magnitude < a_magnitude
            } else {
                a_magnitude != 0 || b_magnitude != 0
            }
        } else {
            if b >= SIGN_BIT {
                false
            } else {
                a_magnitude < b_magnitude
            }
        }
    }
}

/// Negation changes the sign and nothing else: the magnitude stays, the
/// rank is mirrored at zero, and negating twice gives the number back.
pub proof fn lemma_negated(x: Binary64)
    ensures
        x.negated().magnitude() == x.magnitude(),
        x.negated().negative() == !x.negative(),
        x.negated().nan() == x.nan(),
        x.negated().zero() == x.zero(),
        x.negated().rank() == -x.rank(),
        x.negated().negated() == x,
{
}

} // verus!
