//! Exchange rates as IEEE 754 binary64 bit patterns, and their order.
//!
//! The library never does arithmetic on a rate. It only carries rates
//! around and compares them, and both are exact on the bit pattern.

use vstd::prelude::*;

verus! {

/// The bit that holds the sign; every bit below it belongs to the
/// magnitude.
pub const SIGN_BIT: u64 = 0x8000_0000_0000_0000;

/// The magnitude of positive and negative infinity. Every larger magnitude
/// is not a number.
pub const INFINITY_MAGNITUDE: u64 = 0x7ff0_0000_0000_0000;

/// An exchange rate: a binary64 number, held as its 64 bits.
#[derive(Clone, Copy, Debug, PartialEq, Eq, Structural)]
pub struct Rate {
    pub bits: u64,
}

impl Rate {
    /// The bits without the sign. Among numbers of one sign a larger
    /// magnitude is further from zero.
    pub open spec fn magnitude(self) -> int {
        if self.bits >= SIGN_BIT {
            self.bits - SIGN_BIT
        } else {
            self.bits as int
        }
    }

    /// Whether the bits are not a number.
    pub open spec fn is_nan(self) -> bool {
        self.magnitude() > INFINITY_MAGNITUDE
    }

    /// An integer that orders the numbers as their values are ordered: both
    /// zeros get 0, and a negative number gets its magnitude negated.
    pub open spec fn rank(self) -> int {
        if self.bits >= SIGN_BIT {
            -self.magnitude()
        } else {
            self.magnitude()
        }
    }

    /// Whether `self` is strictly less than `other`. Nothing is less than
    /// what is not a number, which in turn is less than nothing.
    pub open spec fn less(self, other: Rate) -> bool {
        !self.is_nan() && !other.is_nan() && self.rank() < other.rank()
    }

    /// The rate with the given bits.
    pub fn from_bits(bits: u64) -> (rate: Rate)
        ensures
            rate.bits == bits,
    {
        Rate { bits }
    }

    /// The bits of the rate.
    pub fn to_bits(&self) -> (bits: u64)
        ensures
            bits == self.bits,
    {
        self.bits
    }

    /// Whether the rate is not a number.
    pub fn is_not_a_number(&self) -> (answer: bool)
        ensures
            answer == self.is_nan(),
    {
        let magnitude: u64 = if self.bits >= SIGN_BIT {
            self.bits - SIGN_BIT
        } else {
            self.bits
        };
        magnitude > INFINITY_MAGNITUDE
    }

    /// Whether the rate is strictly less than `other`.
    pub fn is_less_than(&self, other: &Rate) -> (answer: bool)
        ensures
            answer == self.less(*other),
    {
        if self.is_not_a_number() || other.is_not_a_number() {
            return false;
        }
        let negative: bool = self.bits >= SIGN_BIT;
        let other_negative: bool = other.bits >= SIGN_BIT;
        if negative && other_negative {
            // Both at or below zero: the larger magnitude is the lesser number.
            self.bits > other.bits
        } else if negative {
            // Negative zero is not less than zero.
            self.bits > SIGN_BIT || other.bits > 0
        } else if other_negative {
            false
        } else {
            self.bits < other.bits
        }
    }

    /// Whether the rate is strictly greater than `other`.
    pub fn is_greater_than(&self, other: &Rate) -> (answer: bool)
        ensures
            answer == other.less(*self),
    {
        other.is_less_than(self)
    }
}

/// No rate is less than itself.
pub proof fn less_is_irreflexive(a: Rate)
    ensures
        !a.less(a),
{
}

/// If the first rate is less than the second and the second less than the
/// third, the first is less than the third.
pub proof fn less_is_transitive(a: Rate, b: Rate, c: Rate)
    requires
        a.less(b),
        b.less(c),
    ensures
        a.less(c),
{
}

/// Of two rates that are both numbers, either one is less than the other
/// or they have the same rank.
pub proof fn less_is_total_on_numbers(a: Rate, b: Rate)
    requires
        !a.is_nan(),
        !b.is_nan(),
    ensures
        a.less(b) || b.less(a) || a.rank() == b.rank(),
{
}

} // verus!
