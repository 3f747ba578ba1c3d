//! Double-precision numbers held by their bits.

use vstd::prelude::*;

verus! {

/// An IEEE-754 double-precision number, held by its 64 bits: the sign in the
/// highest, then eleven exponent bits, then the fraction.
#[derive(Clone, Copy, PartialEq, Eq, Structural, Debug)]
pub struct Float64 {
    pub bits: u64,
}

/// The bits of negative zero: the sign bit alone.
pub const NEGATIVE_ZERO_BITS: u64 = 0x8000_0000_0000_0000;

/// The bits of positive infinity. Magnitudes at or above it are not finite.
pub const INFINITY_BITS: u64 = 0x7ff0_0000_0000_0000;

impl Float64 {
    /// The bits without the sign. Magnitudes order as the numbers they stand for.
    pub open spec fn magnitude(self) -> nat {
        if self.bits >= NEGATIVE_ZERO_BITS {
            (self.bits - NEGATIVE_ZERO_BITS) as nat
        } else {
            self.bits as nat
        }
    }

    /// Neither infinite nor not-a-number.
    pub open spec fn finite(self) -> bool {
        self.magnitude() < INFINITY_BITS
    }

    /// Below zero, for a number that is finite. Negative zero is not.
    pub open spec fn below_zero(self) -> bool {
        self.bits > NEGATIVE_ZERO_BITS
    }

    /// Neither infinite, nor not-a-number, nor below zero.
    pub fn is_finite_nonnegative(&self) -> (ok: bool)
        ensures
            ok == (self.finite() && !self.below_zero()),
    {
        self.bits < INFINITY_BITS || self.bits == NEGATIVE_ZERO_BITS
    }

    /// In `0.0..=max`, where `max` is a finite number that is not below zero.
    pub open spec fn within(self, max: Float64) -> bool {
        self.finite() && !self.below_zero() && self.magnitude() <= max.magnitude()
    }

    /// Whether the number lies in `0.0..=max`, for a finite `max` that is not
    /// below zero.
    pub fn is_within(&self, max: Float64) -> (ok: bool)
        requires
            max.finite(),
            !max.below_zero(),
        ensures
            ok == self.within(max),
    {
        self.bits <= max.bits && max.bits != NEGATIVE_ZERO_BITS || self.bits == 0 || self.bits
            == NEGATIVE_ZERO_BITS
    }
}

} // verus!
