//! Scalar values shared with the animation layer: unit-interval fractions
//! and easing curves.
//!
//! A [`ZeroToOne`] is a fraction of the unit interval held in fixed point:
//! the value `v` stands for `v / 10000`. All arithmetic on it is exact
//! integer arithmetic, so every derived value is reproducible bit for bit.

use vstd::prelude::*;

verus! {

/// The fixed-point denominator of [`ZeroToOne`]: this many parts make 1.
pub const UNIT: i64 = 10000;

/// A fraction in the closed interval from zero to one, in fixed point.
///
/// The carried value counts parts per [`UNIT`].
#[derive(Clone, Copy, Debug, PartialEq, Eq, PartialOrd, Ord, Structural)]
pub struct ZeroToOne(pub i64);

/// Clamps a fixed-point count into the unit interval.
pub open spec fn clamp_unit(v: int) -> int {
    if v < 0 {
        0
    } else if v > UNIT {
        UNIT as int
    } else {
        v
    }
}

impl ZeroToOne {
    /// A fraction is well formed when it lies in the unit interval.
    pub open spec fn wf(self) -> bool {
        0 <= self.0 <= UNIT
    }

    /// Returns the fraction counting `parts` per [`UNIT`], clamped into the
    /// unit interval.
    pub fn new(parts: i64) -> (r: ZeroToOne)
        ensures
            r.0 == clamp_unit(parts as int),
            r.wf(),
    {
        if parts < 0 {
            ZeroToOne(0)
        } else if parts > UNIT {
            ZeroToOne(UNIT)
        } else {
            ZeroToOne(parts)
        }
    }

    /// Returns the fraction zero.
    pub fn zero() -> (r: ZeroToOne)
        ensures
            r.0 == 0,
            r.wf(),
    {
        ZeroToOne(0)
    }

    /// Returns the fraction one.
    pub fn one() -> (r: ZeroToOne)
        ensures
            r.0 == UNIT,
            r.wf(),
    {
        ZeroToOne(UNIT)
    }

    /// Returns the complement: one minus this fraction.
    pub fn one_minus(self) -> (r: ZeroToOne)
        requires
            self.wf(),
        ensures
            r.0 == UNIT - self.0,
            r.wf(),
    {
        ZeroToOne(UNIT - self.0)
    }

    /// Returns the absolute difference between two fractions.
    pub fn difference_between(self, other: ZeroToOne) -> (r: ZeroToOne)
        requires
            self.wf(),
            other.wf(),
        ensures
            r.0 == if self.0 >= other.0 {
                self.0 - other.0
            } else {
                other.0 - self.0
            },
            r.wf(),
    {
        if self.0 >= other.0 {
            ZeroToOne(self.0 - other.0)
        } else {
            ZeroToOne(other.0 - self.0)
        }
    }

    /// The fixed-point product of two unit fractions.
    pub open spec fn times_spec(self, other: ZeroToOne) -> int {
        (self.0 * other.0) / (UNIT as int)
    }

    /// Returns the product of two fractions, rounded down to fixed point.
    pub fn times(self, other: ZeroToOne) -> (r: ZeroToOne)
        requires
            self.wf(),
            other.wf(),
        ensures
            r.0 == self.times_spec(other),
            r.wf(),
    {
        proof {
            lemma_unit_product_bounds(self.0 as int, other.0 as int);
        }
        ZeroToOne((self.0 * other.0) / UNIT)
    }

    /// Returns this fraction divided by a positive integer, rounded down.
    pub fn div_int(self, divisor: i64) -> (r: ZeroToOne)
        requires
            self.wf(),
            divisor >= 1,
        ensures
            r.0 == self.0 as int / divisor as int,
            r.wf(),
    {
        proof {
            assert(0 <= self.0 as int / divisor as int <= self.0) by (nonlinear_arith)
                requires
                    0 <= self.0,
                    divisor >= 1,
            ;
        }
        ZeroToOne(self.0 / divisor)
    }
}

/// The product of two unit fractions, divided back into fixed point, stays
/// in the unit interval.
proof fn lemma_unit_product_bounds(a: int, b: int)
    requires
        0 <= a <= UNIT,
        0 <= b <= UNIT,
    ensures
        0 <= a * b <= UNIT * UNIT,
        0 <= (a * b) / (UNIT as int) <= UNIT,
{
    assert(0 <= a * b <= UNIT * UNIT) by (nonlinear_arith)
        requires
            0 <= a <= UNIT,
            0 <= b <= UNIT,
    ;
    assert(0 <= (a * b) / (UNIT as int) <= UNIT) by (nonlinear_arith)
        requires
            0 <= a * b <= UNIT * UNIT,
    ;
}

/// A curve shaping how an animated value progresses over time.
///
/// The style layer stores the curve selection; evaluating a curve is the
/// animation layer's work.
#[derive(Clone, Copy, Debug, PartialEq, Eq, Structural)]
pub enum EasingFunction {
    /// Progress linearly over time.
    Linear,
    /// Start slowly and accelerate.
    EaseIn,
    /// Start quickly and decelerate.
    EaseOut,
    /// Start and end slowly, moving quickest in the middle.
    EaseInOut,
}

} // verus!
