//! The 2D point and the exact rational used for bin edges and sample
//! locations.

use vstd::prelude::*;

verus! {

/// A 2D point of a series. Both coordinates are fixed-point magnitudes in the
/// caller's unit.
#[derive(Clone, Copy, Debug, PartialEq, Eq, Structural)]
pub struct Point {
    pub x: i64,
    pub y: i64,
}

/// An exact rational `num / den`. Histogram bin edges and KDE sample
/// locations divide the observed y-range into equal parts, so they are not
/// whole magnitudes in general; they are carried exactly instead of rounded.
#[derive(Clone, Copy, Debug, PartialEq, Eq, Structural)]
pub struct Frac {
    pub num: i128,
    pub den: u64,
}

impl Frac {
    /// The value of `self` is strictly below the value of `other`, by
    /// cross-multiplication.
    pub open spec fn lt(self, other: Frac) -> bool {
        self.num * other.den < other.num * self.den
    }

    /// The value of `self` is at least the whole number `w`.
    pub open spec fn ge_int(self, w: int) -> bool {
        w * self.den <= self.num
    }

    /// The value of `self` is at most the whole number `w`.
    pub open spec fn le_int(self, w: int) -> bool {
        self.num <= w * self.den
    }
}

/// A product of bounded factors is bounded by the product of the bounds.
/// Used throughout to keep numerator arithmetic inside the machine types.
pub proof fn lemma_mul_abs_bound(a: int, b: int, amax: int, bmax: int)
    requires
        -amax <= a <= amax,
        -bmax <= b <= bmax,
    ensures
        -(amax * bmax) <= a * b <= amax * bmax,
{
    assert(-(amax * bmax) <= a * b <= amax * bmax) by (nonlinear_arith)
        requires
            -amax <= a <= amax,
            -bmax <= b <= bmax,
    ;
}

} // verus!
