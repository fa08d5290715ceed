//! Value adapters: how one element of the input collection becomes a point.
//!
//! [`FloatMapped`] turns a single numeric-like value into a fixed-point
//! magnitude. [`ValueMapped`] turns one collection element into a 2D point,
//! dispatching on the element's shape: a bare scalar receives its running
//! index as the x-coordinate, while a two-component element (a pair, or
//! [`Vec2`]) supplies both coordinates itself and ignores the index.

use vstd::prelude::*;

use crate::point::Point;

verus! {

/// A value with a canonical fixed-point magnitude.
///
/// Widths up to 64 bits that fit `i64` convert exactly; `u64` and `usize`
/// saturate at `i64::MAX`, a documented lossy conversion rather than an
/// error.
pub trait FloatMapped {
    /// The magnitude this value stands for.
    spec fn magnitude_spec(&self) -> int;

    /// Extracts the magnitude.
    fn extract_magnitude(&self) -> (m: i64)
        ensures
            m as int == self.magnitude_spec(),
    ;
}

impl FloatMapped for i8 {
    open spec fn magnitude_spec(&self) -> int {
        *self as int
    }

    fn extract_magnitude(&self) -> (m: i64) {
        *self as i64
    }
}

impl FloatMapped for i16 {
    open spec fn magnitude_spec(&self) -> int {
        *self as int
    }

    fn extract_magnitude(&self) -> (m: i64) {
        *self as i64
    }
}

impl FloatMapped for i32 {
    open spec fn magnitude_spec(&self) -> int {
        *self as int
    }

    fn extract_magnitude(&self) -> (m: i64) {
        *self as i64
    }
}

impl FloatMapped for i64 {
    open spec fn magnitude_spec(&self) -> int {
        *self as int
    }

    fn extract_magnitude(&self) -> (m: i64) {
        *self
    }
}

impl FloatMapped for isize {
    open spec fn magnitude_spec(&self) -> int {
        *self as int
    }

    fn extract_magnitude(&self) -> (m: i64) {
        *self as i64
    }
}

impl FloatMapped for u8 {
    open spec fn magnitude_spec(&self) -> int {
        *self as int
    }

    fn extract_magnitude(&self) -> (m: i64) {
        *self as i64
    }
}

impl FloatMapped for u16 {
    open spec fn magnitude_spec(&self) -> int {
        *self as int
    }

    fn extract_magnitude(&self) -> (m: i64) {
        *self as i64
    }
}

impl FloatMapped for u32 {
    open spec fn magnitude_spec(&self) -> int {
        *self as int
    }

    fn extract_magnitude(&self) -> (m: i64) {
        *self as i64
    }
}

impl FloatMapped for u64 {
    open spec fn magnitude_spec(&self) -> int {
        if *self <= i64::MAX as u64 {
            *self as int
        } else {
            i64::MAX as int
        }
    }

    fn extract_magnitude(&self) -> (m: i64) {
        if *self <= i64::MAX as u64 {
            *self as i64
        } else {
            i64::MAX
        }
    }
}

impl FloatMapped for usize {
    open spec fn magnitude_spec(&self) -> int {
        if *self <= i64::MAX as usize {
            *self as int
        } else {
            i64::MAX as int
        }
    }

    fn extract_magnitude(&self) -> (m: i64) {
        if *self <= i64::MAX as usize {
            *self as i64
        } else {
            i64::MAX
        }
    }
}

/// A collection element that yields a 2D point, given its zero-based position
/// in the collection.
pub trait ValueMapped {
    /// The point this element stands for at position `i`, as a mathematical
    /// `(x, y)` pair.
    spec fn point_spec(&self, i: int) -> (int, int);

    /// Extracts the point at position `i`.
    fn extract_value(&self, i: i64) -> (p: Point)
        requires
            0 <= i,
        ensures
            (p.x as int, p.y as int) == self.point_spec(i as int),
    ;
}

/// A bare scalar plots as value over position: the index becomes x.
impl<Y: FloatMapped> ValueMapped for Y {
    open spec fn point_spec(&self, i: int) -> (int, int) {
        (i, self.magnitude_spec())
    }

    fn extract_value(&self, i: i64) -> (p: Point) {
        Point { x: i, y: self.extract_magnitude() }
    }
}

/// A pair supplies its own coordinates; the index is ignored.
impl<X: FloatMapped, Y: FloatMapped> ValueMapped for (X, Y) {
    open spec fn point_spec(&self, i: int) -> (int, int) {
        (self.0.magnitude_spec(), self.1.magnitude_spec())
    }

    fn extract_value(&self, i: i64) -> (p: Point) {
        Point { x: self.0.extract_magnitude(), y: self.1.extract_magnitude() }
    }
}

/// A two-component vector, already quantized to magnitudes. Like a pair, it
/// supplies both coordinates itself.
#[derive(Clone, Copy, Debug, PartialEq, Eq, Structural)]
pub struct Vec2 {
    pub x: i64,
    pub y: i64,
}

impl ValueMapped for Vec2 {
    open spec fn point_spec(&self, i: int) -> (int, int) {
        (self.x as int, self.y as int)
    }

    fn extract_value(&self, i: i64) -> (p: Point) {
        Point { x: self.x, y: self.y }
    }
}

} // verus!
