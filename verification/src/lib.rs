//! A small verified plotting core.
//!
//! The library turns a collection of numeric-like values into an ordered
//! series of 2D points and offers two reductions over that series: an
//! equal-width histogram of the y-values and an unnormalized kernel-density
//! estimate. A mode dispatcher picks the reduction (or a passthrough) from a
//! render mode and attaches optional view-range hints, producing a plain
//! description of what a renderer should draw.
//!
//! All coordinates are fixed-point magnitudes: plain `i64` values in whatever
//! unit the caller quantized their data to. Bin edges and sample locations,
//! which arise from dividing the observed range into equal parts, are exact
//! rationals ([`point::Frac`]), so every contract here states the arithmetic
//! exactly rather than up to rounding.

use vstd::prelude::*;

pub mod adapt;
pub mod histogram;
pub mod kde;
pub mod minmax;
pub mod plan;
pub mod point;
pub mod series;

verus! {

} // verus!
