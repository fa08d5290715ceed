//! Building the point series from a collection.

use vstd::prelude::*;

use crate::adapt::ValueMapped;
use crate::point::Point;

verus! {

/// Wrapper type which plots the inner 1D or 2D collection.
///
/// Can be configured using [`crate::plan::PlottedAttributes`].
#[derive(Default)]
pub struct Plotted<T>(pub T);

/// The series a collection stands for: one point per element, in collection
/// order, each built by the element's own adapter with its zero-based
/// position.
pub open spec fn series_points<E: ValueMapped>(col: Seq<E>) -> Seq<Point> {
    Seq::new(col.len(), |i: int| Point {
        x: col[i].point_spec(i).0 as i64,
        y: col[i].point_spec(i).1 as i64,
    })
}

/// Builds the point series of a collection: one point per element, in input
/// order, with no sorting, deduplication or validation of coordinate order.
/// An empty collection yields an empty series; that is not an error.
pub fn build_series<E: ValueMapped>(collection: &Vec<E>) -> (series: Vec<Point>)
    requires
        collection@.len() <= i64::MAX,
    ensures
        series@.len() == collection@.len(),
        forall|i: int|
            0 <= i < collection@.len() ==> (#[trigger] series@[i].x as int, series@[i].y as int)
                == collection@[i].point_spec(i),
        series@ == series_points(collection@),
{
    let mut series: Vec<Point> = Vec::new();
    let mut j: usize = 0;
    while j < collection.len()
        invariant
            collection@.len() <= i64::MAX,
            j <= collection@.len(),
            series@.len() == j,
            forall|i: int|
                0 <= i < j ==> (#[trigger] series@[i].x as int, series@[i].y as int)
                    == collection@[i].point_spec(i),
        decreases collection@.len() - j,
    {
        let p = collection[j].extract_value(j as i64);
        series.push(p);
        j += 1;
    }
    proof {
        assert forall|i: int| 0 <= i < series@.len() implies series@[i] == series_points(
            collection@,
        )[i] by {
            assert((series@[i].x as int, series@[i].y as int) == collection@[i].point_spec(i));
        }
        assert(series@ =~= series_points(collection@));
    }
    series
}

/// The series builder is deterministic: any two series that satisfy its
/// contract on the same collection are equal, point for point. Repeated calls
/// with identical input therefore yield identical output.
pub proof fn lemma_build_series_deterministic<E: ValueMapped>(
    col: Seq<E>,
    s1: Seq<Point>,
    s2: Seq<Point>,
)
    requires
        s1 == series_points(col),
        s2 == series_points(col),
    ensures
        s1 == s2,
{
}

} // verus!
