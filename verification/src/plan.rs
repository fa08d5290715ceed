//! The mode dispatcher: which reduction runs, what the renderer is asked to
//! draw, and which view-range hints it receives.

use vstd::prelude::*;

use crate::adapt::ValueMapped;
use crate::histogram::{calc_histogram_bins, hist_bins, sum_counts, Bin};
use crate::kde::{calc_kde, kde_samples, KdeSample, TriangularKernel};
use crate::minmax::ys_of;
use crate::point::Point;
use crate::series::{build_series, series_points, Plotted};

verus! {

/// How a series is visually encoded. The modes are mutually exclusive by
/// construction: a combination is not expressible.
#[derive(Clone, Copy, Debug, PartialEq, Eq, Structural)]
pub enum RenderMode {
    /// A connected line through the raw series.
    Line,
    /// One dot per raw point.
    Scatter,
    /// Filled bars over the histogram of the y-values.
    Histogram,
    /// A connected line through the kernel-density samples.
    Kde,
}

/// The attributes for [`Plotted`]: the render mode, and four independent
/// optional view-range hints. A hint asks the renderer to extend the visible
/// range to include the value; it never filters or clips the data.
#[derive(Clone, Copy, Debug, PartialEq)]
pub struct PlottedAttributes {
    pub mode: RenderMode,
    pub min_x: Option<i64>,
    pub max_x: Option<i64>,
    pub min_y: Option<i64>,
    pub max_y: Option<i64>,
}

impl Default for PlottedAttributes {
    /// A plain line plot with no view-range hints.
    fn default() -> (attrs: PlottedAttributes)
        ensures
            attrs.mode == RenderMode::Line,
            attrs.min_x.is_none(),
            attrs.max_x.is_none(),
            attrs.min_y.is_none(),
            attrs.max_y.is_none(),
    {
        PlottedAttributes {
            mode: RenderMode::Line,
            min_x: None,
            max_x: None,
            min_y: None,
            max_y: None,
        }
    }
}

/// How many bins the dispatcher asks the histogram reducer for.
pub const HISTOGRAM_BIN_COUNT: u32 = 21;

/// How many sample locations the dispatcher asks the KDE reducer for.
pub const KDE_SAMPLE_COUNT: u32 = 100;

/// What a renderer is asked to draw.
#[derive(Debug, PartialEq)]
pub enum RenderPrimitive {
    /// A connected line through these points.
    Line(Vec<Point>),
    /// One dot per point.
    Scatter(Vec<Point>),
    /// One filled rectangle per bin, spanning its interval horizontally and
    /// its count vertically.
    Bars(Vec<Bin>),
    /// A connected line through the density samples.
    Curve(Vec<KdeSample>),
}

/// The full answer of the dispatcher: the primitive to draw and the
/// view-range hints, passed through unchanged from the attributes.
#[derive(Debug, PartialEq)]
pub struct RenderPlan {
    pub primitive: RenderPrimitive,
    pub min_x: Option<i64>,
    pub max_x: Option<i64>,
    pub min_y: Option<i64>,
    pub max_y: Option<i64>,
}

/// The bins that remain once those counting nothing are dropped, in their
/// original order.
pub open spec fn nonzero_bins(bins: Seq<Bin>) -> Seq<Bin>
    decreases bins.len(),
{
    if bins.len() == 0 {
        Seq::empty()
    } else {
        let rest = nonzero_bins(bins.drop_last());
        if bins.last().count != 0 {
            rest.push(bins.last())
        } else {
            rest
        }
    }
}

/// Discarding the bins that count nothing loses nothing: the remaining
/// counts still sum to the whole — for a histogram, to the series length.
pub proof fn lemma_nonzero_bins_keep_the_counts(bins: Seq<Bin>)
    ensures
        sum_counts(nonzero_bins(bins)) == sum_counts(bins),
    decreases bins.len(),
{
    if bins.len() > 0 {
        lemma_nonzero_bins_keep_the_counts(bins.drop_last());
        let rest = nonzero_bins(bins.drop_last());
        if bins.last().count != 0 {
            assert(rest.push(bins.last()).drop_last() =~= rest);
        }
    }
}

/// Drops the bins whose count is zero, keeping the rest in order.
fn filter_nonzero_bins(bins: Vec<Bin>) -> (kept: Vec<Bin>)
    ensures
        kept@ == nonzero_bins(bins@),
{
    let mut kept: Vec<Bin> = Vec::new();
    let mut i: usize = 0;
    while i < bins.len()
        invariant
            i <= bins@.len(),
            kept@ == nonzero_bins(bins@.take(i as int)),
        decreases bins@.len() - i,
    {
        let b = bins[i];
        proof {
            assert(bins@.take(i + 1).drop_last() =~= bins@.take(i as int));
            assert(bins@.take(i + 1).last() == bins@[i as int]);
        }
        if b.count != 0 {
            kept.push(b);
        }
        i += 1;
    }
    proof {
        assert(bins@.take(bins@.len() as int) =~= bins@);
    }
    kept
}

impl<E: ValueMapped> Plotted<Vec<E>> {
    /// Builds the series of the wrapped collection and dispatches on the
    /// render mode: the histogram reducer with its fixed bin count (bins that
    /// count nothing are discarded), the KDE reducer with its fixed sample
    /// count and the default kernel, or the raw series as a line or scatter
    /// primitive. The view-range hints pass through untouched. Everything is
    /// re-derived from the current collection on every call; nothing is
    /// cached or mutated.
    pub fn render_plan(&self, options: &PlottedAttributes) -> (plan: RenderPlan)
        requires
            self.0@.len() <= u32::MAX,
        ensures
            plan.min_x == options.min_x,
            plan.max_x == options.max_x,
            plan.min_y == options.min_y,
            plan.max_y == options.max_y,
            match options.mode {
                RenderMode::Line => plan.primitive matches RenderPrimitive::Line(ps) && ps@
                    == series_points(self.0@),
                RenderMode::Scatter => plan.primitive matches RenderPrimitive::Scatter(ps) && ps@
                    == series_points(self.0@),
                RenderMode::Histogram => plan.primitive matches RenderPrimitive::Bars(bs) && bs@
                    == nonzero_bins(
                    hist_bins(ys_of(series_points(self.0@)), HISTOGRAM_BIN_COUNT as int),
                ),
                RenderMode::Kde => plan.primitive matches RenderPrimitive::Curve(ss) && ss@
                    == kde_samples(
                    &TriangularKernel,
                    ys_of(series_points(self.0@)),
                    KDE_SAMPLE_COUNT as int,
                ),
            },
    {
        let series = build_series(&self.0);
        let primitive = match options.mode {
            RenderMode::Line => RenderPrimitive::Line(series),
            RenderMode::Scatter => RenderPrimitive::Scatter(series),
            RenderMode::Histogram => {
                let bins = calc_histogram_bins(&series, HISTOGRAM_BIN_COUNT);
                RenderPrimitive::Bars(filter_nonzero_bins(bins))
            },
            RenderMode::Kde => RenderPrimitive::Curve(
                calc_kde(&series, KDE_SAMPLE_COUNT, &TriangularKernel),
            ),
        };
        RenderPlan {
            primitive,
            min_x: options.min_x,
            max_x: options.max_x,
            min_y: options.min_y,
            max_y: options.max_y,
        }
    }
}

} // verus!
