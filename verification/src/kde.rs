//! The kernel-density reducer: convolves the y-values of a series with a
//! caller-supplied kernel at equally spaced sample locations across the
//! observed y-range, producing an unnormalized smoothed curve.

use vstd::prelude::*;

use vstd::arithmetic::div_mod::{
    lemma_div_is_ordered,
    lemma_div_multiples_vanish,
    lemma_div_pos_is_pos,
};
use vstd::arithmetic::mul::{lemma_mul_inequality, lemma_mul_strict_inequality};
use vstd::pervasive::VecAdditionalExecFns;

use crate::minmax::{get_minmax, lemma_max_of_ge, lemma_min_of_le, max_of, min_of, ys_of};
use crate::point::{lemma_mul_abs_bound, Frac, Point};

verus! {

/// No kernel may weigh a single point more than this, so that summing one
/// weight per point per sample stays inside `i128` for any series length.
pub const MAX_KERNEL_WEIGHT: i64 = 0x4000_0000;

/// A kernel: a weighting function of the distance between a y-value and a
/// sample location, scaled by the observed range.
pub trait Kernel {
    /// The weight of a point at exact distance `delta_num / delta_den` from
    /// the sample location, over a y-range of width `range`.
    spec fn weight(&self, delta_num: int, delta_den: int, range: int) -> int;

    /// Evaluates the kernel. The bounds on the arguments are what the
    /// reducer's own arithmetic guarantees; the bound on the result is what
    /// keeps the reducer's accumulators in range.
    fn eval(&self, delta_num: i128, delta_den: i128, range: i128) -> (w: i64)
        requires
            0 < delta_den <= 0x4_0000_0000,
            -0x1000_0000_0000_0000_0000_0000_0000 <= delta_num
                <= 0x1000_0000_0000_0000_0000_0000_0000,
            0 <= range <= 0xffff_ffff_ffff_ffff,
        ensures
            w as int == self.weight(delta_num as int, delta_den as int, range as int),
            0 <= w <= MAX_KERNEL_WEIGHT,
    ;
}

/// One sample of the estimated density: a location `x` on the y-axis of the
/// series and the accumulated kernel response `y` there (a plain sum of
/// weights, not normalized to a probability density).
#[derive(Clone, Copy, Debug, PartialEq, Eq, Structural)]
pub struct KdeSample {
    pub x: Frac,
    pub y: i128,
}

/// Sample location `i` of `ns`: the range is cut into `ns` equal steps and
/// each location sits at a step's center, half a step in from the edges.
pub open spec fn kde_x_at(min: int, range: int, ns: int, i: int) -> Frac {
    Frac { num: (2 * ns * min + (2 * i + 1) * range) as i128, den: (2 * ns) as u64 }
}

/// The accumulated kernel response at one sample location: the sum over all
/// y-values of the kernel's weight at their distance from the location.
pub open spec fn kde_sum<K: Kernel>(
    kernel: &K,
    ys: Seq<int>,
    x_num: int,
    x_den: int,
    range: int,
) -> int
    decreases ys.len(),
{
    if ys.len() == 0 {
        0
    } else {
        kde_sum(kernel, ys.drop_last(), x_num, x_den, range) + kernel.weight(
            ys.last() * x_den - x_num,
            x_den,
            range,
        )
    }
}

/// The whole kernel-density estimate of `ys` with `ns` samples: empty when no
/// samples are asked for or there are no values, else one sample per location
/// in ascending x order.
pub open spec fn kde_samples<K: Kernel>(kernel: &K, ys: Seq<int>, ns: int) -> Seq<KdeSample> {
    if ns <= 0 || ys.len() == 0 {
        Seq::empty()
    } else {
        let min = min_of(ys);
        let range = max_of(ys) - min;
        Seq::new(
            ns as nat,
            |i: int| KdeSample {
                x: kde_x_at(min, range, ns, i),
                y: kde_sum(
                    kernel,
                    ys,
                    kde_x_at(min, range, ns, i).num as int,
                    2 * ns,
                    range,
                ) as i128,
            },
        )
    }
}

/// Sample locations ascend strictly with their index whenever the observed
/// range is not degenerate (with all y-values equal every location coincides).
pub proof fn lemma_kde_x_ascending(min: int, range: int, ns: int, i: int)
    requires
        1 <= ns <= 0x1_0000_0000,
        -0x8000_0000_0000_0000 <= min <= 0x7fff_ffff_ffff_ffff,
        0 < range <= 0xffff_ffff_ffff_ffff,
        0 <= i < ns - 1,
    ensures
        kde_x_at(min, range, ns, i).lt(kde_x_at(min, range, ns, i + 1)),
{
    lemma_mul_abs_bound(2 * ns, min, 0x2_0000_0000, 0x8000_0000_0000_0000);
    lemma_mul_abs_bound(2 * i + 1, range, 0x2_0000_0000, 0x1_0000_0000_0000_0000);
    lemma_mul_abs_bound(2 * i + 3, range, 0x2_0000_0000, 0x1_0000_0000_0000_0000);
    let a = 2 * ns * min + (2 * i + 1) * range;
    let b = 2 * ns * min + (2 * (i + 1) + 1) * range;
    assert((2 * (i + 1) + 1) * range == (2 * i + 1) * range + 2 * range) by (nonlinear_arith);
    assert(a < b);
    lemma_mul_strict_inequality(a, b, 2 * ns);
}

/// Every sample location lies within the observed `[min, max]` y-range.
pub proof fn lemma_kde_x_within_range(min: int, range: int, ns: int, i: int)
    requires
        1 <= ns <= 0x1_0000_0000,
        -0x8000_0000_0000_0000 <= min <= 0x7fff_ffff_ffff_ffff,
        0 <= range <= 0xffff_ffff_ffff_ffff,
        0 <= i < ns,
    ensures
        kde_x_at(min, range, ns, i).ge_int(min),
        kde_x_at(min, range, ns, i).le_int(min + range),
{
    lemma_mul_abs_bound(2 * ns, min, 0x2_0000_0000, 0x8000_0000_0000_0000);
    lemma_mul_abs_bound(2 * i + 1, range, 0x2_0000_0000, 0x1_0000_0000_0000_0000);
    lemma_mul_inequality(0, 2 * i + 1, range);
    lemma_mul_inequality(2 * i + 1, 2 * ns, range);
    assert((min + range) * (2 * ns) == 2 * ns * min + 2 * ns * range) by (nonlinear_arith);
    assert(min * (2 * ns) == 2 * ns * min) by (nonlinear_arith);
}

/// The samples of a kernel-density estimate come in strictly ascending x
/// order whenever the observed y-range is not degenerate: with all y-values
/// equal, every sample location coincides instead.
pub proof fn lemma_kde_samples_ascending<K: Kernel>(kernel: &K, ys: Seq<int>, ns: int, i: int)
    requires
        1 <= ns <= 0x1_0000_0000,
        0 < ys.len(),
        -0x8000_0000_0000_0000 <= min_of(ys),
        min_of(ys) < max_of(ys) <= 0x7fff_ffff_ffff_ffff,
        0 <= i < ns - 1,
    ensures
        kde_samples(kernel, ys, ns)[i].x.lt(kde_samples(kernel, ys, ns)[i + 1].x),
{
    lemma_kde_x_ascending(min_of(ys), max_of(ys) - min_of(ys), ns, i);
}

/// Every sample of a kernel-density estimate lies within the observed
/// `[min, max]` y-range of the series.
pub proof fn lemma_kde_samples_within_range<K: Kernel>(kernel: &K, ys: Seq<int>, ns: int, i: int)
    requires
        1 <= ns <= 0x1_0000_0000,
        0 < ys.len(),
        -0x8000_0000_0000_0000 <= min_of(ys),
        min_of(ys) <= max_of(ys) <= 0x7fff_ffff_ffff_ffff,
        0 <= i < ns,
    ensures
        kde_samples(kernel, ys, ns)[i].x.ge_int(min_of(ys)),
        kde_samples(kernel, ys, ns)[i].x.le_int(max_of(ys)),
{
    lemma_kde_x_within_range(min_of(ys), max_of(ys) - min_of(ys), ns, i);
}

/// Convolves the y-values of a series with `kernel` at `num_samples` equally
/// spaced sample locations across the observed y-range. Returns the samples
/// in ascending x order, each carrying the unnormalized sum of kernel
/// responses. An empty series or a zero sample count yields an empty result.
pub fn calc_kde<K: Kernel>(values: &Vec<Point>, num_samples: u32, kernel: &K) -> (samples: Vec<
    KdeSample,
>)
    ensures
        samples@ == kde_samples(kernel, ys_of(values@), num_samples as int),
        samples@.len() == if num_samples == 0 || values@.len() == 0 {
            0int
        } else {
            num_samples as int
        },
{
    let ghost ys = ys_of(values@);
    if num_samples == 0 {
        proof {
            assert(kde_samples(kernel, ys, 0) =~= Seq::<KdeSample>::empty());
        }
        return Vec::new();
    }
    let mm = get_minmax(values);
    if mm.is_none() {
        proof {
            assert(kde_samples(kernel, ys, num_samples as int) =~= Seq::<KdeSample>::empty());
        }
        return Vec::new();
    }
    let (mn, mx) = mm.unwrap();
    let ghost gmin = mn as int;
    let ghost grange = mx as int - mn as int;
    proof {
        lemma_min_of_le(ys, 0);
        lemma_max_of_ge(ys, 0);
    }
    let ns = num_samples as usize;
    let dd: i128 = 2 * (num_samples as i128);
    let ddu: u64 = 2 * (num_samples as u64);
    let range: i128 = mx as i128 - mn as i128;
    proof {
        lemma_mul_abs_bound(2 * (num_samples as int), gmin, 0x2_0000_0000, 0x8000_0000_0000_0000);
    }
    let base: i128 = dd * (mn as i128);
    let mut samples: Vec<KdeSample> = Vec::new();
    let mut i: usize = 0;
    while i < ns
        invariant
            1 <= ns <= u32::MAX,
            num_samples as int == ns as int,
            mn as int == gmin,
            dd == 2 * (ns as i128),
            ddu as int == 2 * (ns as int),
            base == 2 * (ns as int) * gmin,
            range == grange,
            0 <= grange <= 0xffff_ffff_ffff_ffff,
            -0x8000_0000_0000_0000 <= gmin <= 0x7fff_ffff_ffff_ffff,
            i <= ns,
            samples@.len() == i,
            forall|k: int|
                0 <= k < i ==> #[trigger] samples@[k] == (KdeSample {
                    x: kde_x_at(gmin, grange, ns as int, k),
                    y: 0i128,
                }),
        decreases ns - i,
    {
        proof {
            lemma_mul_abs_bound(
                2 * (ns as int),
                gmin,
                0x2_0000_0000,
                0x8000_0000_0000_0000,
            );
            lemma_mul_abs_bound(
                2 * (i as int) + 1,
                grange,
                0x2_0000_0000,
                0x1_0000_0000_0000_0000,
            );
        }
        let x_num: i128 = base + (2 * (i as i128) + 1) * range;
        samples.push(KdeSample { x: Frac { num: x_num, den: ddu }, y: 0 });
        i += 1;
    }
    let total = values.len();
    let mut j: usize = 0;
    while j < values.len()
        invariant
            1 <= ns <= u32::MAX,
            num_samples as int == ns as int,
            mn as int == gmin,
            mx as int == gmin + grange,
            values@.len() == total as int,
            values@.len() <= 0xffff_ffff_ffff_ffff,
            ys == ys_of(values@),
            dd == 2 * (ns as i128),
            ddu as int == 2 * (ns as int),
            range == grange,
            0 <= grange <= 0xffff_ffff_ffff_ffff,
            gmin == min_of(ys),
            gmin + grange == max_of(ys),
            -0x8000_0000_0000_0000 <= gmin <= 0x7fff_ffff_ffff_ffff,
            j <= values@.len(),
            samples@.len() == ns,
            forall|k: int|
                0 <= k < ns ==> (#[trigger] samples@[k]).x == kde_x_at(
                    gmin,
                    grange,
                    ns as int,
                    k,
                ),
            forall|k: int|
                0 <= k < ns ==> (#[trigger] samples@[k]).y as int == kde_sum(
                    kernel,
                    ys.take(j as int),
                    samples@[k].x.num as int,
                    2 * (ns as int),
                    grange,
                ),
            forall|k: int|
                0 <= k < ns ==> 0 <= (#[trigger] samples@[k]).y <= (j as int) * (
                MAX_KERNEL_WEIGHT as int),
        decreases values@.len() - j,
    {
        let y = values[j].y;
        proof {
            assert(ys[j as int] == y as int);
            lemma_min_of_le(ys, j as int);
            lemma_max_of_ge(ys, j as int);
        }
        let mut i: usize = 0;
        while i < ns
            invariant
                1 <= ns <= u32::MAX,
                num_samples as int == ns as int,
                mn as int == gmin,
                ys == ys_of(values@),
                dd == 2 * (ns as i128),
                ddu as int == 2 * (ns as int),
                range == grange,
                0 <= grange <= 0xffff_ffff_ffff_ffff,
                -0x8000_0000_0000_0000 <= gmin <= 0x7fff_ffff_ffff_ffff,
                j < values@.len(),
                values@.len() <= 0xffff_ffff_ffff_ffff,
                y as int == ys[j as int],
                i <= ns,
                samples@.len() == ns,
                forall|k: int|
                    0 <= k < ns ==> (#[trigger] samples@[k]).x == kde_x_at(
                        gmin,
                        grange,
                        ns as int,
                        k,
                    ),
                forall|k: int|
                    i <= k < ns ==> (#[trigger] samples@[k]).y as int == kde_sum(
                        kernel,
                        ys.take(j as int),
                        samples@[k].x.num as int,
                        2 * (ns as int),
                        grange,
                    ),
                forall|k: int|
                    0 <= k < i ==> (#[trigger] samples@[k]).y as int == kde_sum(
                        kernel,
                        ys.take(j + 1),
                        samples@[k].x.num as int,
                        2 * (ns as int),
                        grange,
                    ),
                forall|k: int|
                    i <= k < ns ==> 0 <= (#[trigger] samples@[k]).y <= (j as int) * (
                    MAX_KERNEL_WEIGHT as int),
                forall|k: int|
                    0 <= k < i ==> 0 <= (#[trigger] samples@[k]).y <= (j + 1) * (
                    MAX_KERNEL_WEIGHT as int),
            decreases ns - i,
        {
            let s = samples[i];
            proof {
                lemma_mul_abs_bound(y as int, 2 * (ns as int), 0x8000_0000_0000_0000, 0x2_0000_0000);
                lemma_mul_abs_bound(
                    2 * (ns as int),
                    gmin,
                    0x2_0000_0000,
                    0x8000_0000_0000_0000,
                );
                lemma_mul_abs_bound(
                    2 * (i as int) + 1,
                    grange,
                    0x2_0000_0000,
                    0x1_0000_0000_0000_0000,
                );
                lemma_mul_inequality(j as int, values@.len() as int, MAX_KERNEL_WEIGHT as int);
                lemma_mul_abs_bound(
                    values@.len() as int,
                    MAX_KERNEL_WEIGHT as int,
                    0x1_0000_0000_0000_0000,
                    MAX_KERNEL_WEIGHT as int,
                );
            }
            let delta_num: i128 = (y as i128) * dd - s.x.num;
            let w = kernel.eval(delta_num, dd, range);
            samples.set(i, KdeSample { x: s.x, y: s.y + w as i128 });
            proof {
                assert(ys.take(j + 1).drop_last() =~= ys.take(j as int));
                assert(ys.take(j + 1).last() == y as int);
            }
            i += 1;
        }
        j += 1;
    }
    proof {
        assert(ys.take(values@.len() as int) =~= ys);
        assert forall|k: int| 0 <= k < ns implies samples@[k] == kde_samples(
            kernel,
            ys,
            num_samples as int,
        )[k] by {
            assert(samples@[k].x == kde_x_at(gmin, grange, ns as int, k));
        }
        assert(samples@ =~= kde_samples(kernel, ys, num_samples as int));
    }
    samples
}

/// The KDE reducer is deterministic: any two results that satisfy its
/// contract on the same series and kernel are equal, sample for sample.
pub proof fn lemma_kde_deterministic<K: Kernel>(
    kernel: &K,
    ys: Seq<int>,
    ns: int,
    s1: Seq<KdeSample>,
    s2: Seq<KdeSample>,
)
    requires
        s1 == kde_samples(kernel, ys, ns),
        s2 == kde_samples(kernel, ys, ns),
    ensures
        s1 == s2,
{
}

/// The default kernel: a triangular bump with bandwidth one twentieth of the
/// observed range, scaled so a point at the sample location itself weighs
/// [`KERNEL_SCALE`]. A point further than the bandwidth weighs nothing; in
/// the degenerate zero-width range only exact coincidence weighs anything.
#[derive(Clone, Copy, Debug, PartialEq, Eq, Structural)]
pub struct TriangularKernel;

/// The weight of a point exactly at a sample location.
pub const KERNEL_SCALE: i64 = 1_000_000;

impl Kernel for TriangularKernel {
    open spec fn weight(&self, delta_num: int, delta_den: int, range: int) -> int {
        let a = 20 * (if delta_num < 0 {
            -delta_num
        } else {
            delta_num
        });
        let b = range * delta_den;
        if range <= 0 {
            if delta_num == 0 {
                KERNEL_SCALE as int
            } else {
                0
            }
        } else if a >= b {
            0
        } else {
            KERNEL_SCALE * (b - a) / b
        }
    }

    fn eval(&self, delta_num: i128, delta_den: i128, range: i128) -> (w: i64) {
        if range <= 0 {
            if delta_num == 0 {
                KERNEL_SCALE
            } else {
                0
            }
        } else {
            let a: i128 = 20 * (if delta_num < 0 {
                -delta_num
            } else {
                delta_num
            });
            proof {
                lemma_mul_abs_bound(
                    range as int,
                    delta_den as int,
                    0xffff_ffff_ffff_ffff,
                    0x4_0000_0000,
                );
            }
            let b: i128 = range * delta_den;
            if a >= b {
                0
            } else {
                proof {
                    lemma_mul_abs_bound(
                        KERNEL_SCALE as int,
                        b as int - a as int,
                        KERNEL_SCALE as int,
                        0x4_0000_0000_0000_0000_0000_0000,
                    );
                }
                let q: u128 = ((KERNEL_SCALE as u128) * ((b - a) as u128)) / (b as u128);
                proof {
                    lemma_div_pos_is_pos((KERNEL_SCALE as int) * (b as int - a as int), b as int);
                    lemma_mul_inequality(
                        b as int - a as int,
                        b as int,
                        KERNEL_SCALE as int,
                    );
                    assert((b as int - a as int) * (KERNEL_SCALE as int) == (KERNEL_SCALE as int) * (
                    b as int - a as int)) by (nonlinear_arith);
                    assert((b as int) * (KERNEL_SCALE as int) == (KERNEL_SCALE as int) * (
                    b as int)) by (nonlinear_arith);
                    lemma_div_is_ordered(
                        (KERNEL_SCALE as int) * (b as int - a as int),
                        (KERNEL_SCALE as int) * (b as int),
                        b as int,
                    );
                    lemma_div_multiples_vanish(KERNEL_SCALE as int, b as int);
                }
                q as i64
            }
        }
    }
}

} // verus!
