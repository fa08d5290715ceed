//! The histogram reducer: equal-width bins over the observed y-range of a
//! series, each counting the y-values that fall into it.

use vstd::prelude::*;

use vstd::arithmetic::div_mod::{lemma_div_multiples_vanish, lemma_div_pos_is_pos};
use vstd::arithmetic::mul::lemma_mul_inequality;
use vstd::pervasive::VecAdditionalExecFns;

use crate::minmax::{
    get_minmax,
    lemma_max_of_attained,
    lemma_max_of_ge,
    lemma_min_of_le,
    max_of,
    min_of,
    ys_of,
};
use crate::point::{lemma_mul_abs_bound, Frac, Point};

verus! {

/// One histogram bin: the half-open interval `[lower, upper)` — closed at
/// both ends for the last bin — and the number of y-values inside it.
#[derive(Clone, Copy, Debug, PartialEq, Eq, Structural)]
pub struct Bin {
    pub lower: Frac,
    pub upper: Frac,
    pub count: u32,
}

/// Which of the `nb` bins the value `y` falls in, over a range of width
/// `range` starting at `min`. Floor division would send the maximum value one
/// past the last bin; the clamp folds it back. When the range is empty (all
/// values equal), every value is the maximum, and goes to the last bin.
pub open spec fn bin_index(y: int, min: int, range: int, nb: int) -> int {
    if range <= 0 {
        nb - 1
    } else if (y - min) * nb / range < nb {
        (y - min) * nb / range
    } else {
        nb - 1
    }
}

/// How many values of `ys` fall in bin `k`.
pub open spec fn count_in(ys: Seq<int>, min: int, range: int, nb: int, k: int) -> nat
    decreases ys.len(),
{
    if ys.len() == 0 {
        0
    } else {
        count_in(ys.drop_last(), min, range, nb, k) + if bin_index(
            ys.last(),
            min,
            range,
            nb,
        ) == k {
            1nat
        } else {
            0nat
        }
    }
}

/// The counts of the first `k` bins, summed.
pub open spec fn total_count(ys: Seq<int>, min: int, range: int, nb: int, k: int) -> nat
    decreases k,
{
    if k <= 0 {
        0
    } else {
        total_count(ys, min, range, nb, k - 1) + count_in(ys, min, range, nb, k - 1)
    }
}

/// Bin `i` of the histogram of `ys` over `[min, min + range]`: edges are the
/// exact rationals `min + i * range / nb`, shared between neighbours.
pub open spec fn hist_bin_at(min: int, range: int, nb: int, ys: Seq<int>, i: int) -> Bin {
    Bin {
        lower: Frac { num: (min * nb + i * range) as i128, den: nb as u64 },
        upper: Frac { num: (min * nb + (i + 1) * range) as i128, den: nb as u64 },
        count: count_in(ys, min, range, nb, i) as u32,
    }
}

/// The whole histogram of `ys` with `nb` bins: empty when no bins are asked
/// for or there are no values, else one bin per index in ascending order.
pub open spec fn hist_bins(ys: Seq<int>, nb: int) -> Seq<Bin> {
    if nb <= 0 || ys.len() == 0 {
        Seq::empty()
    } else {
        let min = min_of(ys);
        let range = max_of(ys) - min;
        Seq::new(nb as nat, |i: int| hist_bin_at(min, range, nb, ys, i))
    }
}

/// A bin index is never out of range: for any value at or above the minimum
/// it lies in `[0, nb)`.
pub proof fn lemma_bin_index_in_range(y: int, min: int, range: int, nb: int)
    requires
        1 <= nb,
        min <= y,
    ensures
        0 <= bin_index(y, min, range, nb) < nb,
{
    if range > 0 {
        lemma_mul_inequality(0, y - min, nb);
        lemma_div_pos_is_pos((y - min) * nb, range);
    }
}

/// Histogram boundary: the maximum value itself is assigned to the last bin,
/// though plain floor indexing would place it one bin past the end.
pub proof fn lemma_max_in_last_bin(min: int, max: int, nb: int)
    requires
        1 <= nb,
        min <= max,
    ensures
        bin_index(max, min, max - min, nb) == nb - 1,
{
    let range = max - min;
    if range > 0 {
        lemma_div_multiples_vanish(nb, range);
        assert((max - min) * nb == range * nb);
    }
}

/// Appending a value raises the count of its bin by one and leaves every
/// other bin's count unchanged.
pub proof fn lemma_count_in_push(ys: Seq<int>, y: int, min: int, range: int, nb: int, k: int)
    ensures
        count_in(ys.push(y), min, range, nb, k) == count_in(ys, min, range, nb, k) + if bin_index(
            y,
            min,
            range,
            nb,
        ) == k {
            1nat
        } else {
            0nat
        },
{
    assert(ys.push(y).drop_last() =~= ys);
}

/// No bin counts more values than the sequence holds.
pub proof fn lemma_count_in_le_len(ys: Seq<int>, min: int, range: int, nb: int, k: int)
    ensures
        count_in(ys, min, range, nb, k) <= ys.len(),
    decreases ys.len(),
{
    if ys.len() > 0 {
        lemma_count_in_le_len(ys.drop_last(), min, range, nb, k);
    }
}

proof fn lemma_total_count_empty(min: int, range: int, nb: int, k: int)
    ensures
        total_count(Seq::empty(), min, range, nb, k) == 0,
    decreases k,
{
    if k > 0 {
        lemma_total_count_empty(min, range, nb, k - 1);
    }
}

proof fn lemma_total_count_push(ys: Seq<int>, y: int, min: int, range: int, nb: int, k: int)
    ensures
        total_count(ys.push(y), min, range, nb, k) == total_count(ys, min, range, nb, k)
            + if 0 <= bin_index(y, min, range, nb) < k {
            1nat
        } else {
            0nat
        },
    decreases k,
{
    if k > 0 {
        lemma_total_count_push(ys, y, min, range, nb, k - 1);
        lemma_count_in_push(ys, y, min, range, nb, k - 1);
    }
}

/// Histogram coverage: with at least one bin, every value at or above the
/// minimum falls in exactly one bin, so the bin counts sum to the length of
/// the sequence.
pub proof fn lemma_total_count_all(ys: Seq<int>, min: int, range: int, nb: int)
    requires
        1 <= nb,
        forall|i: int| 0 <= i < ys.len() ==> min <= ys[i],
    ensures
        total_count(ys, min, range, nb, nb) == ys.len(),
    decreases ys.len(),
{
    if ys.len() == 0 {
        lemma_total_count_empty(min, range, nb, nb);
        assert(ys =~= Seq::empty());
    } else {
        let ys0 = ys.drop_last();
        let y = ys.last();
        lemma_total_count_all(ys0, min, range, nb);
        lemma_bin_index_in_range(y, min, range, nb);
        lemma_total_count_push(ys0, y, min, range, nb, nb);
        assert(ys0.push(y) =~= ys);
    }
}

/// A bin counts at least one value of any sequence that holds a member of it.
proof fn lemma_count_in_positive(ys: Seq<int>, min: int, range: int, nb: int, i: int)
    requires
        0 <= i < ys.len(),
    ensures
        count_in(ys, min, range, nb, bin_index(ys[i], min, range, nb)) >= 1,
    decreases ys.len(),
{
    if i < ys.len() - 1 {
        lemma_count_in_positive(ys.drop_last(), min, range, nb, i);
    }
}

/// Histogram boundary, stated of the bins themselves: the last bin of a
/// non-empty histogram counts the maximum y-value, so it is never empty.
pub proof fn lemma_last_bin_counts_the_max(ys: Seq<int>, nb: int)
    requires
        1 <= nb <= u32::MAX,
        0 < ys.len() <= u32::MAX,
    ensures
        hist_bins(ys, nb)[nb - 1].count >= 1,
{
    let min = min_of(ys);
    let max = max_of(ys);
    lemma_max_of_attained(ys);
    let w = choose|w: int| 0 <= w < ys.len() && ys[w] == max;
    lemma_min_of_le(ys, w);
    lemma_max_in_last_bin(min, max, nb);
    lemma_count_in_positive(ys, min, max - min, nb, w);
    lemma_count_in_le_len(ys, min, max - min, nb, nb - 1);
}

/// The counts of a run of bins, summed.
pub open spec fn sum_counts(bins: Seq<Bin>) -> int
    decreases bins.len(),
{
    if bins.len() == 0 {
        0
    } else {
        sum_counts(bins.drop_last()) + bins.last().count
    }
}

proof fn lemma_sum_counts_prefix(ys: Seq<int>, nb: int, k: int)
    requires
        1 <= nb <= u32::MAX,
        0 < ys.len() <= u32::MAX,
        0 <= k <= nb,
    ensures
        sum_counts(hist_bins(ys, nb).take(k)) == total_count(
            ys,
            min_of(ys),
            max_of(ys) - min_of(ys),
            nb,
            k,
        ),
    decreases k,
{
    let min = min_of(ys);
    let range = max_of(ys) - min;
    let bins = hist_bins(ys, nb);
    if k > 0 {
        lemma_sum_counts_prefix(ys, nb, k - 1);
        lemma_count_in_le_len(ys, min, range, nb, k - 1);
        assert(bins.take(k).drop_last() =~= bins.take(k - 1));
        assert(bins.take(k).last() == bins[k - 1]);
    }
}

/// Histogram coverage, stated of the bins themselves: for a non-empty series
/// and a positive bin count, the bin counts sum to the number of y-values,
/// and each bin ends exactly where its neighbour begins — the intervals are
/// contiguous and non-overlapping.
pub proof fn lemma_histogram_coverage(ys: Seq<int>, nb: int)
    requires
        1 <= nb <= u32::MAX,
        0 < ys.len() <= u32::MAX,
    ensures
        sum_counts(hist_bins(ys, nb)) == ys.len(),
        forall|i: int|
            0 <= i < nb - 1 ==> (#[trigger] hist_bins(ys, nb)[i]).upper == hist_bins(
                ys,
                nb,
            )[i + 1].lower,
{
    let min = min_of(ys);
    let range = max_of(ys) - min;
    assert forall|i: int| 0 <= i < ys.len() implies min <= ys[i] by {
        lemma_min_of_le(ys, i);
    }
    lemma_total_count_all(ys, min, range, nb);
    lemma_sum_counts_prefix(ys, nb, nb);
    assert(hist_bins(ys, nb).take(nb) =~= hist_bins(ys, nb));
}

/// Partitions the y-values of a series into `num_bins` equal-width bins over
/// the observed y-range and counts membership. Returns the bins in ascending
/// order of their lower edge, one per configured bin even when its count is
/// zero. An empty series or a zero bin count yields an empty result.
pub fn calc_histogram_bins(values: &Vec<Point>, num_bins: u32) -> (bins: Vec<Bin>)
    requires
        values@.len() <= u32::MAX,
    ensures
        bins@ == hist_bins(ys_of(values@), num_bins as int),
        bins@.len() == if num_bins == 0 || values@.len() == 0 {
            0int
        } else {
            num_bins as int
        },
{
    let ghost ys = ys_of(values@);
    if num_bins == 0 {
        proof {
            assert(hist_bins(ys, 0) =~= Seq::<Bin>::empty());
        }
        return Vec::new();
    }
    let mm = get_minmax(values);
    if mm.is_none() {
        proof {
            assert(hist_bins(ys, num_bins as int) =~= Seq::<Bin>::empty());
        }
        return Vec::new();
    }
    let (mn, mx) = mm.unwrap();
    let ghost gmin = mn as int;
    let ghost grange = mx as int - mn as int;
    proof {
        lemma_min_of_le(ys, 0);
        lemma_max_of_ge(ys, 0);
    }
    let nb = num_bins as usize;
    let nbw = num_bins as i128;
    let range: i128 = mx as i128 - mn as i128;
    proof {
        lemma_mul_abs_bound(gmin, nb as int, 0x8000_0000_0000_0000, 0x1_0000_0000);
    }
    let base: i128 = mn as i128 * nbw;
    let mut bins: Vec<Bin> = Vec::new();
    let mut i: usize = 0;
    while i < nb
        invariant
            1 <= nb <= u32::MAX,
            num_bins as int == nb as int,
            mn as int == gmin,
            nbw == nb as i128,
            base == gmin * nb,
            range == grange,
            0 <= grange,
            -0x8000_0000_0000_0000 <= gmin <= 0x7fff_ffff_ffff_ffff,
            grange <= 0xffff_ffff_ffff_ffff,
            i <= nb,
            bins@.len() == i,
            forall|k: int|
                0 <= k < i ==> #[trigger] bins@[k] == (Bin {
                    lower: Frac { num: (gmin * nb + k * grange) as i128, den: nb as u64 },
                    upper: Frac { num: (gmin * nb + (k + 1) * grange) as i128, den: nb as u64 },
                    count: 0u32,
                }),
        decreases nb - i,
    {
        proof {
            lemma_mul_abs_bound(gmin, nb as int, 0x8000_0000_0000_0000, 0x1_0000_0000);
            lemma_mul_abs_bound(i as int, grange, 0x1_0000_0000, 0x1_0000_0000_0000_0000);
            lemma_mul_abs_bound(i + 1, grange, 0x2_0000_0000, 0x1_0000_0000_0000_0000);
        }
        let lower_num: i128 = base + (i as i128) * range;
        let upper_num: i128 = base + (i as i128 + 1) * range;
        bins.push(
            Bin {
                lower: Frac { num: lower_num, den: num_bins as u64 },
                upper: Frac { num: upper_num, den: num_bins as u64 },
                count: 0,
            },
        );
        i += 1;
    }
    proof {
        lemma_total_count_empty(gmin, grange, nb as int, nb as int);
    }
    let mut j: usize = 0;
    while j < values.len()
        invariant
            1 <= nb <= u32::MAX,
            num_bins as int == nb as int,
            mn as int == gmin,
            mx as int == gmin + grange,
            values@.len() <= u32::MAX,
            nbw == nb as i128,
            ys == ys_of(values@),
            base == gmin * nb,
            range == grange,
            0 <= grange,
            gmin == min_of(ys),
            gmin + grange == max_of(ys),
            -0x8000_0000_0000_0000 <= gmin <= 0x7fff_ffff_ffff_ffff,
            grange <= 0xffff_ffff_ffff_ffff,
            j <= values@.len(),
            bins@.len() == nb,
            forall|k: int|
                0 <= k < nb ==> #[trigger] bins@[k] == (Bin {
                    lower: Frac { num: (gmin * nb + k * grange) as i128, den: nb as u64 },
                    upper: Frac { num: (gmin * nb + (k + 1) * grange) as i128, den: nb as u64 },
                    count: count_in(ys.take(j as int), gmin, grange, nb as int, k) as u32,
                }),
        decreases values@.len() - j,
    {
        let y = values[j].y;
        proof {
            assert(ys[j as int] == y as int);
            lemma_min_of_le(ys, j as int);
            lemma_max_of_ge(ys, j as int);
            lemma_bin_index_in_range(y as int, gmin, grange, nb as int);
        }
        let idx: usize = if range == 0 {
            nb - 1
        } else {
            let diffi: i128 = y as i128 - mn as i128;
            proof {
                assert(0 <= diffi <= range);
                lemma_mul_abs_bound(
                    diffi as int,
                    nb as int,
                    0x1_0000_0000_0000_0000,
                    0x1_0000_0000,
                );
            }
            let diff: u128 = diffi as u128;
            let prod: u128 = diff * (num_bins as u128);
            let q: u128 = prod / (range as u128);
            proof {
                lemma_div_pos_is_pos(prod as int, grange);
                assert(prod as int == (y as int - gmin) * (nb as int));
                assert(q as int == (y as int - gmin) * (nb as int) / grange);
            }
            if q >= num_bins as u128 {
                nb - 1
            } else {
                q as usize
            }
        };
        proof {
            assert(idx as int == bin_index(y as int, gmin, grange, nb as int));
            lemma_count_in_le_len(ys.take(j as int), gmin, grange, nb as int, idx as int);
        }
        let b = bins[idx];
        bins.set(idx, Bin { lower: b.lower, upper: b.upper, count: b.count + 1 });
        proof {
            assert(ys.take(j + 1).drop_last() =~= ys.take(j as int));
            assert forall|k: int| 0 <= k < nb implies count_in(
                ys.take(j + 1),
                gmin,
                grange,
                nb as int,
                k,
            ) == count_in(ys.take(j as int), gmin, grange, nb as int, k) + if k == idx {
                1nat
            } else {
                0nat
            } by {
                assert(ys.take(j + 1).last() == y as int);
            }
        }
        j += 1;
    }
    proof {
        assert(ys.take(values@.len() as int) =~= ys);
        assert forall|k: int| 0 <= k < nb implies bins@[k] == hist_bins(ys, num_bins as int)[k] by {
            lemma_count_in_le_len(ys, gmin, grange, nb as int, k);
        }
        assert(bins@ =~= hist_bins(ys, num_bins as int));
    }
    bins
}

/// The histogram reducer is deterministic: any two results that satisfy its
/// contract on the same series are equal, bin for bin.
pub proof fn lemma_histogram_deterministic(ys: Seq<int>, nb: int, b1: Seq<Bin>, b2: Seq<Bin>)
    requires
        b1 == hist_bins(ys, nb),
        b2 == hist_bins(ys, nb),
    ensures
        b1 == b2,
{
}

} // verus!
