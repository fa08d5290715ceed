//! The observed y-range of a series: the full scan both reducers start from.

use vstd::prelude::*;

use crate::point::Point;

verus! {

/// The y-values of a series, in order.
pub open spec fn ys_of(s: Seq<Point>) -> Seq<int> {
    s.map(|_i: int, p: Point| p.y as int)
}

/// The smaller of two integers.
pub open spec fn min2(a: int, b: int) -> int {
    if a <= b {
        a
    } else {
        b
    }
}

/// The larger of two integers.
pub open spec fn max2(a: int, b: int) -> int {
    if a >= b {
        a
    } else {
        b
    }
}

/// The minimum of a sequence (0 for an empty sequence, where it is never
/// used).
pub open spec fn min_of(s: Seq<int>) -> int
    decreases s.len(),
{
    if s.len() == 0 {
        0
    } else if s.len() == 1 {
        s[0]
    } else {
        min2(min_of(s.drop_last()), s.last())
    }
}

/// The maximum of a sequence (0 for an empty sequence, where it is never
/// used).
pub open spec fn max_of(s: Seq<int>) -> int
    decreases s.len(),
{
    if s.len() == 0 {
        0
    } else if s.len() == 1 {
        s[0]
    } else {
        max2(max_of(s.drop_last()), s.last())
    }
}

/// Every element of a sequence is at least its minimum.
pub proof fn lemma_min_of_le(s: Seq<int>, i: int)
    requires
        0 <= i < s.len(),
    ensures
        min_of(s) <= s[i],
    decreases s.len(),
{
    if s.len() > 1 && i < s.len() - 1 {
        lemma_min_of_le(s.drop_last(), i);
    }
}

/// Every element of a sequence is at most its maximum.
pub proof fn lemma_max_of_ge(s: Seq<int>, i: int)
    requires
        0 <= i < s.len(),
    ensures
        s[i] <= max_of(s),
    decreases s.len(),
{
    if s.len() > 1 && i < s.len() - 1 {
        lemma_max_of_ge(s.drop_last(), i);
    }
}

/// A non-empty sequence attains its maximum.
pub proof fn lemma_max_of_attained(s: Seq<int>)
    requires
        s.len() > 0,
    ensures
        exists|i: int| 0 <= i < s.len() && s[i] == max_of(s),
    decreases s.len(),
{
    if s.len() == 1 {
        assert(s[0] == max_of(s));
    } else if max_of(s) == s.last() {
        assert(s[s.len() - 1] == max_of(s));
    } else {
        lemma_max_of_attained(s.drop_last());
        let i = choose|i: int| 0 <= i < s.drop_last().len() && s.drop_last()[i] == max_of(
            s.drop_last(),
        );
        assert(s[i] == max_of(s));
    }
}

/// Scans a series once and returns the least and greatest y-value, or `None`
/// exactly when the series is empty.
pub fn get_minmax(values: &Vec<Point>) -> (r: Option<(i64, i64)>)
    ensures
        match r {
            Option::None => values@.len() == 0,
            Option::Some(mm) => values@.len() > 0 && mm.0 as int == min_of(ys_of(values@))
                && mm.1 as int == max_of(ys_of(values@)),
        },
{
    if values.len() == 0 {
        return None;
    }
    let ghost ys = ys_of(values@);
    let mut mn = values[0].y;
    let mut mx = values[0].y;
    proof {
        assert(ys.take(1) =~= seq![ys[0]]);
    }
    let mut j: usize = 1;
    while j < values.len()
        invariant
            1 <= j <= values@.len(),
            ys == ys_of(values@),
            mn as int == min_of(ys.take(j as int)),
            mx as int == max_of(ys.take(j as int)),
        decreases values@.len() - j,
    {
        let y = values[j].y;
        proof {
            assert(ys.take(j + 1).drop_last() =~= ys.take(j as int));
            assert(ys.take(j + 1).last() == ys[j as int]);
            assert(ys[j as int] == y as int);
        }
        if y < mn {
            mn = y;
        }
        if y > mx {
            mx = y;
        }
        j += 1;
    }
    proof {
        assert(ys.take(values@.len() as int) =~= ys);
    }
    Some((mn, mx))
}

} // verus!
