//! Order statistics over fixed-point samples: median and interpolated
//! percentile.

use crate::fixed::{Fixed, SCALE};
use vstd::prelude::*;
use vstd::relations::{sorted_by, total_ordering};
use vstd::seq_lib::{lemma_multiset_commutative, lemma_sorted_unique};

verus! {

/// The order on samples: by value.
pub open spec fn leq() -> spec_fn(Fixed, Fixed) -> bool {
    |a: Fixed, b: Fixed| a.millionths <= b.millionths
}

/// `s` is in ascending order.
pub open spec fn ascending(s: Seq<Fixed>) -> bool {
    forall|i: int, j: int| 0 <= i <= j < s.len() ==> s[i].millionths <= s[j].millionths
}

/// The samples of `s` in ascending order.
pub open spec fn sorted(s: Seq<Fixed>) -> Seq<Fixed> {
    s.sort_by(leq())
}

/// The integer midpoint of two values, rounded toward negative infinity.
pub open spec fn midpoint_of(lo: Fixed, hi: Fixed) -> Fixed {
    Fixed { millionths: ((lo.millionths + hi.millionths) / 2) as i64 }
}

/// The median of `s`: the middle sample in ascending order for an odd
/// count, the midpoint of the two middle samples for an even count, nothing
/// for no samples.
pub open spec fn median_of(s: Seq<Fixed>) -> Option<Fixed> {
    if s.len() == 0 {
        None
    } else if s.len() % 2 == 1 {
        Some(sorted(s)[s.len() as int / 2])
    } else {
        Some(midpoint_of(sorted(s)[s.len() as int / 2 - 1], sorted(s)[s.len() as int / 2]))
    }
}

/// The value at position `pos / 1_000_000` of the ascending sequence `t`,
/// interpolated linearly toward the next sample by the remainder and rounded
/// toward negative infinity.
pub open spec fn interpolate(t: Seq<Fixed>, pos: int) -> Fixed {
    let lower = pos / (SCALE as int);
    let frac = pos % (SCALE as int);
    if frac == 0 {
        t[lower]
    } else {
        Fixed {
            millionths: (t[lower].millionths + (frac * (t[lower + 1].millionths
                - t[lower].millionths)) / (SCALE as int)) as i64,
        }
    }
}

/// The `p`-th percentile of `s`, `p` in `[0, 1]`: the ascending samples
/// interpolated at position `(len - 1) * p`. Nothing for no samples or for
/// `p` outside `[0, 1]`.
pub open spec fn percentile_of(s: Seq<Fixed>, p: Fixed) -> Option<Fixed> {
    if s.len() == 0 || p.millionths < 0 || p.millionths > SCALE {
        None
    } else {
        Some(interpolate(sorted(s), (s.len() - 1) * p.millionths))
    }
}

/// The order on samples is total.
pub proof fn lemma_leq_total()
    ensures
        total_ordering(leq()),
{
    assert forall|x: Fixed, y: Fixed| #[trigger] leq()(x, y) && #[trigger] leq()(y, x) implies x
        == y by {
        assert(x.millionths == y.millionths);
    }
}

/// Sorting keeps the samples and puts them in ascending order.
pub proof fn lemma_sorted_is_ascending_permutation(s: Seq<Fixed>)
    ensures
        ascending(sorted(s)),
        sorted(s).to_multiset() == s.to_multiset(),
        sorted(s).len() == s.len(),
        forall|i: int| 0 <= i < s.len() ==> s.contains(#[trigger] sorted(s)[i]),
        forall|i: int| 0 <= i < s.len() ==> sorted(s).contains(#[trigger] s[i]),
{
    lemma_leq_total();
    s.lemma_sort_by_ensures(leq());
    let t = sorted(s);
    s.to_multiset_ensures();
    t.to_multiset_ensures();
    assert forall|i: int, j: int| 0 <= i <= j < t.len() implies t[i].millionths
        <= t[j].millionths by {
        if i < j {
            assert(leq()(t[i], t[j]));
        }
    }
    assert forall|i: int| 0 <= i < s.len() implies s.contains(#[trigger] t[i]) by {
        assert(t.contains(t[i]));
    }
    assert forall|i: int| 0 <= i < s.len() implies t.contains(#[trigger] s[i]) by {
        assert(s.contains(s[i]));
        assert(t.to_multiset().count(s[i]) > 0);
    }
}

/// An ascending arrangement of the samples of `s` is `sorted(s)`.
pub proof fn lemma_ascending_permutation_is_sorted(s: Seq<Fixed>, t: Seq<Fixed>)
    requires
        ascending(t),
        t.to_multiset() == s.to_multiset(),
    ensures
        t == sorted(s),
{
    lemma_leq_total();
    lemma_sorted_is_ascending_permutation(s);
    assert(sorted_by(t, leq())) by {
        assert forall|i: int, j: int| 0 <= i < j < t.len() implies #[trigger] leq()(
            t[i],
            t[j],
        ) by {}
    }
    s.lemma_sort_by_ensures(leq());
    lemma_sorted_unique(t, sorted(s), leq());
}

/// Two sequences with the same samples sort to the same sequence.
pub proof fn lemma_sorted_of_permutation(s: Seq<Fixed>, t: Seq<Fixed>)
    requires
        s.to_multiset() == t.to_multiset(),
    ensures
        sorted(s) == sorted(t),
{
    lemma_sorted_is_ascending_permutation(s);
    lemma_ascending_permutation_is_sorted(t, sorted(s));
}

/// A sample with nothing larger before it and nothing smaller after it
/// stands where sorting would put it, and the samples before it are those
/// that sorting puts before it.
pub proof fn lemma_partition_point(v: Seq<Fixed>, k: int)
    requires
        0 <= k < v.len(),
        forall|i: int| 0 <= i < k ==> v[i].millionths <= v[k].millionths,
        forall|i: int| k < i < v.len() ==> v[k].millionths <= v[i].millionths,
    ensures
        sorted(v)[k] == v[k],
        forall|i: int| 0 <= i < k ==> sorted(v)[i] == sorted(v.subrange(0, k))[i],
{
    let left = v.subrange(0, k);
    let right = v.subrange(k + 1, v.len() as int);
    let sl = sorted(left);
    let sr = sorted(right);
    lemma_sorted_is_ascending_permutation(left);
    lemma_sorted_is_ascending_permutation(right);
    let t = sl.push(v[k]) + sr;
    assert(v =~= left.push(v[k]) + right);
    lemma_multiset_commutative(left.push(v[k]), right);
    lemma_multiset_commutative(sl.push(v[k]), sr);
    left.to_multiset_ensures();
    sl.to_multiset_ensures();
    assert(t.to_multiset() =~= v.to_multiset());
    assert forall|i: int| 0 <= i < k implies (#[trigger] sl[i]).millionths
        <= v[k].millionths by {
        assert(left.contains(sl[i]));
        let idx = choose|idx: int| 0 <= idx < left.len() && left[idx] == sl[i];
        assert(v[idx] == left[idx]);
    }
    assert forall|i: int| 0 <= i < sr.len() implies v[k].millionths <= (#[trigger] sr[i]).millionths by {
        assert(right.contains(sr[i]));
        let idx = choose|idx: int| 0 <= idx < right.len() && right[idx] == sr[i];
        assert(v[k + 1 + idx] == right[idx]);
    }
    assert forall|i: int, j: int| 0 <= i <= j < t.len() implies t[i].millionths
        <= t[j].millionths by {
        if j < k {
            assert(t[i] == sl[i] && t[j] == sl[j]);
        } else if j == k {
            if i < k {
                assert(t[i] == sl[i]);
            }
        } else {
            assert(t[j] == sr[j - k - 1]);
            if i < k {
                assert(t[i] == sl[i]);
            } else if i > k {
                assert(t[i] == sr[i - k - 1]);
            }
        }
    }
    lemma_ascending_permutation_is_sorted(v, t);
    assert forall|i: int| 0 <= i < k implies sorted(v)[i] == sorted(v.subrange(0, k))[i] by {
        assert(t[i] == sl[i]);
    }
}

/// The largest sample of a non-empty sequence is the last one in ascending
/// order.
pub proof fn lemma_sorted_last_is_max(s: Seq<Fixed>, m: Fixed)
    requires
        s.contains(m),
        forall|i: int| 0 <= i < s.len() ==> s[i].millionths <= m.millionths,
    ensures
        sorted(s).len() == s.len(),
        sorted(s)[s.len() - 1] == m,
{
    lemma_sorted_is_ascending_permutation(s);
    let t = sorted(s);
    let n = s.len() as int;
    let im = choose|i: int| 0 <= i < s.len() && s[i] == m;
    assert(t.contains(s[im]));
    let j = choose|j: int| 0 <= j < t.len() && t[j] == m;
    assert(t[j].millionths <= t[n - 1].millionths);
    assert(s.contains(t[n - 1]));
    let l = choose|l: int| 0 <= l < s.len() && s[l] == t[n - 1];
    assert(s[l].millionths <= m.millionths);
    assert(t[n - 1].millionths == m.millionths);
}

/// Reorders `values` so that the sample at `index` is the one that sorting
/// would put there, with no larger sample before it and no smaller one after
/// it. Calls `slice::select_nth_unstable_by_key` with the sample's value as
/// the key; the contract is what the standard library documents for it, on
/// an index inside the slice.
#[verifier::external_body]
fn select_nth(values: &mut Vec<Fixed>, index: usize)
    requires
        index < old(values).len(),
    ensures
        final(values)@.to_multiset() == old(values)@.to_multiset(),
        final(values)@.len() == old(values)@.len(),
        forall|i: int|
            0 <= i < index ==> (#[trigger] final(values)@[i]).millionths
                <= final(values)@[index as int].millionths,
        forall|i: int|
            index < i < final(values)@.len() ==> final(values)@[index as int].millionths
                <= (#[trigger] final(values)@[i]).millionths,
{
    values.select_nth_unstable_by_key(index, |v| v.millionths);
}

/// Sorts `values` in ascending order. Calls `slice::sort_by_key` with the
/// sample's value as the key; the contract is what the standard library
/// documents for it: the same samples, in ascending order of the key.
#[verifier::external_body]
pub(crate) fn sort_ascending(values: &mut Vec<Fixed>)
    ensures
        final(values)@.to_multiset() == old(values)@.to_multiset(),
        final(values)@.len() == old(values)@.len(),
        ascending(final(values)@),
{
    values.sort_by_key(|v| v.millionths);
}

/// The midpoint of `lo <= hi`, rounded toward negative infinity.
fn midpoint(lo: Fixed, hi: Fixed) -> (r: Fixed)
    requires
        lo.millionths <= hi.millionths,
    ensures
        r == midpoint_of(lo, hi),
{
    let half: i128 = (hi.millionths as i128 - lo.millionths as i128) / 2;
    Fixed { millionths: (lo.millionths as i128 + half) as i64 }
}

/// The median of `values`, or `None` when there are none. The samples are
/// reordered in place (a selection, not a full sort).
pub fn median_f64(values: &mut Vec<Fixed>) -> (r: Option<Fixed>)
    ensures
        r == median_of(old(values)@),
        final(values)@.to_multiset() == old(values)@.to_multiset(),
{
    let len = values.len();
    if len == 0 {
        return None;
    }
    let mid = len / 2;
    select_nth(values, mid);
    proof {
        lemma_partition_point(values@, mid as int);
        lemma_sorted_of_permutation(values@, old(values)@);
    }
    let upper = values[mid];
    if len % 2 == 1 {
        return Some(upper);
    }
    let mut lower = values[0];
    let mut i: usize = 1;
    while i < mid
        invariant
            1 <= i <= mid < values.len(),
            exists|j: int| 0 <= j < i && values@[j] == lower,
            forall|j: int| 0 <= j < i ==> values@[j].millionths <= lower.millionths,
        decreases mid - i,
    {
        if values[i].millionths > lower.millionths {
            lower = values[i];
        }
        i += 1;
    }
    proof {
        let left = values@.subrange(0, mid as int);
        let j = choose|j: int| 0 <= j < mid && values@[j] == lower;
        assert(left[j] == lower);
        assert forall|l: int| 0 <= l < left.len() implies left[l].millionths
            <= lower.millionths by {
            assert(left[l] == values@[l]);
        }
        lemma_sorted_last_is_max(left, lower);
        assert(sorted(values@)[mid - 1] == sorted(left)[mid - 1]);
    }
    Some(midpoint(lower, upper))
}

/// The `p`-th percentile of `values` by linear interpolation between the
/// two nearest ranks, or `None` when there are no samples or `p` is outside
/// `[0, 1]`. The samples are sorted in place when there are two or more.
pub fn percentile_f64(values: &mut Vec<Fixed>, p: Fixed) -> (r: Option<Fixed>)
    ensures
        r == percentile_of(old(values)@, p),
        final(values)@ == (if old(values)@.len() >= 2 && 0 <= p.millionths <= SCALE {
            sorted(old(values)@)
        } else {
            old(values)@
        }),
        final(values)@.to_multiset() == old(values)@.to_multiset(),
{
    if values.len() == 0 {
        return None;
    }
    if p.millionths < 0 || p.millionths > SCALE {
        return None;
    }
    let len = values.len();
    proof {
        lemma_sorted_is_ascending_permutation(old(values)@);
        lemma_position_in_range(len as int, p.millionths as int);
    }
    if len == 1 {
        proof {
            assert(sorted(values@).contains(values@[0]));
        }
        return Some(values[0]);
    }
    sort_ascending(values);
    proof {
        lemma_ascending_permutation_is_sorted(old(values)@, values@);
    }
    let pos: u128 = (len - 1) as u128 * (p.millionths as u128);
    let lower_idx = (pos / (SCALE as u128)) as usize;
    let frac = pos % (SCALE as u128);
    if frac == 0 {
        return Some(values[lower_idx]);
    }
    let lower = values[lower_idx];
    let upper = values[lower_idx + 1];
    let span: i128 = upper.millionths as i128 - lower.millionths as i128;
    proof {
        lemma_scaled_part(frac as int, span as int);
    }
    let part: i128 = (frac as i128 * span) / (SCALE as i128);
    Some(Fixed { millionths: (lower.millionths as i128 + part) as i64 })
}

/// Position `(len - 1) * p` lies on or between the first and the last rank.
pub proof fn lemma_position_in_range(len: int, p: int)
    requires
        len >= 1,
        0 <= p <= SCALE,
    ensures
        0 <= (len - 1) * p,
        (len - 1) * p <= (len - 1) * SCALE,
        0 <= ((len - 1) * p) / (SCALE as int) <= len - 1,
        ((len - 1) * p) % (SCALE as int) != 0 ==> ((len - 1) * p) / (SCALE as int) < len - 1,
{
    assert(0 <= (len - 1) * p && (len - 1) * p <= (len - 1) * SCALE) by (nonlinear_arith)
        requires
            len >= 1,
            0 <= p <= SCALE,
    ;
}

/// A fraction `frac / 1_000_000` of a non-negative span lies within the
/// span.
pub proof fn lemma_scaled_part(frac: int, span: int)
    requires
        0 <= frac < SCALE,
        0 <= span,
    ensures
        0 <= frac * span,
        frac * span <= SCALE * span,
        0 <= (frac * span) / (SCALE as int) <= span,
{
    assert(0 <= frac * span && frac * span <= SCALE * span) by (nonlinear_arith)
        requires
            0 <= frac < SCALE,
            0 <= span,
    ;
}

/// The interpolated value lies on or between the two samples around the
/// position.
pub proof fn lemma_interpolate_between(t: Seq<Fixed>, pos: int)
    requires
        ascending(t),
        t.len() >= 1,
        0 <= pos <= (t.len() - 1) * SCALE,
    ensures
        0 <= pos / (SCALE as int) <= t.len() - 1,
        pos % (SCALE as int) != 0 ==> pos / (SCALE as int) + 1 <= t.len() - 1,
        t[pos / (SCALE as int)].millionths <= interpolate(t, pos).millionths,
        pos % (SCALE as int) == 0 ==> interpolate(t, pos) == t[pos / (SCALE as int)],
        pos % (SCALE as int) != 0 ==> interpolate(t, pos).millionths <= t[pos / (SCALE as int)
            + 1].millionths,
        pos % (SCALE as int) != 0 ==> interpolate(t, pos).millionths == t[pos / (SCALE as int)].millionths
            + ((pos % (SCALE as int)) * (t[pos / (SCALE as int) + 1].millionths - t[pos / (
        SCALE as int)].millionths)) / (SCALE as int),
{
    let lower = pos / (SCALE as int);
    let frac = pos % (SCALE as int);
    if frac != 0 {
        let span = t[lower + 1].millionths - t[lower].millionths;
        lemma_scaled_part(frac, span);
    }
}

/// The median of an odd number of samples is the middle one in ascending
/// order. The median of an even number is the average of the two middle
/// ones, rounded down to a millionth: twice the median falls short of their
/// sum by less than two millionths, and by nothing where the sum is even.
pub proof fn lemma_median_is_middle(s: Seq<Fixed>)
    requires
        s.len() > 0,
    ensures
        median_of(s) is Some,
        s.len() % 2 == 1 ==> median_of(s)->0 == sorted(s)[s.len() as int / 2],
        s.len() % 2 == 0 ==> ({
            let lo = sorted(s)[s.len() as int / 2 - 1].millionths;
            let hi = sorted(s)[s.len() as int / 2].millionths;
            let m = median_of(s)->0.millionths;
            &&& lo <= m <= hi
            &&& 2 * m <= lo + hi <= 2 * m + 1
            &&& (lo + hi) % 2 == 0 ==> 2 * m == lo + hi
        }),
{
    lemma_sorted_is_ascending_permutation(s);
}

/// If every sample lies in `[lo, hi]`, so does the median: in particular
/// the median lies between the smallest and the largest sample.
pub proof fn lemma_median_within_bounds(s: Seq<Fixed>, lo: int, hi: int)
    requires
        s.len() > 0,
        forall|i: int| 0 <= i < s.len() ==> lo <= (#[trigger] s[i]).millionths <= hi,
    ensures
        median_of(s) is Some,
        lo <= median_of(s)->0.millionths <= hi,
{
    lemma_sorted_is_ascending_permutation(s);
    let t = sorted(s);
    let mid = s.len() as int / 2;
    assert forall|i: int| 0 <= i < t.len() implies lo <= (#[trigger] t[i]).millionths <= hi by {
        assert(s.contains(t[i]));
        let j = choose|j: int| 0 <= j < s.len() && s[j] == t[i];
        assert(lo <= s[j].millionths <= hi);
    }
    assert(lo <= t[mid].millionths <= hi);
    if s.len() % 2 == 0 {
        assert(lo <= t[mid - 1].millionths <= hi);
    }
}

/// If every sample lies in `[lo, hi]`, so does every percentile: in
/// particular a percentile lies between the smallest and the largest sample.
pub proof fn lemma_percentile_within_bounds(s: Seq<Fixed>, p: Fixed, lo: int, hi: int)
    requires
        s.len() > 0,
        0 <= p.millionths <= SCALE,
        forall|i: int| 0 <= i < s.len() ==> lo <= (#[trigger] s[i]).millionths <= hi,
    ensures
        percentile_of(s, p) is Some,
        lo <= percentile_of(s, p)->0.millionths <= hi,
{
    lemma_sorted_is_ascending_permutation(s);
    let t = sorted(s);
    assert forall|i: int| 0 <= i < t.len() implies lo <= (#[trigger] t[i]).millionths <= hi by {
        assert(s.contains(t[i]));
        let j = choose|j: int| 0 <= j < s.len() && s[j] == t[i];
        assert(lo <= s[j].millionths <= hi);
    }
    let pos = (s.len() - 1) * p.millionths;
    lemma_position_in_range(s.len() as int, p.millionths as int);
    lemma_interpolate_between(t, pos);
    let lower = pos / (SCALE as int);
    assert(lo <= t[lower].millionths <= hi);
    if pos % (SCALE as int) != 0 {
        assert(lo <= t[lower + 1].millionths <= hi);
    }
}

/// For fixed samples the percentile does not decrease as `p` grows.
pub proof fn lemma_percentile_monotonic(s: Seq<Fixed>, p_low: Fixed, p_high: Fixed)
    requires
        s.len() > 0,
        0 <= p_low.millionths <= p_high.millionths <= SCALE,
    ensures
        percentile_of(s, p_low) is Some,
        percentile_of(s, p_high) is Some,
        percentile_of(s, p_low)->0.millionths <= percentile_of(s, p_high)->0.millionths,
{
    lemma_sorted_is_ascending_permutation(s);
    let t = sorted(s);
    let n = s.len() as int;
    let pos1 = (n - 1) * p_low.millionths;
    let pos2 = (n - 1) * p_high.millionths;
    lemma_position_in_range(n, p_low.millionths as int);
    lemma_position_in_range(n, p_high.millionths as int);
    assert(pos1 <= pos2) by (nonlinear_arith)
        requires
            n >= 1,
            p_low.millionths <= p_high.millionths,
            pos1 == (n - 1) * p_low.millionths,
            pos2 == (n - 1) * p_high.millionths,
    ;
    lemma_interpolate_between(t, pos1);
    lemma_interpolate_between(t, pos2);
    let l1 = pos1 / (SCALE as int);
    let l2 = pos2 / (SCALE as int);
    let f1 = pos1 % (SCALE as int);
    let f2 = pos2 % (SCALE as int);
    let v1 = interpolate(t, pos1).millionths;
    let v2 = interpolate(t, pos2).millionths;
    if l1 == l2 {
        if f1 != 0 {
            let span = t[l1 + 1].millionths - t[l1].millionths;
            assert(f1 * span <= f2 * span) by (nonlinear_arith)
                requires
                    0 <= f1 <= f2,
                    0 <= span,
            ;
            assert((f1 * span) / (SCALE as int) <= (f2 * span) / (SCALE as int));
        }
        assert(v1 <= v2);
    } else {
        assert(l1 + 1 <= l2);
        assert(t[l1].millionths <= t[l2].millionths);
        assert(t[l1 + 1].millionths <= t[l2].millionths);
        assert(v1 <= t[l2].millionths);
        assert(v1 <= v2);
    }
}

/// The percentiles at `p = 0` and `p = 1` are the smallest and the largest
/// sample, and a single sample is its own percentile for every valid `p`.
pub proof fn lemma_percentile_extremes(s: Seq<Fixed>, p: Fixed)
    requires
        s.len() > 0,
        0 <= p.millionths <= SCALE,
    ensures
        percentile_of(s, Fixed { millionths: 0 }) == Some(sorted(s)[0]),
        percentile_of(s, Fixed { millionths: SCALE }) == Some(sorted(s)[s.len() - 1]),
        s.len() == 1 ==> percentile_of(s, p) == Some(s[0]),
{
    lemma_sorted_is_ascending_permutation(s);
    let n = s.len() as int;
    assert((n - 1) * 0 == 0);
    assert(((n - 1) * SCALE) / (SCALE as int) == n - 1 && ((n - 1) * SCALE) % (SCALE as int) == 0)
        by (nonlinear_arith)
        requires
            n >= 1,
    ;
    if n == 1 {
        assert((n - 1) * p.millionths == 0) by (nonlinear_arith)
            requires
                n == 1,
        ;
        assert(sorted(s).contains(s[0]));
    }
}

} // verus!
