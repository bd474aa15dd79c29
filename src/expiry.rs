use crate::ids::EventIndex;
use vstd::prelude::*;

verus! {

/// `x` lies in one of the closed ranges.
pub open spec fn in_ranges(r: Seq<(EventIndex, EventIndex)>, x: int) -> bool {
    exists|i: int| 0 <= i < r.len() && #[trigger] r[i].0 <= x <= r[i].1
}

/// Each range is well formed, the ranges are in order, and no two of them touch:
/// between two ranges there is at least one index that neither holds.
pub open spec fn ranges_coalesced(r: Seq<(EventIndex, EventIndex)>) -> bool {
    &&& forall|i: int| 0 <= i < r.len() ==> r[i].0 <= r[i].1
    &&& forall|i: int| 0 <= i < r.len() - 1 ==> r[i].1 + 1 < r[i + 1].0
}

pub open spec fn strictly_increasing(s: Seq<EventIndex>) -> bool {
    forall|i: int, j: int| 0 <= i < j < s.len() ==> s[i] < s[j]
}

/// In coalesced ranges every range ends before any later one starts.
pub proof fn lemma_ranges_ordered(r: Seq<(EventIndex, EventIndex)>, i: int, j: int)
    requires
        ranges_coalesced(r),
        0 <= i < j < r.len(),
    ensures
        r[i].1 < r[j].0,
    decreases j - i,
{
    if j > i + 1 {
        lemma_ranges_ordered(r, i, j - 1);
    }
}

/// Expired indices that form one unbroken run are reported as exactly one range.
pub proof fn law_contiguous_expiry_is_one_range(r: Seq<(EventIndex, EventIndex)>, a: EventIndex, b: EventIndex)
    requires
        ranges_coalesced(r),
        a <= b,
        forall|x: EventIndex| in_ranges(r, x as int) <==> a <= x <= b,
    ensures
        r.len() == 1,
        r[0] == (a, b),
{
    assert(in_ranges(r, a as int));
    if r.len() >= 2 {
        lemma_ranges_ordered(r, 0, 1);
        assert(in_ranges(r, r[0].1 as int));
        assert(in_ranges(r, r[1].0 as int));
        let x = (r[0].1 + 1) as EventIndex;
        assert(a <= x <= b);
        assert(in_ranges(r, x as int));
        let k = choose|k: int| 0 <= k < r.len() && #[trigger] r[k].0 <= x as int <= r[k].1;
        if k >= 1 {
            if k > 1 {
                lemma_ranges_ordered(r, 1, k);
            }
        }
    }
    assert(in_ranges(r, r[0].0 as int));
    assert(in_ranges(r, r[0].1 as int));
    assert(in_ranges(r, b as int));
}

/// Two expired indices with a gap between them are reported as two ranges.
pub proof fn law_separate_expiry_is_two_ranges(r: Seq<(EventIndex, EventIndex)>, a: EventIndex, b: EventIndex)
    requires
        ranges_coalesced(r),
        a + 1 < b,
        forall|x: EventIndex| in_ranges(r, x as int) <==> (x == a || x == b),
    ensures
        r.len() == 2,
        r[0] == (a, a),
        r[1] == (b, b),
{
    assert(in_ranges(r, a as int));
    assert(in_ranges(r, b as int));
    assert(in_ranges(r, r[0].0 as int));
    assert(in_ranges(r, r[0].1 as int));
    if r.len() == 1 {
        let x = (a + 1) as EventIndex;
        assert(r[0].0 <= x as int <= r[0].1);
        assert(in_ranges(r, x as int));
    }
    if r.len() >= 3 {
        lemma_ranges_ordered(r, 0, 1);
        lemma_ranges_ordered(r, 1, 2);
        assert(in_ranges(r, r[1].0 as int));
        assert(in_ranges(r, r[2].0 as int));
    }
    if r.len() == 2 {
        lemma_ranges_ordered(r, 0, 1);
        assert(in_ranges(r, r[1].0 as int));
        assert(in_ranges(r, r[1].1 as int));
    }
}

/// Merges increasing indices into the fewest closed ranges that hold exactly
/// those indices: adjacent indices share a range.
pub fn coalesce(indices: &Vec<EventIndex>) -> (r: Vec<(EventIndex, EventIndex)>)
    ensures
        forall|i: int| 0 <= i < r@.len() ==> r@[i].0 <= r@[i].1,
        strictly_increasing(indices@) ==> ranges_coalesced(r@),
        forall|x: EventIndex| in_ranges(r@, x as int) <==> indices@.contains(x),
        indices@.len() == 0 <==> r@.len() == 0,
{
    let mut r: Vec<(EventIndex, EventIndex)> = Vec::new();
    let mut i: usize = 0;
    while i < indices.len()
        invariant
            0 <= i <= indices@.len(),
            forall|k: int| 0 <= k < r@.len() ==> r@[k].0 <= r@[k].1,
            strictly_increasing(indices@) ==> ranges_coalesced(r@),
            i == 0 <==> r@.len() == 0,
            i > 0 ==> r@.last().1 == indices@[i - 1],
            forall|x: EventIndex| in_ranges(r@, x as int) <==> indices@.subrange(0, i as int).contains(x),
        decreases indices@.len() - i,
    {
        let y = indices[i];
        let ghost prev = r@;
        let ghost pre = indices@.subrange(0, i as int);
        proof {
            assert(indices@.subrange(0, i + 1) =~= pre.push(y));
            assert(forall|x: EventIndex| in_ranges(prev, x as int) <==> pre.contains(x));
        }
        let n = r.len();
        if n > 0 && r[n - 1].1 < u32::MAX && r[n - 1].1 + 1 == y {
            let (a, _) = r[n - 1];
            r.set(n - 1, (a, y));
            proof {
                assert forall|x: EventIndex| in_ranges(r@, x as int) <==> pre.push(y).contains(x) by {
                    if in_ranges(r@, x as int) {
                        let k = choose|k: int| 0 <= k < r@.len() && #[trigger] r@[k].0 <= x as int <= r@[k].1;
                        if k == n - 1 && x == y {
                            assert(pre.push(y)[pre.len() as int] == x);
                        } else {
                            assert(prev[k].0 <= x as int <= prev[k].1);
                            assert(in_ranges(prev, x as int));
                            let m = choose|m: int| 0 <= m < pre.len() && pre[m] == x;
                            assert(pre.push(y)[m] == x);
                        }
                    }
                    if pre.push(y).contains(x) {
                        let m = choose|m: int| 0 <= m < pre.len() + 1 && pre.push(y)[m] == x;
                        if m == pre.len() {
                            assert(r@[n - 1].0 <= x as int <= r@[n - 1].1);
                        } else {
                            assert(pre.contains(x));
                            assert(in_ranges(prev, x as int));
                            let k = choose|k: int| 0 <= k < prev.len() && #[trigger] prev[k].0 <= x as int <= prev[k].1;
                            assert(r@[k].0 <= x as int <= r@[k].1);
                        }
                    }
                }
            }
        } else {
            proof {
                if n > 0 && strictly_increasing(indices@) {
                    assert(indices@[i - 1] < y);
                }
            }
            r.push((y, y));
            proof {
                assert forall|x: EventIndex| in_ranges(r@, x as int) <==> pre.push(y).contains(x) by {
                    if in_ranges(r@, x as int) {
                        let k = choose|k: int| 0 <= k < r@.len() && #[trigger] r@[k].0 <= x as int <= r@[k].1;
                        if k == n {
                            assert(pre.push(y)[pre.len() as int] == x);
                        } else {
                            assert(prev[k].0 <= x as int <= prev[k].1);
                            assert(in_ranges(prev, x as int));
                            let m = choose|m: int| 0 <= m < pre.len() && pre[m] == x;
                            assert(pre.push(y)[m] == x);
                        }
                    }
                    if pre.push(y).contains(x) {
                        let m = choose|m: int| 0 <= m < pre.len() + 1 && pre.push(y)[m] == x;
                        if m == pre.len() {
                            assert(r@[n as int].0 <= x as int <= r@[n as int].1);
                        } else {
                            assert(pre.contains(x));
                            assert(in_ranges(prev, x as int));
                            let k = choose|k: int| 0 <= k < prev.len() && #[trigger] prev[k].0 <= x as int <= prev[k].1;
                            assert(r@[k].0 <= x as int <= r@[k].1);
                        }
                    }
                }
            }
        }
        i = i + 1;
    }
    proof {
        assert(indices@.subrange(0, i as int) =~= indices@);
    }
    r
}

/// The ranges start in order.
pub open spec fn starts_sorted(s: Seq<(EventIndex, EventIndex)>) -> bool {
    forall|i: int, j: int| 0 <= i < j < s.len() ==> s[i].0 <= s[j].0
}

pub proof fn lemma_in_ranges_push(s: Seq<(EventIndex, EventIndex)>, y: (EventIndex, EventIndex), x: int)
    ensures
        in_ranges(s.push(y), x) <==> (in_ranges(s, x) || (y.0 <= x <= y.1)),
{
    let n = s.push(y);
    if in_ranges(s, x) {
        let k = choose|k: int| 0 <= k < s.len() && #[trigger] s[k].0 <= x <= s[k].1;
        assert(n[k] == s[k]);
    }
    if y.0 <= x <= y.1 {
        assert(n[s.len() as int] == y);
    }
    if in_ranges(n, x) && !(y.0 <= x <= y.1) {
        let k = choose|k: int| 0 <= k < n.len() && #[trigger] n[k].0 <= x <= n[k].1;
        assert(n[k] == s[k]);
    }
}

/// Two lists holding the same ranges cover the same indices.
pub proof fn lemma_in_ranges_same_elements(a: Seq<(EventIndex, EventIndex)>, b: Seq<(EventIndex, EventIndex)>, x: int)
    requires
        forall|y: (EventIndex, EventIndex)| a.contains(y) <==> b.contains(y),
    ensures
        in_ranges(a, x) <==> in_ranges(b, x),
{
    if in_ranges(a, x) {
        let k = choose|k: int| 0 <= k < a.len() && #[trigger] a[k].0 <= x <= a[k].1;
        assert(a.contains(a[k]));
        let m = choose|m: int| 0 <= m < b.len() && b[m] == a[k];
        assert(b[m].0 <= x <= b[m].1);
    }
    if in_ranges(b, x) {
        let k = choose|k: int| 0 <= k < b.len() && #[trigger] b[k].0 <= x <= b[k].1;
        assert(b.contains(b[k]));
        let m = choose|m: int| 0 <= m < a.len() && a[m] == b[k];
        assert(a[m].0 <= x <= a[m].1);
    }
}

/// Merges ranges that start in order into the fewest ranges covering the same
/// indices: overlapping and adjacent ranges become one, and ranges that hold
/// nothing are dropped.
pub fn merge_ranges(v: &Vec<(EventIndex, EventIndex)>) -> (r: Vec<(EventIndex, EventIndex)>)
    requires
        starts_sorted(v@),
    ensures
        ranges_coalesced(r@),
        forall|x: int| in_ranges(r@, x) <==> in_ranges(v@, x),
{
    let mut r: Vec<(EventIndex, EventIndex)> = Vec::new();
    let mut i: usize = 0;
    while i < v.len()
        invariant
            0 <= i <= v@.len(),
            starts_sorted(v@),
            ranges_coalesced(r@),
            forall|x: int| in_ranges(r@, x) <==> in_ranges(v@.subrange(0, i as int), x),
            r@.len() > 0 ==> forall|j: int| i <= j < v@.len() ==> r@.last().0 <= #[trigger] v@[j].0,
        decreases v@.len() - i,
    {
        let (c, d) = v[i];
        let ghost prev = r@;
        let ghost pre = v@.subrange(0, i as int);
        proof {
            assert(v@.subrange(0, i + 1) =~= pre.push((c, d)));
            assert forall|x: int| in_ranges(v@.subrange(0, i + 1), x) <==> (in_ranges(pre, x) || (c <= x <= d)) by {
                lemma_in_ranges_push(pre, (c, d), x);
            }
        }
        if c <= d {
            let n = r.len();
            if n > 0 && (c <= r[n - 1].1 || (r[n - 1].1 < u32::MAX && c == r[n - 1].1 + 1)) {
                let (a, b) = r[n - 1];
                let e = if d > b {
                    d
                } else {
                    b
                };
                r.set(n - 1, (a, e));
                proof {
                    assert(prev =~= prev.drop_last().push((a, b)));
                    assert(r@ =~= prev.drop_last().push((a, e)));
                    assert forall|x: int| in_ranges(r@, x) <==> in_ranges(v@.subrange(0, i + 1), x) by {
                        lemma_in_ranges_push(prev.drop_last(), (a, b), x);
                        lemma_in_ranges_push(prev.drop_last(), (a, e), x);
                        assert(in_ranges(prev, x) <==> in_ranges(pre, x));
                        assert(prev.last().0 <= v@[i as int].0);
                    }
                    assert forall|k: int| 0 <= k < r@.len() - 1 implies r@[k].1 + 1 < r@[k + 1].0 by {
                        assert(r@[k] == prev[k]);
                        assert(r@[k + 1].0 == prev[k + 1].0);
                    }
                    assert forall|j: int| i + 1 <= j < v@.len() implies r@.last().0 <= #[trigger] v@[j].0 by {}
                }
            } else {
                r.push((c, d));
                proof {
                    assert forall|x: int| in_ranges(r@, x) <==> in_ranges(v@.subrange(0, i + 1), x) by {
                        lemma_in_ranges_push(prev, (c, d), x);
                        assert(in_ranges(prev, x) <==> in_ranges(pre, x));
                    }
                    assert forall|j: int| i + 1 <= j < v@.len() implies r@.last().0 <= #[trigger] v@[j].0 by {
                        assert(v@[i as int].0 <= v@[j].0);
                    }
                }
            }
        } else {
            proof {
                assert forall|j: int| i + 1 <= j < v@.len() implies r@.len() > 0 ==> r@.last().0 <= #[trigger] v@[j].0 by {}
            }
        }
        i = i + 1;
    }
    proof {
        assert(v@.subrange(0, v@.len() as int) =~= v@);
    }
    r
}

} // verus!
