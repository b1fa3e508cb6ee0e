//! Putting things in the order of their timestamps.

use vstd::prelude::*;
use crate::clock::Timestamp;

verus! {

/// Whether the position `i` occurs in `order`.
pub open spec fn lists(order: Seq<usize>, i: int) -> bool {
    exists|k: int| 0 <= k < order.len() && #[trigger] order[k] == i
}

/// Whether `order` names each of the positions `0..n` exactly once.
pub open spec fn is_arrangement(order: Seq<usize>, n: nat) -> bool {
    &&& order.len() == n
    &&& forall|k: int| 0 <= k < order.len() ==> (#[trigger] order[k]) < n
    &&& forall|k1: int, k2: int| 0 <= k1 < k2 < order.len() ==> order[k1] != order[k2]
    &&& forall|i: int| 0 <= i < n ==> #[trigger] lists(order, i)
}

/// Whether the item at position `a` comes before the item at position `b`
/// when the oldest goes first: by its time, and among equal times by its
/// position.
pub open spec fn precedes(times: Seq<Timestamp>, a: int, b: int) -> bool {
    times[a] < times[b] || (times[a] == times[b] && a < b)
}

/// Whether `order` arranges the positions of `times` with the oldest first,
/// items of the same time in the order of their positions.
pub open spec fn oldest_first(times: Seq<Timestamp>, order: Seq<usize>) -> bool {
    &&& is_arrangement(order, times.len())
    &&& forall|k1: int, k2: int|
        0 <= k1 < k2 < order.len() ==> precedes(times, order[k1] as int, order[k2] as int)
}

/// Whether `order` arranges the positions of `times` with the newest first:
/// the reverse of oldest first.
pub open spec fn newest_first(times: Seq<Timestamp>, order: Seq<usize>) -> bool {
    &&& is_arrangement(order, times.len())
    &&& forall|k1: int, k2: int|
        0 <= k1 < k2 < order.len() ==> precedes(times, order[k2] as int, order[k1] as int)
}

/// Exchanging two entries of an arrangement leaves an arrangement.
proof fn lemma_swap_keeps_arrangement(before: Seq<usize>, after: Seq<usize>, n: nat, a: int, b: int)
    requires
        is_arrangement(before, n),
        0 <= a < n,
        0 <= b < n,
        after == before.update(a, before[b]).update(b, before[a]),
    ensures
        is_arrangement(after, n),
{
    let other = |k: int|
        if k == a {
            b
        } else if k == b {
            a
        } else {
            k
        };
    assert forall|i: int| 0 <= i < n implies #[trigger] lists(after, i) by {
        assert(lists(before, i));
        let k0 = choose|k: int| 0 <= k < n && #[trigger] before[k] == i;
        assert(after[other(k0)] == i);
    }
    assert forall|k1: int, k2: int| 0 <= k1 < k2 < after.len() implies after[k1] != after[k2] by {
        assert(after[k1] == before[other(k1)]);
        assert(after[k2] == before[other(k2)]);
    }
}

/// The positions of `times`, the oldest first; items of the same time keep
/// the order of their positions.
pub fn order_oldest_first(times: &Vec<Timestamp>) -> (order: Vec<usize>)
    ensures
        oldest_first(times@, order@),
{
    let n = times.len();
    let mut order: Vec<usize> = Vec::new();
    let mut i: usize = 0;
    while i < n
        invariant
            i <= n,
            order@.len() == i,
            forall|k: int| 0 <= k < i ==> order@[k] == k,
        decreases n - i,
    {
        order.push(i);
        i = i + 1;
    }
    proof {
        assert forall|i: int| 0 <= i < n implies #[trigger] lists(order@, i) by {
            assert(order@[i] == i);
        }
    }
    let mut done: usize = 0;
    while done < n
        invariant
            done <= n,
            n == times@.len(),
            is_arrangement(order@, n as nat),
            forall|k1: int, k2: int|
                0 <= k1 < k2 < done ==> precedes(times@, order@[k1] as int, order@[k2] as int),
        decreases n - done,
    {
        let mut j: usize = done;
        while j > 0 && (times[order[j]] < times[order[j - 1]] || (times[order[j]] == times[order[j
            - 1]] && order[j] < order[j - 1]))
            invariant
                j <= done < n,
                n == times@.len(),
                is_arrangement(order@, n as nat),
                forall|k1: int, k2: int|
                    0 <= k1 < k2 <= done && k1 != j && k2 != j ==> precedes(
                        times@,
                        order@[k1] as int,
                        order@[k2] as int,
                    ),
                forall|k: int|
                    j < k <= done ==> precedes(times@, order@[j as int] as int, order@[k] as int),
            decreases j,
        {
            let ghost before = order@;
            let left = order[j - 1];
            let right = order[j];
            order.set(j - 1, right);
            order.set(j, left);
            proof {
                lemma_swap_keeps_arrangement(before, order@, n as nat, j - 1, j as int);
            }
            j = j - 1;
        }
        proof {
            assert forall|k1: int, k2: int| 0 <= k1 < k2 <= done implies precedes(
                times@,
                order@[k1] as int,
                order@[k2] as int,
            ) by {
                if k2 == j {
                    assert(order@[j - 1] != order@[j as int]);
                    assert(precedes(times@, order@[j - 1] as int, order@[j as int] as int));
                    if k1 < j - 1 {
                        assert(precedes(times@, order@[k1] as int, order@[j - 1] as int));
                    }
                }
            }
        }
        done = done + 1;
    }
    order
}

/// The positions of `times`, the newest first; items of the same time come
/// in the reverse order of their positions.
pub fn order_newest_first(times: &Vec<Timestamp>) -> (order: Vec<usize>)
    ensures
        newest_first(times@, order@),
{
    let ascending = order_oldest_first(times);
    let n = ascending.len();
    let mut order: Vec<usize> = Vec::new();
    let mut i: usize = 0;
    while i < n
        invariant
            i <= n,
            n == ascending@.len(),
            order@.len() == i,
            forall|k: int| 0 <= k < i ==> order@[k] == ascending@[n - 1 - k],
        decreases n - i,
    {
        order.push(ascending[n - 1 - i]);
        i = i + 1;
    }
    proof {
        assert forall|p: int| 0 <= p < n implies #[trigger] lists(order@, p) by {
            assert(lists(ascending@, p));
            let k0 = choose|k: int| 0 <= k < n && #[trigger] ascending@[k] == p;
            assert(order@[n - 1 - k0] == p);
        }
    }
    order
}

/// An item that is newer than all others leads the newest-first order.
pub proof fn law_newest_leads(times: Seq<Timestamp>, order: Seq<usize>, latest: int)
    requires
        newest_first(times, order),
        0 <= latest < times.len(),
        forall|j: int| 0 <= j < times.len() && j != latest ==> times[j] < times[latest],
    ensures
        order[0] == latest,
{
    assert(lists(order, latest));
    let k = choose|k: int| 0 <= k < order.len() && #[trigger] order[k] == latest;
    if k > 0 {
        assert(order[0] != order[k]);
        assert(precedes(times, order[k] as int, order[0] as int));
    }
}

/// One set of times has one oldest-first order.
pub proof fn law_order_is_unique(times: Seq<Timestamp>, one: Seq<usize>, other: Seq<usize>)
    requires
        oldest_first(times, one),
        oldest_first(times, other),
    ensures
        one == other,
{
    assert forall|k: int| 0 <= k < one.len() implies one[k] == other[k] by {
        lemma_rank(times, one, k);
        assert(lists(other, one[k] as int));
        let m = choose|m: int| 0 <= m < other.len() && #[trigger] other[m] == one[k];
        lemma_rank(times, other, m);
    }
    assert(one =~= other);
}

/// The number of positions that come before position `p`.
pub open spec fn rank(times: Seq<Timestamp>, p: int) -> nat {
    Set::new(|q: int| 0 <= q < times.len() && precedes(times, q, p)).len()
}

/// In an oldest-first order, the entry at `k` has exactly `k` positions
/// before it.
proof fn lemma_rank(times: Seq<Timestamp>, order: Seq<usize>, k: int)
    requires
        oldest_first(times, order),
        0 <= k < order.len(),
    ensures
        rank(times, order[k] as int) == k,
{
    let p = order[k] as int;
    let earlier = Set::new(|q: int| 0 <= q < times.len() && precedes(times, q, p));
    let head = Set::new(|q: int| 0 <= q < k);
    // The positions before `p` are those that the order lists ahead of `k`.
    let ahead = order.take(k).map_values(|x: usize| x as int).to_set();
    assert(earlier =~= ahead) by {
        assert forall|q: int| earlier.contains(q) implies ahead.contains(q) by {
            assert(lists(order, q));
            let m = choose|m: int| 0 <= m < order.len() && #[trigger] order[m] == q;
            if m > k {
                assert(precedes(times, order[k] as int, order[m] as int));
            }
            assert(m < k);
            assert(order.take(k).map_values(|x: usize| x as int)[m] == q);
        }
        assert forall|q: int| ahead.contains(q) implies earlier.contains(q) by {
            let s = order.take(k).map_values(|x: usize| x as int);
            let m = choose|m: int| 0 <= m < s.len() && s[m] == q;
            assert(order[m] == q);
            assert(precedes(times, order[m] as int, order[k] as int));
        }
    }
    let s = order.take(k).map_values(|x: usize| x as int);
    assert(s.no_duplicates()) by {
        assert forall|a: int, b: int| 0 <= a < s.len() && 0 <= b < s.len() && a != b implies s[a]
            != s[b] by {
            if a < b {
                assert(order[a] != order[b]);
            } else {
                assert(order[b] != order[a]);
            }
        }
    }
    s.unique_seq_to_set();
}

} // verus!
