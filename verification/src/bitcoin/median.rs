//! The median of a window of timestamps.
//!
//! The window is ordered by time, and headers with the same time keep the
//! order in which they stand in the window. The position that a header takes
//! in that order is the number of headers that come before it.

use vstd::prelude::*;

verus! {

/// Whether the header at `a` comes before the one at `b` when the window is
/// ordered by time, equal times keeping their order.
pub open spec fn sorts_before(times: Seq<u32>, a: int, b: int) -> bool {
    times[a] < times[b] || (times[a] == times[b] && a < b)
}

/// How many of the first `m` headers come before the one at `i`.
pub open spec fn count_before(times: Seq<u32>, i: int, m: int) -> nat
    decreases m,
{
    if m <= 0 {
        0
    } else {
        count_before(times, i, m - 1) + if sorts_before(times, m - 1, i) {
            1nat
        } else {
            0nat
        }
    }
}

/// The position that the header at `i` takes once the window is ordered.
pub open spec fn sorted_position(times: Seq<u32>, i: int) -> nat {
    count_before(times, i, times.len() as int)
}

/// Whether `i` is the index of the header at position `k` of the ordered
/// window.
pub open spec fn is_at_position(times: Seq<u32>, i: int, k: int) -> bool {
    0 <= i < times.len() && sorted_position(times, i) == k
}

/// The index of the header at position `k` of the ordered window.
pub open spec fn index_at_position(times: Seq<u32>, k: int) -> int {
    choose|i: int| is_at_position(times, i, k)
}

/// A header that none of the first `m` comes before has none of them
/// before it.
proof fn lemma_nothing_before(times: Seq<u32>, i: int, m: int)
    requires
        0 <= m <= times.len(),
        forall|j: int| 0 <= j < m ==> !sorts_before(times, j, i),
    ensures
        count_before(times, i, m) == 0,
    decreases m,
{
    if m > 0 {
        lemma_nothing_before(times, i, m - 1);
    }
}

/// The header that comes right after another one has one more before it.
proof fn lemma_next_in_order(times: Seq<u32>, p: int, c: int, m: int)
    requires
        0 <= p < times.len(),
        0 <= c < times.len(),
        0 <= m <= times.len(),
        sorts_before(times, p, c),
        forall|j: int|
            0 <= j < times.len() && sorts_before(times, p, j) ==> !sorts_before(times, j, c),
    ensures
        count_before(times, c, m) == count_before(times, p, m) + if p < m {
            1nat
        } else {
            0nat
        },
    decreases m,
{
    if m > 0 {
        lemma_next_in_order(times, p, c, m - 1);
        let j = m - 1;
        if j != p && sorts_before(times, j, c) {
            assert(!sorts_before(times, p, j));
        }
    }
}

/// The header that comes before no other has all the others before it.
proof fn lemma_last_in_order(times: Seq<u32>, p: int, m: int)
    requires
        0 <= p < times.len(),
        0 <= m <= times.len(),
        forall|j: int| 0 <= j < times.len() ==> !sorts_before(times, p, j),
    ensures
        count_before(times, p, m) == m - if p < m {
            1int
        } else {
            0int
        },
    decreases m,
{
    if m > 0 {
        lemma_last_in_order(times, p, m - 1);
        assert(!sorts_before(times, p, m - 1));
    }
}

/// A header that comes after another one has more headers before it.
proof fn lemma_later_counts_more(times: Seq<u32>, a: int, b: int, m: int)
    requires
        0 <= a < times.len(),
        0 <= b < times.len(),
        0 <= m <= times.len(),
        sorts_before(times, a, b),
    ensures
        count_before(times, b, m) >= count_before(times, a, m) + if a < m {
            1nat
        } else {
            0nat
        },
    decreases m,
{
    if m > 0 {
        lemma_later_counts_more(times, a, b, m - 1);
    }
}

/// No two headers of a window take the same position in the order.
pub proof fn lemma_position_unique(times: Seq<u32>, a: int, b: int)
    requires
        0 <= a < times.len(),
        0 <= b < times.len(),
        sorted_position(times, a) == sorted_position(times, b),
    ensures
        a == b,
{
    if a != b {
        if sorts_before(times, a, b) {
            lemma_later_counts_more(times, a, b, times.len() as int);
        } else {
            assert(sorts_before(times, b, a));
            lemma_later_counts_more(times, b, a, times.len() as int);
        }
    }
}

/// The positions follow the order: a header at a lower position comes
/// before one at a higher position, so that the positions list the window
/// by time, equal times keeping their order.
pub proof fn lemma_positions_follow_the_order(times: Seq<u32>, a: int, b: int)
    requires
        0 <= a < times.len(),
        0 <= b < times.len(),
        sorted_position(times, a) < sorted_position(times, b),
    ensures
        sorts_before(times, a, b),
{
    if !sorts_before(times, a, b) {
        assert(a != b);
        assert(sorts_before(times, b, a));
        lemma_later_counts_more(times, b, a, times.len() as int);
    }
}

/// A header among the first `m` that none of them comes before.
proof fn first_in_order(times: Seq<u32>, m: int) -> (i: int)
    requires
        1 <= m <= times.len(),
    ensures
        0 <= i < m,
        forall|j: int| 0 <= j < m ==> !sorts_before(times, j, i),
    decreases m,
{
    if m == 1 {
        0
    } else {
        let p = first_in_order(times, m - 1);
        let i = if sorts_before(times, m - 1, p) {
            m - 1
        } else {
            p
        };
        assert forall|j: int| 0 <= j < m implies !sorts_before(times, j, i) by {
            if j < m - 1 {
                assert(!sorts_before(times, j, p));
            }
        }
        i
    }
}

/// The header among the first `m` that comes right after the one at `p`, or
/// -1 where none of them comes after it.
proof fn next_in_order(times: Seq<u32>, p: int, m: int) -> (best: int)
    requires
        0 <= p < times.len(),
        0 <= m <= times.len(),
    ensures
        -1 <= best < m,
        best == -1 ==> forall|j: int| 0 <= j < m ==> !sorts_before(times, p, j),
        best != -1 ==> sorts_before(times, p, best),
        best != -1 ==> forall|j: int|
            0 <= j < m && sorts_before(times, p, j) ==> !sorts_before(times, j, best),
    decreases m,
{
    if m == 0 {
        -1
    } else {
        let before = next_in_order(times, p, m - 1);
        let j = m - 1;
        let best = if sorts_before(times, p, j) && (before == -1 || sorts_before(
            times,
            j,
            before,
        )) {
            j
        } else {
            before
        };
        if best != -1 {
            assert forall|l: int| 0 <= l < m && sorts_before(times, p, l) implies !sorts_before(
                times,
                l,
                best,
            ) by {
                if l < j && before != -1 {
                    assert(!sorts_before(times, l, before));
                }
                if l < j && before == -1 {
                    assert(!sorts_before(times, p, l));
                }
            }
        } else {
            assert forall|l: int| 0 <= l < m implies !sorts_before(times, p, l) by {
                if l < j {
                    assert(!sorts_before(times, p, l));
                }
            }
        }
        best
    }
}

/// A header at position `k`.
proof fn header_at_position(times: Seq<u32>, k: int) -> (i: int)
    requires
        0 <= k < times.len(),
    ensures
        is_at_position(times, i, k),
    decreases k,
{
    let n = times.len() as int;
    if k == 0 {
        let i = first_in_order(times, n);
        lemma_nothing_before(times, i, n);
        i
    } else {
        let p = header_at_position(times, k - 1);
        let next = next_in_order(times, p, n);
        if next == -1 {
            lemma_last_in_order(times, p, n);
            p
        } else {
            lemma_next_in_order(times, p, next, n);
            next
        }
    }
}

/// Every position below the length of the window is taken: the positions
/// are the window in another order, and the header at a position is the
/// one that the order puts there.
pub proof fn lemma_every_position_is_taken(times: Seq<u32>, k: int)
    requires
        0 <= k < times.len(),
    ensures
        is_at_position(times, index_at_position(times, k), k),
{
    let i = header_at_position(times, k);
    assert(is_at_position(times, i, k));
}

/// Whether the header at `a` comes before the one at `b`.
fn comes_before(times: &Vec<u32>, a: usize, b: usize) -> (before: bool)
    requires
        a < times@.len(),
        b < times@.len(),
    ensures
        before == sorts_before(times@, a as int, b as int),
{
    times[a] < times[b] || (times[a] == times[b] && a < b)
}

/// The index of the header that stands at position `k` once the window is
/// ordered by time, headers with equal times keeping their order.
pub fn select_by_time(times: &Vec<u32>, k: usize) -> (index: usize)
    requires
        k < times@.len(),
    ensures
        is_at_position(times@, index as int, k as int),
        index == index_at_position(times@, k as int),
{
    let n = times.len();
    let mut cur: usize = 0;
    let mut j: usize = 1;
    while j < n
        invariant
            n == times@.len(),
            cur < j <= n,
            forall|l: int| 0 <= l < j ==> !sorts_before(times@, l, cur as int),
        decreases n - j,
    {
        let ghost before = cur;
        if times[j] < times[cur] {
            cur = j;
        }
        proof {
            assert forall|l: int| 0 <= l < j + 1 implies !sorts_before(times@, l, cur as int) by {
                if l < j {
                    assert(!sorts_before(times@, l, before as int));
                }
            }
        }
        j += 1;
    }
    proof {
        lemma_nothing_before(times@, cur as int, n as int);
    }
    let mut rank: usize = 0;
    while rank < k
        invariant
            n == times@.len(),
            cur < n,
            rank <= k < n,
            sorted_position(times@, cur as int) == rank,
        decreases k - rank,
    {
        let mut best: usize = n;
        let mut j: usize = 0;
        while j < n
            invariant
                n == times@.len(),
                cur < n,
                j <= n,
                best <= n,
                best < n ==> sorts_before(times@, cur as int, best as int),
                best < n ==> forall|l: int|
                    0 <= l < j && sorts_before(times@, cur as int, l) ==> !sorts_before(
                        times@,
                        l,
                        best as int,
                    ),
                best == n ==> forall|l: int| 0 <= l < j ==> !sorts_before(times@, cur as int, l),
            decreases n - j,
        {
            let ghost before = best;
            if comes_before(times, cur, j) && (best == n || comes_before(times, j, best)) {
                best = j;
            }
            proof {
                if best < n {
                    assert forall|l: int|
                        0 <= l < j + 1 && sorts_before(times@, cur as int, l) implies !sorts_before(
                        times@,
                        l,
                        best as int,
                    ) by {
                        if l < j && before < n {
                            assert(!sorts_before(times@, l, before as int));
                        }
                        if l < j && before == n {
                            assert(!sorts_before(times@, cur as int, l));
                        }
                    }
                }
            }
            j += 1;
        }
        proof {
            if best == n {
                lemma_last_in_order(times@, cur as int, n as int);
            } else {
                lemma_next_in_order(times@, cur as int, best as int, n as int);
            }
        }
        cur = best;
        rank += 1;
    }
    proof {
        let chosen = index_at_position(times@, k as int);
        assert(is_at_position(times@, cur as int, k as int));
        lemma_position_unique(times@, cur as int, chosen);
    }
    cur
}

} // verus!
