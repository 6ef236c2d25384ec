//! The sorting micro-benchmark harness: a bubble sort and a merge sort over
//! sequences of unsigned integers, used to compare the two complexity
//! classes at the same data sizes as the entity benchmarks.
//!
//! Both sorts leave the sequence sorted ascending and preserve the multiset
//! of values.  The bubble sort includes the early-exit optimization: a pass
//! that performs no swap ends the sort, so an already-sorted input is read
//! once and left untouched (best case O(n)).  The merge sort is buffered: a
//! merge allocates a fresh vector for its result rather than working in
//! place.

use vstd::prelude::*;
use vstd::relations::{sorted_by, total_ordering};
use vstd::seq_lib::group_to_multiset_ensures;
use vstd::seq_lib::lemma_sorted_unique;
use vstd::seq_lib::to_multiset_update;

verus! {

/// A sequence is sorted ascending.
pub open spec fn sorted(s: Seq<u64>) -> bool {
    forall|i: int, j: int| 0 <= i <= j < s.len() ==> s[i] <= s[j]
}

/// The ascending order on `u64`, as a relation, for vstd's order lemmas.
pub open spec fn u64_leq() -> spec_fn(u64, u64) -> bool {
    |x: u64, y: u64| x <= y
}

/// `sorted` coincides with vstd's `sorted_by` under the ascending order.
pub proof fn lemma_sorted_is_sorted_by(s: Seq<u64>)
    ensures
        sorted(s) <==> sorted_by(s, u64_leq()),
{
    if sorted_by(s, u64_leq()) {
        assert forall|i: int, j: int| 0 <= i <= j < s.len() implies s[i] <= s[j] by {
            if i < j {
                assert(u64_leq()(s[i], s[j]));
            }
        }
    }
}

/// Two sequences that are each sorted ascending and hold the same multiset
/// of values are equal: a sorted permutation is unique.  This is what makes
/// the two sorting algorithms semantically equivalent on every input.
pub proof fn lemma_sorted_permutation_unique(a: Seq<u64>, b: Seq<u64>)
    requires
        sorted(a),
        sorted(b),
        a.to_multiset() == b.to_multiset(),
    ensures
        a == b,
{
    let leq = u64_leq();
    assert(total_ordering(leq)) by {
        assert forall|x: u64, y: u64| #[trigger] leq(x, y) || #[trigger] leq(y, x) by {}
    }
    lemma_sorted_is_sorted_by(a);
    lemma_sorted_is_sorted_by(b);
    lemma_sorted_unique(a, b, leq);
}

/// A sort applied to an already-sorted sequence returns it unchanged: the
/// output is a sorted permutation of the input, and the input is one too.
pub proof fn lemma_sort_of_sorted_is_identity(input: Seq<u64>, output: Seq<u64>)
    requires
        sorted(input),
        sorted(output),
        input.to_multiset() == output.to_multiset(),
    ensures
        output == input,
{
    lemma_sorted_permutation_unique(input, output);
}

/// Swapping two entries of a sequence preserves its multiset of values.
proof fn lemma_swap_preserves_multiset(s: Seq<u64>, i: int, j: int)
    requires
        0 <= i < s.len(),
        0 <= j < s.len(),
    ensures
        s.update(i, s[j]).update(j, s[i]).to_multiset() == s.to_multiset(),
{
    broadcast use to_multiset_update;
    broadcast use group_to_multiset_ensures;
    broadcast use vstd::multiset::group_multiset_axioms;

    if i == j {
        assert(s.update(i, s[j]).update(j, s[i]) =~= s);
    } else {
        let t = s.update(i, s[j]);
        assert(t[j] == s[j]);
        assert(t.update(j, s[i]).to_multiset() =~= s.to_multiset());
    }
}

/// Repeated adjacent-pair comparison and swap, ascending, in place.  A pass
/// that swaps nothing ends the sort early, so a sorted input is a no-op.
pub fn bubble_sort(v: &mut Vec<u64>)
    ensures
        sorted(final(v)@),
        final(v)@.to_multiset() == old(v)@.to_multiset(),
{
    let n = v.len();
    if n < 2 {
        return ;
    }
    let mut end = n;
    while end > 1
        invariant
            1 <= end <= n,
            n == v@.len(),
            v@.to_multiset() == old(v)@.to_multiset(),
            // every element before `end` is at most every element from `end` on
            forall|k1: int, k2: int|
                0 <= k1 < end <= k2 < n ==> v@[k1] <= v@[k2],
            // the suffix from `end` on is already sorted
            forall|k1: int, k2: int|
                end <= k1 <= k2 < n ==> v@[k1] <= v@[k2],
        decreases end,
    {
        let mut j: usize = 0;
        let mut swapped = false;
        while j + 1 < end
            invariant
                1 <= end <= n,
                j + 1 <= end,
                n == v@.len(),
                v@.to_multiset() == old(v)@.to_multiset(),
                forall|k1: int, k2: int|
                    0 <= k1 < end <= k2 < n ==> v@[k1] <= v@[k2],
                forall|k1: int, k2: int|
                    end <= k1 <= k2 < n ==> v@[k1] <= v@[k2],
                // the element at `j` is the largest seen so far in this pass
                forall|k: int| 0 <= k <= j ==> v@[k] <= v@[j as int],
                // a swap-free pass so far means the prefix is sorted
                !swapped ==> forall|k1: int, k2: int|
                    0 <= k1 <= k2 <= j ==> v@[k1] <= v@[k2],
            decreases end - j,
        {
            if v[j] > v[j + 1] {
                let a = v[j];
                let b = v[j + 1];
                proof {
                    lemma_swap_preserves_multiset(v@, j as int, j + 1);
                }
                v[j] = b;
                v[j + 1] = a;
                swapped = true;
            }
            j += 1;
        }
        if !swapped {
            return ;
        }
        end -= 1;
    }
}

/// Merges two sorted vectors into one sorted vector holding the values of
/// both.
fn merge(a: &Vec<u64>, b: &Vec<u64>) -> (r: Vec<u64>)
    requires
        sorted(a@),
        sorted(b@),
    ensures
        sorted(r@),
        r@.to_multiset() == (a@ + b@).to_multiset(),
        r@.len() == a@.len() + b@.len(),
{
    broadcast use group_to_multiset_ensures;
    broadcast use vstd::multiset::group_multiset_axioms;

    let mut r: Vec<u64> = Vec::new();
    let mut i: usize = 0;
    let mut j: usize = 0;
    while i < a.len() || j < b.len()
        invariant
            sorted(a@),
            sorted(b@),
            i <= a@.len(),
            j <= b@.len(),
            r@.len() == i + j,
            sorted(r@),
            r@.to_multiset() == a@.take(i as int).to_multiset().add(
                b@.take(j as int).to_multiset(),
            ),
            // everything already emitted is at most what is still pending
            forall|k: int, l: int| 0 <= k < r@.len() && i <= l < a@.len() ==> r@[k] <= a@[l],
            forall|k: int, l: int| 0 <= k < r@.len() && j <= l < b@.len() ==> r@[k] <= b@[l],
        decreases a@.len() - i + b@.len() - j,
    {
        let ghost prev = r@;
        if j == b.len() || (i < a.len() && a[i] <= b[j]) {
            r.push(a[i]);
            proof {
                broadcast use group_to_multiset_ensures;
                broadcast use vstd::multiset::group_multiset_axioms;

                let x = a@[i as int];
                assert(a@.take(i + 1) =~= a@.take(i as int).push(x));
                assert(a@.take(i as int).push(x).to_multiset() == a@.take(
                    i as int,
                ).to_multiset().insert(x));
                assert(r@ == prev.push(x));
                assert(prev.push(x).to_multiset() == prev.to_multiset().insert(x));
                assert(r@.to_multiset() =~= a@.take(i + 1).to_multiset().add(
                    b@.take(j as int).to_multiset(),
                ));
            }
            i += 1;
        } else {
            r.push(b[j]);
            proof {
                broadcast use group_to_multiset_ensures;
                broadcast use vstd::multiset::group_multiset_axioms;

                let x = b@[j as int];
                assert(b@.take(j + 1) =~= b@.take(j as int).push(x));
                assert(b@.take(j as int).push(x).to_multiset() == b@.take(
                    j as int,
                ).to_multiset().insert(x));
                assert(r@ == prev.push(x));
                assert(prev.push(x).to_multiset() == prev.to_multiset().insert(x));
                assert(r@.to_multiset() =~= a@.take(i as int).to_multiset().add(
                    b@.take(j + 1).to_multiset(),
                ));
            }
            j += 1;
        }
    }
    proof {
        assert(a@.take(i as int) =~= a@);
        assert(b@.take(j as int) =~= b@);
        vstd::seq_lib::lemma_multiset_commutative(a@, b@);
    }
    r
}

/// Sorts the range `[lo, hi)` of `v` into a fresh vector by recursive
/// halving and linear merging.
fn merge_sort_rec(v: &Vec<u64>, lo: usize, hi: usize) -> (r: Vec<u64>)
    requires
        lo <= hi <= v@.len(),
    ensures
        sorted(r@),
        r@.to_multiset() == v@.subrange(lo as int, hi as int).to_multiset(),
        r@.len() == hi - lo,
    decreases hi - lo,
{
    broadcast use group_to_multiset_ensures;
    broadcast use vstd::multiset::group_multiset_axioms;

    if hi - lo <= 1 {
        let mut r: Vec<u64> = Vec::new();
        if hi - lo == 1 {
            r.push(v[lo]);
            proof {
                assert(v@.subrange(lo as int, hi as int) =~= Seq::<u64>::empty().push(
                    v@[lo as int],
                ));
                assert(r@ =~= Seq::<u64>::empty().push(v@[lo as int]));
            }
        } else {
            proof {
                assert(v@.subrange(lo as int, hi as int) =~= Seq::<u64>::empty());
            }
        }
        r
    } else {
        let mid = lo + (hi - lo) / 2;
        let left = merge_sort_rec(v, lo, mid);
        let right = merge_sort_rec(v, mid, hi);
        let r = merge(&left, &right);
        proof {
            assert(v@.subrange(lo as int, mid as int) + v@.subrange(mid as int, hi as int)
                =~= v@.subrange(lo as int, hi as int));
            vstd::seq_lib::lemma_multiset_commutative(left@, right@);
            vstd::seq_lib::lemma_multiset_commutative(
                v@.subrange(lo as int, mid as int),
                v@.subrange(mid as int, hi as int),
            );
        }
        r
    }
}

/// Recursive halving plus linear merge, ascending.  Buffered: each merge
/// writes into a freshly allocated vector, O(n) auxiliary space per level.
pub fn merge_sort(v: &mut Vec<u64>)
    ensures
        sorted(final(v)@),
        final(v)@.to_multiset() == old(v)@.to_multiset(),
{
    let n = v.len();
    let r = merge_sort_rec(v, 0, n);
    proof {
        assert(old(v)@.subrange(0, n as int) =~= old(v)@);
    }
    *v = r;
}

} // verus!
