//! Percentiles by the nearest-rank method.
//!
//! The `p`-th percentile of `n` values is the value of rank `ceil(n * p / 100)`
//! when the values stand in ascending order (rank 1 is the smallest).

use vstd::prelude::*;
use vstd::multiset::Multiset;
use vstd::relations::{sorted_by, total_ordering};
use vstd::seq_lib::{lemma_multiset_commutative, lemma_sorted_unique, to_multiset_build};

verus! {

/// The order in which values are ranked.
pub open spec fn ascending_order() -> spec_fn(u64, u64) -> bool {
    |a: u64, b: u64| a <= b
}

/// No value stands before a smaller one.
pub open spec fn ascending(values: Seq<u64>) -> bool {
    forall|i: int, j: int| 0 <= i < j < values.len() ==> values[i] <= values[j]
}

/// The values in ascending order.
pub open spec fn in_ascending_order(values: Seq<u64>) -> Seq<u64> {
    values.sort_by(ascending_order())
}

/// The nearest rank of the `percent`-th percentile among `n` values:
/// `ceil(n * percent / 100)`, and rank 1 where that would be 0.
pub open spec fn nearest_rank(n: nat, percent: nat) -> nat {
    let rank = (n * percent + 99) / 100;
    if rank < 1 {
        1
    } else {
        rank
    }
}

/// The `percent`-th percentile of `values`.
pub open spec fn percentile_of(values: Seq<u64>, percent: nat) -> u64
    recommends
        values.len() > 0,
        percent <= 100,
{
    in_ascending_order(values)[nearest_rank(values.len(), percent) - 1]
}

/// The nearest rank lies among the values.
pub proof fn lemma_nearest_rank_bounds(n: nat, percent: nat)
    requires
        n > 0,
        percent <= 100,
    ensures
        1 <= nearest_rank(n, percent) <= n,
{
    assert(n * percent <= n * 100) by (nonlinear_arith)
        requires
            percent <= 100,
    ;
}

/// There is one ascending arrangement of a collection of values: a sequence
/// that is ascending and holds the same values as `values` is
/// `in_ascending_order(values)`.
pub proof fn lemma_ascending_is_unique(values: Seq<u64>, sorted: Seq<u64>)
    requires
        ascending(sorted),
        sorted.to_multiset() == values.to_multiset(),
    ensures
        sorted == in_ascending_order(values),
{
    let order = ascending_order();
    assert(total_ordering(order));
    values.lemma_sort_by_ensures(order);
    assert(sorted_by(sorted, order));
    lemma_sorted_unique(sorted, in_ascending_order(values), order);
}

/// Merges two ascending vectors into one.
fn merge(left: &Vec<u64>, right: &Vec<u64>) -> (merged: Vec<u64>)
    requires
        ascending(left@),
        ascending(right@),
        left.len() + right.len() <= usize::MAX,
    ensures
        ascending(merged@),
        merged@.to_multiset() == left@.to_multiset().add(right@.to_multiset()),
        merged.len() == left.len() + right.len(),
{
    let mut merged: Vec<u64> = Vec::new();
    let mut i: usize = 0;
    let mut j: usize = 0;
    proof {
        broadcast use vstd::multiset::group_multiset_axioms;

        assert(left@.take(0) =~= Seq::<u64>::empty());
        assert(right@.take(0) =~= Seq::<u64>::empty());
        assert(Seq::<u64>::empty().to_multiset() =~= Multiset::<u64>::empty()) by {
            Seq::<u64>::empty().to_multiset_ensures();
        }
        assert(merged@.to_multiset() =~= left@.take(0).to_multiset().add(
            right@.take(0).to_multiset(),
        ));
    }
    while i < left.len() || j < right.len()
        invariant
            i <= left.len(),
            j <= right.len(),
            left.len() + right.len() <= usize::MAX,
            ascending(left@),
            ascending(right@),
            ascending(merged@),
            merged.len() == i + j,
            merged@.to_multiset() == left@.take(i as int).to_multiset().add(
                right@.take(j as int).to_multiset(),
            ),
            forall|k: int| 0 <= k < merged.len() && i < left.len() ==> merged@[k] <= left@[i as int],
            forall|k: int|
                0 <= k < merged.len() && j < right.len() ==> merged@[k] <= right@[j as int],
        decreases left.len() - i + (right.len() - j),
    {
        let take_left = if i >= left.len() {
            false
        } else if j >= right.len() {
            true
        } else {
            left[i] <= right[j]
        };
        let ghost before = merged@;
        if take_left {
            let value = left[i];
            merged.push(value);
            proof {
                assert(left@.take(i + 1) =~= left@.take(i as int).push(value));
                to_multiset_build(before, value);
                to_multiset_build(left@.take(i as int), value);
                assert(merged@.to_multiset() =~= left@.take(i + 1).to_multiset().add(
                    right@.take(j as int).to_multiset(),
                ));
            }
            i = i + 1;
        } else {
            let value = right[j];
            merged.push(value);
            proof {
                assert(right@.take(j + 1) =~= right@.take(j as int).push(value));
                to_multiset_build(before, value);
                to_multiset_build(right@.take(j as int), value);
                assert(merged@.to_multiset() =~= left@.take(i as int).to_multiset().add(
                    right@.take(j + 1).to_multiset(),
                ));
            }
            j = j + 1;
        }
    }
    proof {
        assert(left@.take(i as int) =~= left@);
        assert(right@.take(j as int) =~= right@);
    }
    merged
}

/// Sorts the values at positions `from..to` by merging sorted halves.
fn sort_range(values: &Vec<u64>, from: usize, to: usize) -> (sorted: Vec<u64>)
    requires
        from <= to <= values.len(),
    ensures
        ascending(sorted@),
        sorted@.to_multiset() == values@.subrange(from as int, to as int).to_multiset(),
        sorted.len() == to - from,
    decreases to - from,
{
    if to - from == 0 {
        let sorted: Vec<u64> = Vec::new();
        proof {
            assert(values@.subrange(from as int, to as int) =~= sorted@);
        }
        sorted
    } else if to - from == 1 {
        let mut sorted: Vec<u64> = Vec::new();
        sorted.push(values[from]);
        proof {
            assert(values@.subrange(from as int, to as int) =~= sorted@);
        }
        sorted
    } else {
        let middle = from + (to - from) / 2;
        let left = sort_range(values, from, middle);
        let right = sort_range(values, middle, to);
        let sorted = merge(&left, &right);
        proof {
            let low = values@.subrange(from as int, middle as int);
            let high = values@.subrange(middle as int, to as int);
            assert(values@.subrange(from as int, to as int) =~= low + high);
            lemma_multiset_commutative(low, high);
        }
        sorted
    }
}

/// The values in ascending order.
pub fn sort(values: &Vec<u64>) -> (sorted: Vec<u64>)
    ensures
        sorted@ == in_ascending_order(values@),
        ascending(sorted@),
        sorted@.to_multiset() == values@.to_multiset(),
        sorted.len() == values.len(),
{
    let sorted = sort_range(values, 0, values.len());
    proof {
        assert(values@.subrange(0, values.len() as int) =~= values@);
        lemma_ascending_is_unique(values@, sorted@);
    }
    sorted
}

/// The position, in ascending order, of the `percent`-th percentile among
/// `n` values: its nearest rank less one.
pub fn rank_position(n: usize, percent: u8) -> (position: usize)
    requires
        n > 0,
        percent <= 100,
    ensures
        position == nearest_rank(n as nat, percent as nat) - 1,
        position < n,
{
    proof {
        lemma_nearest_rank_bounds(n as nat, percent as nat);
    }
    let scaled: u128 = (n as u128 * percent as u128 + 99) / 100;
    if scaled < 1 {
        0
    } else {
        (scaled - 1) as usize
    }
}

/// The `percent`-th percentile of `values`, by the nearest-rank method.
/// There is none of no values, and none beyond the hundredth.
pub fn percentile(values: &Vec<u64>, percent: u8) -> (result: Option<u64>)
    ensures
        result is Some <==> values.len() > 0 && percent <= 100,
        result is Some ==> result->Some_0 == percentile_of(values@, percent as nat),
{
    if values.len() == 0 || percent > 100 {
        None
    } else {
        let sorted = sort(values);
        Some(sorted[rank_position(values.len(), percent)])
    }
}

} // verus!
