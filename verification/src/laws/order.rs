//! Sorting.

use vstd::prelude::*;

use crate::order::{
    by_rank, drop_alike, drop_repeats_keeps_order, is_ranking, sort_is_a_permutation, sort_items,
    sort_sorts, Ranked,
};

verus! {

/// Sorted items are those given, none of them before one that ranks lower.
pub proof fn sorted_items_are_those_given<T: Ranked>(items: Vec<T>, r: Vec<T>, i: int, j: int)
    requires
        call_ensures(sort_items::<T>, (items,), r),
        is_ranking(by_rank::<T>()),
    ensures
        r@.to_multiset() == items@.to_multiset(),
        r@.len() == items@.len(),
        0 <= i < j < r@.len() ==> !r@[j].precedes(r@[i]),
{
    sort_is_a_permutation(items@, by_rank::<T>());
    sort_sorts(items@, by_rank::<T>());
    if 0 <= i < j < r@.len() {
        assert(!by_rank::<T>()(r@[j], r@[i]));
    }
}

/// Items in order that rank alike are dropped but for one; each that stays was given.
pub proof fn alike_items_are_dropped<T: Ranked>(items: Vec<T>, r: Vec<T>, i: int)
    requires
        call_ensures(drop_alike::<T>, (items,), r),
        crate::order::is_sorted(items@, by_rank::<T>()),
    ensures
        0 <= i < r@.len() ==> items@.contains(r@[i]),
        0 < i < r@.len() ==> r@[i - 1].precedes(r@[i]),
{
    drop_repeats_keeps_order(items@, crate::order::alike::<T>(), by_rank::<T>());
    if 0 < i < r@.len() {
        assert(!by_rank::<T>()(r@[i], r@[i - 1]));
        assert(!crate::order::alike::<T>()(r@[i - 1], r@[i]));
    }
}

} // verus!
