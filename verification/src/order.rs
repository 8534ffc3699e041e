//! Sorting that keeps the order of equal items.

use vstd::prelude::*;

use crate::text::{before, text_before};

verus! {

/// `s` with `x` put in behind the items that do not come after it.
pub open spec fn insert_stable<T>(s: Seq<T>, x: T, before: spec_fn(T, T) -> bool) -> Seq<T>
    decreases s.len(),
{
    if s.len() > 0 && before(x, s.last()) {
        insert_stable(s.drop_last(), x, before).push(s.last())
    } else {
        s.push(x)
    }
}

/// The items in the order that `before` gives, those that it does not tell apart
/// in the order in which they stood.
pub open spec fn stable_sort<T>(s: Seq<T>, before: spec_fn(T, T) -> bool) -> Seq<T>
    decreases s.len(),
{
    if s.len() == 0 {
        Seq::empty()
    } else {
        insert_stable(stable_sort(s.drop_last(), before), s.last(), before)
    }
}

/// `before` is a strict order that tells items apart by rank.
pub open spec fn is_ranking<T>(before: spec_fn(T, T) -> bool) -> bool {
    &&& forall|a: T| !#[trigger] before(a, a)
    &&& forall|a: T, b: T, c: T|
        #![trigger before(a, b), before(b, c)]
        #![trigger before(a, c), before(b, c)]
        before(a, b) && before(b, c) ==> before(a, c)
    &&& forall|a: T, b: T, c: T|
        #![trigger before(a, b), before(b, c)]
        #![trigger before(a, c), before(b, c)]
        !before(a, b) && !before(b, c) ==> !before(a, c)
}

/// No item comes after one that stands behind it.
pub open spec fn is_sorted<T>(s: Seq<T>, before: spec_fn(T, T) -> bool) -> bool {
    forall|i: int, j: int| 0 <= i < j < s.len() ==> !before(#[trigger] s[j], #[trigger] s[i])
}

pub proof fn lemma_insert_stable_position<T>(
    s: Seq<T>,
    x: T,
    before: spec_fn(T, T) -> bool,
    pos: int,
)
    requires
        0 <= pos <= s.len(),
        forall|k: int| pos <= k < s.len() ==> before(x, #[trigger] s[k]),
        pos > 0 ==> !before(x, s[pos - 1]),
    ensures
        insert_stable(s, x, before) == s.insert(pos, x),
    decreases s.len(),
{
    if pos == s.len() {
        assert(s.insert(pos, x) =~= s.push(x));
    } else {
        assert(before(x, s[s.len() - 1]));
        lemma_insert_stable_position(s.drop_last(), x, before, pos);
        assert(s.drop_last().insert(pos, x).push(s.last()) =~= s.insert(pos, x));
    }
}

/// Putting an item in adds just that item.
pub proof fn insert_adds_one<T>(s: Seq<T>, x: T, before: spec_fn(T, T) -> bool)
    ensures
        insert_stable(s, x, before).to_multiset() == s.to_multiset().insert(x),
        insert_stable(s, x, before).len() == s.len() + 1,
    decreases s.len(),
{
    broadcast use vstd::seq_lib::group_to_multiset_ensures;

    if s.len() > 0 && before(x, s.last()) {
        let t = s.drop_last();
        insert_adds_one(t, x, before);
        assert(s =~= t.push(s.last()));
        assert(insert_stable(s, x, before).to_multiset() =~= s.to_multiset().insert(x));
    }
}

/// Sorting neither loses nor adds an item.
pub proof fn sort_is_a_permutation<T>(s: Seq<T>, before: spec_fn(T, T) -> bool)
    ensures
        stable_sort(s, before).to_multiset() == s.to_multiset(),
        stable_sort(s, before).len() == s.len(),
    decreases s.len(),
{
    broadcast use vstd::seq_lib::group_to_multiset_ensures;

    if s.len() > 0 {
        sort_is_a_permutation(s.drop_last(), before);
        insert_adds_one(stable_sort(s.drop_last(), before), s.last(), before);
        assert(s =~= s.drop_last().push(s.last()));
    } else {
        assert(stable_sort(s, before) =~= s);
    }
}

proof fn lemma_insert_member<T>(s: Seq<T>, x: T, before: spec_fn(T, T) -> bool, y: T)
    ensures
        insert_stable(s, x, before).contains(y) <==> (s.contains(y) || y == x),
{
    broadcast use vstd::seq_lib::group_to_multiset_ensures;

    insert_adds_one(s, x, before);
    let t = insert_stable(s, x, before);
    assert(t.contains(y) <==> t.to_multiset().count(y) > 0);
    assert(s.contains(y) <==> s.to_multiset().count(y) > 0);
}

/// An item is in the sorted sequence where it is in the given one.
pub proof fn sort_keeps_members<T>(s: Seq<T>, before: spec_fn(T, T) -> bool, y: T)
    ensures
        stable_sort(s, before).contains(y) <==> s.contains(y),
{
    broadcast use vstd::seq_lib::group_to_multiset_ensures;

    sort_is_a_permutation(s, before);
    let t = stable_sort(s, before);
    assert(t.contains(y) <==> t.to_multiset().count(y) > 0);
    assert(s.contains(y) <==> s.to_multiset().count(y) > 0);
}

proof fn lemma_insert_sorted<T>(s: Seq<T>, x: T, before: spec_fn(T, T) -> bool)
    requires
        is_ranking(before),
        is_sorted(s, before),
    ensures
        is_sorted(insert_stable(s, x, before), before),
    decreases s.len(),
{
    let r = insert_stable(s, x, before);
    if s.len() > 0 && before(x, s.last()) {
        let t = s.drop_last();
        assert(is_sorted(t, before));
        lemma_insert_sorted(t, x, before);
        let q = insert_stable(t, x, before);
        assert forall|i: int, j: int| 0 <= i < j < r.len() implies !before(
            #[trigger] r[j],
            #[trigger] r[i],
        ) by {
            if j == r.len() - 1 {
                lemma_insert_member(t, x, before, r[i]);
                assert(q[i] == r[i]);
                assert(q.contains(q[i]));
                if t.contains(r[i]) {
                    let k = choose|k: int| 0 <= k < t.len() && t[k] == r[i];
                    assert(s[k] == r[i]);
                    assert(!before(s[s.len() - 1], s[k]));
                } else {
                    assert(r[i] == x);
                    if before(s.last(), x) {
                        assert(before(x, x));
                    }
                }
            } else {
                assert(q[i] == r[i]);
                assert(q[j] == r[j]);
            }
        }
    } else {
        assert forall|i: int, j: int| 0 <= i < j < r.len() implies !before(
            #[trigger] r[j],
            #[trigger] r[i],
        ) by {
            if j == r.len() - 1 {
                assert(r[i] == s[i]);
                if i < s.len() - 1 {
                    assert(!before(s[s.len() - 1], s[i]));
                }
                assert(!before(x, s.last()));
            } else {
                assert(r[i] == s[i]);
                assert(r[j] == s[j]);
            }
        }
    }
}

/// Sorting by a ranking puts the items in its order.
pub proof fn sort_sorts<T>(s: Seq<T>, before: spec_fn(T, T) -> bool)
    requires
        is_ranking(before),
    ensures
        is_sorted(stable_sort(s, before), before),
    decreases s.len(),
{
    if s.len() > 0 {
        sort_sorts(s.drop_last(), before);
        lemma_insert_sorted(stable_sort(s.drop_last(), before), s.last(), before);
    }
}

/// A sequence that is in order already is left alone by sorting.
pub proof fn sort_keeps_sorted<T>(s: Seq<T>, before: spec_fn(T, T) -> bool)
    requires
        is_sorted(s, before),
    ensures
        stable_sort(s, before) == s,
    decreases s.len(),
{
    if s.len() > 0 {
        let t = s.drop_last();
        assert(is_sorted(t, before));
        sort_keeps_sorted(t, before);
        if t.len() > 0 {
            assert(t.last() == s[s.len() - 2]);
            assert(!before(s[s.len() - 1], s[s.len() - 2]));
        }
        assert(s =~= t.push(s.last()));
    } else {
        assert(stable_sort(s, before) =~= s);
    }
}

/// `s` without the items that repeat the one before them.
pub open spec fn drop_repeats<T>(s: Seq<T>, same: spec_fn(T, T) -> bool) -> Seq<T>
    decreases s.len(),
{
    if s.len() == 0 {
        Seq::empty()
    } else {
        let head = drop_repeats(s.drop_last(), same);
        if head.len() > 0 && same(head.last(), s.last()) {
            head
        } else {
            head.push(s.last())
        }
    }
}

/// Dropping repeats keeps the order.
pub proof fn drop_repeats_keeps_order<T>(
    s: Seq<T>,
    same: spec_fn(T, T) -> bool,
    before: spec_fn(T, T) -> bool,
)
    requires
        is_sorted(s, before),
    ensures
        is_sorted(drop_repeats(s, same), before),
        forall|i: int|
            0 <= i < drop_repeats(s, same).len() ==> s.contains(
                #[trigger] drop_repeats(s, same)[i],
            ),
        forall|i: int|
            0 < i < drop_repeats(s, same).len() ==> !same(
                drop_repeats(s, same)[i - 1],
                #[trigger] drop_repeats(s, same)[i],
            ),
        drop_repeats(s, same).len() <= s.len(),
    decreases s.len(),
{
    if s.len() > 0 {
        let t = s.drop_last();
        assert(is_sorted(t, before));
        drop_repeats_keeps_order(t, same, before);
        let head = drop_repeats(t, same);
        let r = drop_repeats(s, same);
        assert forall|i: int| 0 <= i < r.len() implies s.contains(#[trigger] r[i]) by {
            if i < head.len() {
                assert(head[i] == r[i]);
                assert(t.contains(head[i]));
                let k = choose|k: int| 0 <= k < t.len() && t[k] == head[i];
                assert(s[k] == r[i]);
            } else {
                assert(s[s.len() - 1] == r[i]);
            }
        }
        assert forall|i: int, j: int| 0 <= i < j < r.len() implies !before(
            #[trigger] r[j],
            #[trigger] r[i],
        ) by {
            assert(r[i] == head[i]);
            if j < head.len() {
                assert(r[j] == head[j]);
            } else {
                assert(t.contains(head[i]));
                let k = choose|k: int| 0 <= k < t.len() && t[k] == head[i];
                assert(s[k] == r[i]);
                assert(s[s.len() - 1] == r[j]);
            }
        }
        assert forall|i: int| 0 < i < r.len() implies !same(r[i - 1], #[trigger] r[i]) by {
            if i < head.len() {
                assert(head[i] == r[i]);
                assert(head[i - 1] == r[i - 1]);
            }
        }
    }
}

/// A sequence without repeats is left alone.
pub proof fn drop_repeats_keeps_distinct<T>(s: Seq<T>, same: spec_fn(T, T) -> bool)
    requires
        forall|i: int| 0 < i < s.len() ==> !same(s[i - 1], #[trigger] s[i]),
    ensures
        drop_repeats(s, same) == s,
    decreases s.len(),
{
    if s.len() > 0 {
        let t = s.drop_last();
        assert forall|i: int| 0 < i < t.len() implies !same(t[i - 1], #[trigger] t[i]) by {
            assert(s[i] == t[i]);
        }
        drop_repeats_keeps_distinct(t, same);
        if t.len() > 0 {
            assert(!same(s[s.len() - 2], s[s.len() - 1]));
        }
        assert(s =~= t.push(s.last()));
    } else {
        assert(drop_repeats(s, same) =~= s);
    }
}

/// The first item that `p` picks.
pub open spec fn first_such<T>(s: Seq<T>, p: spec_fn(T) -> bool) -> Option<T>
    decreases s.len(),
{
    if s.len() == 0 {
        None
    } else {
        match first_such(s.drop_last(), p) {
            Some(x) => Some(x),
            None => if p(s.last()) {
                Some(s.last())
            } else {
                None
            },
        }
    }
}

/// The item at `k` is the first that `p` picks, where it picks none before.
pub proof fn first_such_at<T>(s: Seq<T>, p: spec_fn(T) -> bool, k: int)
    requires
        0 <= k < s.len(),
        p(s[k]),
        forall|j: int| 0 <= j < k ==> !p(#[trigger] s[j]),
    ensures
        first_such(s, p) == Some(s[k]),
    decreases s.len(),
{
    let t = s.drop_last();
    if k < s.len() - 1 {
        first_such_at(t, p, k);
    } else {
        first_such_found(t, p);
    }
}

/// The first item that `p` picks stands in the sequence, with none before it that `p`
/// picks; there is none only where `p` picks none.
pub proof fn first_such_found<T>(s: Seq<T>, p: spec_fn(T) -> bool)
    ensures
        match first_such(s, p) {
            Some(x) => p(x) && exists|k: int|
                0 <= k < s.len() && #[trigger] s[k] == x && forall|j: int|
                    0 <= j < k ==> !p(#[trigger] s[j]),
            None => forall|j: int| 0 <= j < s.len() ==> !p(#[trigger] s[j]),
        },
    decreases s.len(),
{
    if s.len() > 0 {
        let t = s.drop_last();
        first_such_found(t, p);
        match first_such(t, p) {
            Some(x) => {
                let k = choose|k: int|
                    0 <= k < t.len() && #[trigger] t[k] == x && forall|j: int|
                        0 <= j < k ==> !p(#[trigger] t[j]);
                assert(s[k] == x);
                assert forall|j: int| 0 <= j < k implies !p(#[trigger] s[j]) by {
                    assert(t[j] == s[j]);
                }
            },
            None => {
                assert forall|j: int| 0 <= j < s.len() - 1 implies !p(#[trigger] s[j]) by {
                    assert(t[j] == s[j]);
                }
                assert(s[s.len() - 1] == s.last());
            },
        }
    }
}

proof fn lemma_insert_first<T>(
    s: Seq<T>,
    x: T,
    before: spec_fn(T, T) -> bool,
    p: spec_fn(T) -> bool,
)
    requires
        forall|a: T, b: T| p(a) && p(b) ==> !#[trigger] before(a, b),
    ensures
        first_such(insert_stable(s, x, before), p) == first_such(s.push(x), p),
    decreases s.len(),
{
    reveal_with_fuel(first_such, 3);
    assert(s.push(x).drop_last() =~= s);
    if s.len() > 0 && before(x, s.last()) {
        let t = s.drop_last();
        lemma_insert_first(t, x, before, p);
        assert(t.push(x).drop_last() =~= t);
        let r = insert_stable(t, x, before);
        assert(r.push(s.last()).drop_last() =~= r);
    }
}

/// Of items of one rank, the first before sorting is the first after it.
pub proof fn sort_keeps_the_first<T>(
    s: Seq<T>,
    before: spec_fn(T, T) -> bool,
    p: spec_fn(T) -> bool,
)
    requires
        forall|a: T, b: T| p(a) && p(b) ==> !#[trigger] before(a, b),
    ensures
        first_such(stable_sort(s, before), p) == first_such(s, p),
    decreases s.len(),
{
    if s.len() > 0 {
        let t = s.drop_last();
        sort_keeps_the_first(t, before, p);
        lemma_insert_first(stable_sort(t, before), s.last(), before, p);
        assert(stable_sort(t, before).push(s.last()).drop_last() =~= stable_sort(t, before));
    }
}

/// Dropping repeats keeps the first item of a kind.
pub proof fn drop_repeats_keeps_the_first<T>(
    s: Seq<T>,
    same: spec_fn(T, T) -> bool,
    p: spec_fn(T) -> bool,
)
    requires
        forall|a: T, b: T| #[trigger] same(a, b) && p(b) ==> p(a),
    ensures
        first_such(drop_repeats(s, same), p) == first_such(s, p),
    decreases s.len(),
{
    if s.len() > 0 {
        let t = s.drop_last();
        drop_repeats_keeps_the_first(t, same, p);
        let head = drop_repeats(t, same);
        assert(head.push(s.last()).drop_last() =~= head);
    }
}

// ---------------------------------------------------------------------------
// Sorting vectors

/// Items that have an order.
pub trait Ranked: Sized {
    /// The item comes before the other.
    spec fn precedes(self, other: Self) -> bool;

    /// Tells whether the item comes before the other.
    fn comes_before(&self, other: &Self) -> (r: bool)
        ensures
            r == (*self).precedes(*other),
    ;
}

impl Ranked for String {
    open spec fn precedes(self, other: Self) -> bool {
        text_before(self@, other@)
    }

    fn comes_before(&self, other: &Self) -> (r: bool) {
        before(self.as_str(), other.as_str())
    }
}

/// The order of the items.
pub open spec fn by_rank<T: Ranked>() -> spec_fn(T, T) -> bool {
    |a: T, b: T| a.precedes(b)
}

/// Neither item comes before the other.
pub open spec fn alike<T: Ranked>() -> spec_fn(T, T) -> bool {
    |a: T, b: T| !a.precedes(b) && !b.precedes(a)
}

/// Sorts items, and keeps the order of those that are alike.
pub fn sort_items<T: Ranked>(items: Vec<T>) -> (r: Vec<T>)
    ensures
        r@ == stable_sort(items@, by_rank::<T>()),
{
    let ghost all = items@;
    let ghost mut done: int = 0;
    let mut rest = items;
    let mut out: Vec<T> = Vec::new();
    proof {
        assert(all.skip(0) =~= all);
        assert(all.take(0) =~= Seq::<T>::empty());
    }
    while rest.len() > 0
        invariant
            0 <= done <= all.len(),
            rest@ == all.skip(done),
            out@ == stable_sort(all.take(done), by_rank::<T>()),
        decreases rest@.len(),
    {
        let x = rest.remove(0);
        let mut pos: usize = out.len();
        while pos > 0 && x.comes_before(&out[pos - 1])
            invariant
                pos <= out@.len(),
                forall|k: int| pos <= k < out@.len() ==> x.precedes(#[trigger] out@[k]),
            decreases pos,
        {
            pos = pos - 1;
        }
        proof {
            let before = by_rank::<T>();
            assert forall|k: int| pos <= k < out@.len() implies before(x, #[trigger] out@[k]) by {}
            lemma_insert_stable_position(out@, x, before, pos as int);
            assert(all.take(done + 1).drop_last() =~= all.take(done));
            assert(all.take(done + 1).last() == x);
            assert(rest@ =~= all.skip(done + 1));
            done = done + 1;
        }
        out.insert(pos, x);
    }
    proof {
        assert(all.take(all.len() as int) =~= all);
    }
    out
}

/// Drops the items that are like the one kept before them.
pub fn drop_alike<T: Ranked>(items: Vec<T>) -> (r: Vec<T>)
    ensures
        r@ == drop_repeats(items@, alike::<T>()),
{
    let ghost all = items@;
    let ghost mut done: int = 0;
    let mut rest = items;
    let mut out: Vec<T> = Vec::new();
    proof {
        assert(all.skip(0) =~= all);
        assert(all.take(0) =~= Seq::<T>::empty());
    }
    while rest.len() > 0
        invariant
            0 <= done <= all.len(),
            rest@ == all.skip(done),
            out@ == drop_repeats(all.take(done), alike::<T>()),
        decreases rest@.len(),
    {
        let x = rest.remove(0);
        proof {
            assert(all.take(done + 1).drop_last() =~= all.take(done));
            assert(all.take(done + 1).last() == x);
            assert(rest@ =~= all.skip(done + 1));
            done = done + 1;
        }
        let n = out.len();
        if !(n > 0 && !out[n - 1].comes_before(&x) && !x.comes_before(&out[n - 1])) {
            out.push(x);
        }
    }
    proof {
        assert(all.take(all.len() as int) =~= all);
    }
    out
}

proof fn lemma_insert_through<T, U>(
    s: Seq<T>,
    x: T,
    before: spec_fn(T, T) -> bool,
    seen: spec_fn(T) -> U,
    above: spec_fn(U, U) -> bool,
)
    requires
        forall|a: T, b: T| #[trigger] before(a, b) == above(seen(a), seen(b)),
    ensures
        insert_stable(s, x, before).map_values(seen) == insert_stable(
            s.map_values(seen),
            seen(x),
            above,
        ),
    decreases s.len(),
{
    let t = s.map_values(seen);
    if s.len() > 0 {
        assert(t.last() == seen(s.last()));
        assert(t.drop_last() =~= s.drop_last().map_values(seen));
        assert(before(x, s.last()) == above(seen(x), t.last()));
        if before(x, s.last()) {
            lemma_insert_through(s.drop_last(), x, before, seen, above);
        }
    }
    assert(insert_stable(s, x, before).map_values(seen) =~= insert_stable(t, seen(x), above));
}

/// Sorting by what is seen of the items is sorting what is seen of them.
pub proof fn sort_through<T, U>(
    s: Seq<T>,
    before: spec_fn(T, T) -> bool,
    seen: spec_fn(T) -> U,
    above: spec_fn(U, U) -> bool,
)
    requires
        forall|a: T, b: T| #[trigger] before(a, b) == above(seen(a), seen(b)),
    ensures
        stable_sort(s, before).map_values(seen) == stable_sort(s.map_values(seen), above),
    decreases s.len(),
{
    let t = s.map_values(seen);
    if s.len() > 0 {
        assert(t.drop_last() =~= s.drop_last().map_values(seen));
        sort_through(s.drop_last(), before, seen, above);
        lemma_insert_through(stable_sort(s.drop_last(), before), s.last(), before, seen, above);
    } else {
        assert(stable_sort(s, before).map_values(seen) =~= stable_sort(t, above));
    }
}

/// Dropping repeats by what is seen of the items is dropping repeats of it.
pub proof fn drop_through<T, U>(
    s: Seq<T>,
    same: spec_fn(T, T) -> bool,
    seen: spec_fn(T) -> U,
    equal: spec_fn(U, U) -> bool,
)
    requires
        forall|a: T, b: T| #[trigger] same(a, b) == equal(seen(a), seen(b)),
    ensures
        drop_repeats(s, same).map_values(seen) == drop_repeats(s.map_values(seen), equal),
    decreases s.len(),
{
    let t = s.map_values(seen);
    if s.len() > 0 {
        assert(t.drop_last() =~= s.drop_last().map_values(seen));
        drop_through(s.drop_last(), same, seen, equal);
        let head = drop_repeats(s.drop_last(), same);
        if head.len() > 0 {
            assert(head.map_values(seen).last() == seen(head.last()));
            assert(same(head.last(), s.last()) == equal(seen(head.last()), seen(s.last())));
        }
    }
    assert(drop_repeats(s, same).map_values(seen) =~= drop_repeats(t, equal));
}

} // verus!
