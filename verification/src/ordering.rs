//! Stable sorting by insertion, for the short lists of the browser.

use vstd::prelude::*;

verus! {

/// `sorted` with `x` put in: before those that it goes before, and after
/// all others.
pub open spec fn inserted<T>(sorted: Seq<T>, x: T, before: spec_fn(T, T) -> bool) -> Seq<T>
    decreases sorted.len(),
{
    if sorted.len() > 0 && before(x, sorted.last()) {
        inserted(sorted.drop_last(), x, before).push(sorted.last())
    } else {
        sorted.push(x)
    }
}

/// `items` in the order of `before`; of two items neither of which goes
/// before the other, the one that came first stays first.
pub open spec fn stably_sorted<T>(items: Seq<T>, before: spec_fn(T, T) -> bool) -> Seq<T>
    decreases items.len(),
{
    if items.len() == 0 {
        Seq::empty()
    } else {
        inserted(stably_sorted(items.drop_last(), before), items.last(), before)
    }
}

/// No item stands before one that goes before it.
pub open spec fn in_order<T>(items: Seq<T>, before: spec_fn(T, T) -> bool) -> bool {
    forall|i: int, j: int| 0 <= i < j < items.len() ==> !before(items[j], items[i])
}

/// Whether `before` orders: of two items at most one goes before the other,
/// and an item that does not go before a second, which does not go before a
/// third, does not go before the third.
pub open spec fn is_ordering<T>(before: spec_fn(T, T) -> bool) -> bool {
    &&& forall|a: T, b: T| #[trigger] before(a, b) ==> !before(b, a)
    &&& forall|a: T, b: T, c: T|
        !#[trigger] before(a, b) && !#[trigger] before(b, c) ==> !before(a, c)
}

/// Where `x` goes into `sorted`: at `at`, if `x` goes before everything from
/// there on and not before what stands just before.
pub proof fn lemma_inserted_at<T>(sorted: Seq<T>, x: T, before: spec_fn(T, T) -> bool, at: int)
    requires
        0 <= at <= sorted.len(),
        forall|j: int| at <= j < sorted.len() ==> before(x, sorted[j]),
        at > 0 ==> !before(x, sorted[at - 1]),
    ensures
        inserted(sorted, x, before) == sorted.insert(at, x),
    decreases sorted.len() - at,
{
    if at == sorted.len() {
        assert(sorted.insert(at, x) =~= sorted.push(x));
    } else {
        lemma_inserted_at(sorted.drop_last(), x, before, at);
        assert(sorted.drop_last().insert(at, x).push(sorted.last()) =~= sorted.insert(at, x));
    }
}

/// Putting an item into a sorted sequence keeps it sorted, and adds just
/// that item.
pub proof fn lemma_inserted<T>(sorted: Seq<T>, x: T, before: spec_fn(T, T) -> bool)
    requires
        is_ordering(before),
        in_order(sorted, before),
    ensures
        in_order(inserted(sorted, x, before), before),
        inserted(sorted, x, before).to_multiset() == sorted.to_multiset().insert(x),
        inserted(sorted, x, before).len() == sorted.len() + 1,
    decreases sorted.len(),
{
    broadcast use vstd::seq_lib::group_to_multiset_ensures;

    if sorted.len() > 0 && before(x, sorted.last()) {
        let front = sorted.drop_last();
        lemma_inserted(front, x, before);
        let placed = inserted(front, x, before);
        let all = placed.push(sorted.last());
        assert(sorted =~= front.push(sorted.last()));
        assert forall|i: int, j: int| 0 <= i < j < all.len() implies !before(all[j], all[i]) by {
            if j == all.len() - 1 {
                // What stands in `placed` is `x` or stood in `front`.
                assert(placed.to_multiset().count(placed[i]) > 0);
                if placed[i] != x {
                    assert(front.to_multiset().count(placed[i]) > 0);
                    let k = choose|k: int| 0 <= k < front.len() && front[k] == placed[i];
                    assert(!before(sorted[sorted.len() - 1], sorted[k]));
                }
            } else {
                assert(!before(placed[j], placed[i]));
            }
        }
        assert(all.to_multiset() =~= sorted.to_multiset().insert(x));
    } else {
        let all = sorted.push(x);
        assert forall|i: int, j: int| 0 <= i < j < all.len() implies !before(all[j], all[i]) by {
            if j == all.len() - 1 {
                // `x` does not go before the last, which does not go before
                // any item before it.
                if i < sorted.len() - 1 {
                    assert(!before(sorted[sorted.len() - 1], sorted[i]));
                }
            } else {
                assert(!before(sorted[j], sorted[i]));
            }
        }
    }
}

/// Sorting orders the items and neither drops nor adds one.
pub proof fn lemma_stably_sorted<T>(items: Seq<T>, before: spec_fn(T, T) -> bool)
    requires
        is_ordering(before),
    ensures
        in_order(stably_sorted(items, before), before),
        stably_sorted(items, before).to_multiset() == items.to_multiset(),
        stably_sorted(items, before).len() == items.len(),
    decreases items.len(),
{
    broadcast use vstd::seq_lib::group_to_multiset_ensures;

    if items.len() > 0 {
        lemma_stably_sorted(items.drop_last(), before);
        lemma_inserted(stably_sorted(items.drop_last(), before), items.last(), before);
        assert(items =~= items.drop_last().push(items.last()));
    } else {
        assert(stably_sorted(items, before) =~= items);
    }
}

} // verus!
