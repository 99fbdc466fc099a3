//! Facts about filtered sequences.

use vstd::prelude::*;

verus! {

/// A filter that accepts every item changes nothing.
pub(crate) proof fn lemma_filter_all<A>(items: Seq<A>, pred: spec_fn(A) -> bool)
    requires
        forall|i: int| 0 <= i < items.len() ==> pred(#[trigger] items[i]),
    ensures
        items.filter(pred) == items,
    decreases items.len(),
{
    reveal(Seq::filter);
    if items.len() > 0 {
        let rest = items.drop_last();
        assert forall|i: int| 0 <= i < rest.len() implies pred(#[trigger] rest[i]) by {
            assert(rest[i] == items[i]);
        }
        lemma_filter_all(rest, pred);
        assert(items =~= rest.push(items.last()));
    }
}

/// A filter that accepts no item leaves nothing.
pub(crate) proof fn lemma_filter_none<A>(items: Seq<A>, pred: spec_fn(A) -> bool)
    requires
        forall|i: int| 0 <= i < items.len() ==> !pred(#[trigger] items[i]),
    ensures
        items.filter(pred) == Seq::<A>::empty(),
    decreases items.len(),
{
    reveal(Seq::filter);
    if items.len() > 0 {
        let rest = items.drop_last();
        assert forall|i: int| 0 <= i < rest.len() implies !pred(#[trigger] rest[i]) by {
            assert(rest[i] == items[i]);
        }
        lemma_filter_none(rest, pred);
    } else {
        assert(items =~= Seq::<A>::empty());
    }
}

/// Every item that a filter leaves is accepted, and was there before.
pub(crate) proof fn lemma_filter_items<A>(items: Seq<A>, pred: spec_fn(A) -> bool)
    ensures
        forall|i: int|
            0 <= i < items.filter(pred).len() ==> pred(#[trigger] items.filter(pred)[i])
                && items.contains(items.filter(pred)[i]),
{
    broadcast use {
        Seq::lemma_filter_pred,
        Seq::lemma_filter_contains_rev,
    };

    assert forall|i: int| 0 <= i < items.filter(pred).len() implies items.contains(
        #[trigger] items.filter(pred)[i],
    ) by {
        items.lemma_filter_contains_rev(pred, items.filter(pred)[i]);
    }
}

/// Two filters, one after the other, are the filter that asks for both.
pub(crate) proof fn lemma_filter_twice<A>(
    items: Seq<A>,
    first: spec_fn(A) -> bool,
    second: spec_fn(A) -> bool,
    both: spec_fn(A) -> bool,
)
    requires
        forall|item: A| #[trigger] both(item) == (first(item) && second(item)),
    ensures
        items.filter(first).filter(second) == items.filter(both),
    decreases items.len(),
{
    reveal(Seq::filter);
    if items.len() > 0 {
        let rest = items.drop_last();
        lemma_filter_twice(rest, first, second, both);
        rest.filter(first).lemma_filter_push(items.last(), second);
        assert(both(items.last()) == (first(items.last()) && second(items.last())));
    }
}

/// Empty parts of a sequence can be left out.
pub(crate) proof fn lemma_concat_empty<A>(first: Seq<A>, second: Seq<A>)
    ensures
        first + Seq::empty() == first,
        Seq::empty() + first == first,
        first + Seq::empty() + second + Seq::empty() == first + second,
        Seq::empty() + first + Seq::empty() + second == first + second,
{
    assert(first + Seq::empty() =~= first);
    assert(Seq::empty() + first =~= first);
    assert(first + Seq::empty() + second + Seq::empty() =~= first + second);
    assert(Seq::empty() + first + Seq::empty() + second =~= first + second);
}

/// Predicates that agree on every item make the same filter.
pub(crate) proof fn lemma_filter_same<A>(
    items: Seq<A>,
    first: spec_fn(A) -> bool,
    second: spec_fn(A) -> bool,
)
    requires
        forall|item: A| #[trigger] first(item) == second(item),
    ensures
        items.filter(first) == items.filter(second),
{
    assert(first =~= second);
}

/// Filtering and mapping two sequences, one behind the other, is doing so to each.
pub(crate) proof fn lemma_filter_map_concat<A, B>(
    first: Seq<A>,
    second: Seq<A>,
    f: spec_fn(A) -> Option<B>,
)
    ensures
        (first + second).filter_map(f) == first.filter_map(f) + second.filter_map(f),
    decreases second.len(),
{
    if second.len() == 0 {
        assert(first + second =~= first);
        assert(first.filter_map(f) + second.filter_map(f) =~= first.filter_map(f));
    } else {
        let before = second.drop_last();
        lemma_filter_map_concat(first, before, f);
        assert((first + second).drop_last() =~= first + before);
        assert((first + second).filter_map(f) =~= first.filter_map(f) + second.filter_map(f));
    }
}

/// Where only one item is accepted, the filter leaves it alone.
pub(crate) proof fn lemma_filter_only<A>(items: Seq<A>, pred: spec_fn(A) -> bool, i: int)
    requires
        0 <= i < items.len(),
        pred(items[i]),
        forall|k: int| 0 <= k < items.len() && k != i ==> !pred(#[trigger] items[k]),
    ensures
        items.filter(pred) == seq![items[i]],
{
    lemma_filter_next(items, pred, i);
    let rest = items.skip(i + 1);
    assert forall|k: int| 0 <= k < rest.len() implies !pred(#[trigger] rest[k]) by {
        assert(rest[k] == items[i + 1 + k]);
    }
    lemma_filter_none(rest, pred);
    let before = items.take(i);
    assert forall|k: int| 0 <= k < before.len() implies !pred(#[trigger] before[k]) by {
        assert(before[k] == items[k]);
    }
    lemma_filter_none(before, pred);
    assert(items.filter(pred) =~= seq![items[i]]);
}

/// A filter takes an item that it accepts behind what it left of the items before.
pub(crate) proof fn lemma_filter_next<A>(items: Seq<A>, pred: spec_fn(A) -> bool, i: int)
    requires
        0 <= i < items.len(),
        pred(items[i]),
    ensures
        items.filter(pred) == items.take(i).filter(pred) + seq![items[i]] + items.skip(
            i + 1,
        ).filter(pred),
{
    let (before, rest) = (items.take(i), items.skip(i + 1));
    assert(items =~= before.push(items[i]) + rest);
    Seq::filter_distributes_over_add(before.push(items[i]), rest, pred);
    before.lemma_filter_push(items[i], pred);
    assert(before.filter(pred).push(items[i]) =~= before.filter(pred) + seq![items[i]]);
}

} // verus!
