//! Putting the generics of an impl block and of a function in it together.

use crate::item::{params_view, GenericParam, GenericParamView, GenericsView, WhereClause};
use crate::punctuated::{extend_where_predicates, iter_generic_params};
use crate::seqs::{
    lemma_concat_empty, lemma_filter_all, lemma_filter_items, lemma_filter_none, lemma_filter_same,
};
use crate::tokens::TokensView;
use syn::punctuated::Punctuated;
use syn::token::Comma;
use vstd::prelude::*;

verus! {

/// Generics that were collected from one or more items.
pub struct Generics {
    pub params: Vec<GenericParam>,
    pub where_clause: Option<WhereClause>,
}

impl DeepView for Generics {
    type V = GenericsView;

    open spec fn deep_view(&self) -> GenericsView {
        GenericsView {
            params: self.params.deep_view(),
            where_clause: self.where_clause.deep_view(),
        }
    }
}

/// Accepts the lifetime parameters, or, without `lifetime`, all other parameters.
pub open spec fn lifetime_is(lifetime: bool) -> spec_fn(GenericParamView) -> bool {
    |param: GenericParamView| (param is Lifetime) == lifetime
}

/// The lifetimes of both lists, then all other parameters of both lists.
pub open spec fn merged_params(
    left: Seq<GenericParamView>,
    right: Seq<GenericParamView>,
) -> Seq<GenericParamView> {
    left.filter(lifetime_is(true)) + right.filter(lifetime_is(true)) + left.filter(
        lifetime_is(false),
    ) + right.filter(lifetime_is(false))
}

/// Whether no lifetime stands behind a parameter of another kind.
pub open spec fn lifetimes_first(params: Seq<GenericParamView>) -> bool {
    forall|i: int, j: int|
        #![trigger params[i], params[j]]
        0 <= i < j < params.len() && params[j] is Lifetime ==> params[i] is Lifetime
}

/// The conditions of `first`, then those of `second`.
pub open spec fn joined_where(
    first: Option<Seq<TokensView>>,
    second: Option<Seq<TokensView>>,
) -> Option<Seq<TokensView>> {
    match (first, second) {
        (Some(first), Some(second)) => Some(first + second),
        (Some(first), None) => Some(first),
        (None, second) => second,
    }
}

/// Clones the parameters that are lifetimes, or those that are not, onto the end of `out`.
fn append_params(out: &mut Vec<GenericParam>, params: &Vec<&GenericParam>, lifetime: bool)
    ensures
        final(out).deep_view() == old(out).deep_view() + params.deep_view().filter(
            lifetime_is(lifetime),
        ),
{
    let ghost start = out.deep_view();
    let ghost all = params.deep_view();
    let ghost pred = lifetime_is(lifetime);
    proof {
        reveal(Seq::filter);
        assert(all.take(0).filter(pred) =~= Seq::empty());
        assert(out.deep_view() =~= start + all.take(0).filter(pred));
    }
    for i in 0..params.len()
        invariant
            all == params.deep_view(),
            pred == lifetime_is(lifetime),
            out.deep_view() == start + all.take(i as int).filter(pred),
    {
        let ghost before = out.deep_view();
        proof {
            all.take(i as int).lemma_filter_push(all[i as int], pred);
            assert(all.take(i + 1) =~= all.take(i as int).push(all[i as int]));
        }
        let is_lifetime = match params[i] {
            GenericParam::Lifetime(_) => true,
            _ => false,
        };
        if is_lifetime == lifetime {
            out.push(params[i].clone());
            assert(out.deep_view() =~= before.push(all[i as int]));
        }
        assert(out.deep_view() =~= start + all.take(i + 1).filter(pred));
    }
    assert(all.take(all.len() as int) =~= all);
}

/// Borrows the parameters of a declared list.
pub(crate) fn borrowed_params(list: &Punctuated<GenericParam, Comma>) -> (items: Vec<&GenericParam>)
    ensures
        items.deep_view() == params_view(*list),
{
    let items = iter_generic_params(list);
    assert(items.deep_view() =~= params_view(*list));
    items
}

/// The parameters of a declared list, in their order.
pub fn cloned_params(list: &Punctuated<GenericParam, Comma>) -> (params: Vec<GenericParam>)
    ensures
        params.deep_view() == params_view(*list),
{
    let items = borrowed_params(list);
    let mut params: Vec<GenericParam> = Vec::new();
    for i in 0..items.len()
        invariant
            params.deep_view() =~= items.deep_view().take(i as int),
    {
        let ghost before = params.deep_view();
        params.push(items[i].clone());
        assert(params.deep_view() =~= before.push(items.deep_view()[i as int]));
    }
    params
}

/// To merge generic params we need to make sure lifetimes are always the first
/// in the resulting list according to Rust syntax restrictions.
pub fn merge_generic_params(
    left: &Punctuated<GenericParam, Comma>,
    right: &Punctuated<GenericParam, Comma>,
) -> (merged: Vec<GenericParam>)
    ensures
        merged.deep_view() == merged_params(params_view(*left), params_view(*right)),
{
    let left = borrowed_params(left);
    let right = borrowed_params(right);
    let mut merged: Vec<GenericParam> = Vec::new();
    assert(merged.deep_view() =~= Seq::empty());
    append_params(&mut merged, &left, true);
    append_params(&mut merged, &right, true);
    append_params(&mut merged, &left, false);
    append_params(&mut merged, &right, false);
    assert(merged.deep_view() =~= merged_params(left.deep_view(), right.deep_view()));
    merged
}

/// The conditions of `first`, then those of `second`.
pub fn join_where(first: Option<WhereClause>, second: Option<WhereClause>) -> (joined: Option<
    WhereClause,
>)
    ensures
        joined.deep_view() == joined_where(first.deep_view(), second.deep_view()),
{
    match (first, second) {
        (Some(mut combined), Some(clause)) => {
            let ghost start = combined.deep_view();
            extend_where_predicates(&mut combined.predicates, clause.predicates);
            assert(combined.deep_view() =~= start + clause.deep_view());
            Some(combined)
        },
        (Some(clause), None) => Some(clause),
        (None, clause) => clause,
    }
}

/// Lifetimes always come first in a merged list.
pub proof fn law_merged_lifetimes_first(left: Seq<GenericParamView>, right: Seq<GenericParamView>)
    ensures
        lifetimes_first(merged_params(left, right)),
{
    lemma_filter_items(left, lifetime_is(true));
    lemma_filter_items(right, lifetime_is(true));
    lemma_filter_items(left, lifetime_is(false));
    lemma_filter_items(right, lifetime_is(false));
    let lifetimes = left.filter(lifetime_is(true)) + right.filter(lifetime_is(true));
    let merged = merged_params(left, right);
    assert forall|i: int| 0 <= i < merged.len() implies (#[trigger] merged[i] is Lifetime) == (i
        < lifetimes.len()) by {
        let n = left.filter(lifetime_is(true)).len();
        let m = left.filter(lifetime_is(false)).len();
        if i < n {
            assert(merged[i] == left.filter(lifetime_is(true))[i]);
        } else if i < lifetimes.len() {
            assert(merged[i] == right.filter(lifetime_is(true))[i - n]);
        } else if i < lifetimes.len() + m {
            assert(merged[i] == left.filter(lifetime_is(false))[i - lifetimes.len()]);
        } else {
            assert(merged[i] == right.filter(lifetime_is(false))[i - lifetimes.len() - m]);
        }
    }
}

/// Among the lifetimes of a merged list, and among its other parameters, those of the left list
/// come before those of the right one, and each list keeps its order.
pub proof fn law_merged_keeps_order(
    left: Seq<GenericParamView>,
    right: Seq<GenericParamView>,
    lifetime: bool,
)
    ensures
        merged_params(left, right).filter(lifetime_is(lifetime)) == left.filter(
            lifetime_is(lifetime),
        ) + right.filter(lifetime_is(lifetime)),
{
    let (yes, no) = (lifetime_is(lifetime), lifetime_is(!lifetime));
    lemma_filter_items(left, yes);
    lemma_filter_items(right, yes);
    lemma_filter_items(left, no);
    lemma_filter_items(right, no);
    lemma_filter_all(left.filter(yes), yes);
    lemma_filter_all(right.filter(yes), yes);
    lemma_filter_none(left.filter(no), yes);
    lemma_filter_none(right.filter(no), yes);
    let (a, b) = (left.filter(lifetime_is(true)), right.filter(lifetime_is(true)));
    let (c, d) = (left.filter(lifetime_is(false)), right.filter(lifetime_is(false)));
    Seq::filter_distributes_over_add(a, b, yes);
    Seq::filter_distributes_over_add(a + b, c, yes);
    Seq::filter_distributes_over_add(a + b + c, d, yes);
    assert(merged_params(left, right).filter(yes) =~= left.filter(yes) + right.filter(yes));
}

/// A merged list holds the parameters of both lists, each as often as both lists together do.
pub proof fn law_merged_keeps_params(left: Seq<GenericParamView>, right: Seq<GenericParamView>)
    ensures
        merged_params(left, right).to_multiset() == left.to_multiset().add(right.to_multiset()),
{
    let (a, b) = (left.filter(lifetime_is(true)), right.filter(lifetime_is(true)));
    let (c, d) = (left.filter(lifetime_is(false)), right.filter(lifetime_is(false)));
    lemma_parts_to_multiset(left);
    lemma_parts_to_multiset(right);
    vstd::seq_lib::lemma_multiset_commutative(a, b);
    vstd::seq_lib::lemma_multiset_commutative(a + b, c);
    vstd::seq_lib::lemma_multiset_commutative(a + b + c, d);
    assert(merged_params(left, right).to_multiset() =~= left.to_multiset().add(
        right.to_multiset(),
    ));
}

proof fn lemma_parts_to_multiset(params: Seq<GenericParamView>)
    ensures
        params.to_multiset() == params.filter(lifetime_is(true)).to_multiset().add(
            params.filter(lifetime_is(false)).to_multiset(),
        ),
    decreases params.len(),
{
    broadcast use {vstd::seq_lib::to_multiset_build, vstd::multiset::group_multiset_axioms};

    reveal(Seq::filter);
    let (yes, no) = (params.filter(lifetime_is(true)), params.filter(lifetime_is(false)));
    if params.len() == 0 {
        params.to_multiset_ensures();
        yes.to_multiset_ensures();
        no.to_multiset_ensures();
        assert(params.to_multiset() =~= yes.to_multiset().add(no.to_multiset()));
    } else {
        let rest = params.drop_last();
        lemma_parts_to_multiset(rest);
        assert(params =~= rest.push(params.last()));
        assert(params.to_multiset() =~= yes.to_multiset().add(no.to_multiset()));
    }
}

/// Merging a list in which the lifetimes come first with an empty one changes nothing.
pub proof fn law_merged_with_nothing(params: Seq<GenericParamView>)
    requires
        lifetimes_first(params),
    ensures
        merged_params(params, Seq::empty()) == params,
        merged_params(Seq::empty(), params) == params,
{
    lemma_parts_of_sorted(params);
    let nothing = Seq::<GenericParamView>::empty();
    lemma_filter_none(nothing, lifetime_is(true));
    lemma_filter_none(nothing, lifetime_is(false));
    let (yes, no) = (params.filter(lifetime_is(true)), params.filter(lifetime_is(false)));
    lemma_concat_empty(yes, no);
}

/// Finds the number of lifetimes in a list in which they come first.
proof fn lemma_lifetime_count(params: Seq<GenericParamView>) -> (n: int)
    requires
        lifetimes_first(params),
    ensures
        0 <= n <= params.len(),
        forall|i: int| 0 <= i < params.len() ==> (#[trigger] params[i] is Lifetime) == (i < n),
    decreases params.len(),
{
    if params.len() == 0 {
        0
    } else if params.last() is Lifetime {
        assert(params[params.len() - 1] is Lifetime);
        params.len() as int
    } else {
        let rest = params.drop_last();
        assert forall|i: int, j: int|
            #![trigger rest[i], rest[j]]
            0 <= i < j < rest.len() && rest[j] is Lifetime implies rest[i] is Lifetime by {
            assert(params[j] is Lifetime && params[i] is Lifetime);
        }
        let n = lemma_lifetime_count(rest);
        assert forall|i: int| 0 <= i < params.len() implies (#[trigger] params[i] is Lifetime) == (i
            < n) by {
            if i < rest.len() {
                assert(rest[i] == params[i]);
            }
        }
        n
    }
}

proof fn lemma_parts_of_sorted(params: Seq<GenericParamView>)
    requires
        lifetimes_first(params),
    ensures
        params.filter(lifetime_is(true)) + params.filter(lifetime_is(false)) == params,
{
    let n = lemma_lifetime_count(params);
    lemma_split_parts(params, n);
}

proof fn lemma_split_parts(params: Seq<GenericParamView>, n: int)
    requires
        0 <= n <= params.len(),
        forall|i: int| 0 <= i < params.len() ==> (#[trigger] params[i] is Lifetime) == (i < n),
    ensures
        params.filter(lifetime_is(true)) + params.filter(lifetime_is(false)) == params,
{
    let (first, second) = (params.take(n), params.skip(n));
    assert(params =~= first + second);
    Seq::filter_distributes_over_add(first, second, lifetime_is(true));
    Seq::filter_distributes_over_add(first, second, lifetime_is(false));
    lemma_filter_all(first, lifetime_is(true));
    lemma_filter_none(second, lifetime_is(true));
    lemma_filter_none(first, lifetime_is(false));
    lemma_filter_all(second, lifetime_is(false));
    lemma_concat_empty(first, second);
    lemma_concat_empty(second, first);
}

/// Conditions are only missing where neither side has any.
pub proof fn law_joined_where(first: Option<Seq<TokensView>>, second: Option<Seq<TokensView>>)
    ensures
        joined_where(first, second) is None <==> first is None && second is None,
        joined_where(first, None) == first,
        joined_where(None, second) == second,
{
}

/// A merged list is the lifetimes of the left list, those of the right list, the other parameters
/// of the left list and those of the right list.
pub proof fn law_merged_parts(left: Seq<GenericParamView>, right: Seq<GenericParamView>)
    ensures
        merged_params(left, right) == left.filter(|param: GenericParamView| param is Lifetime)
            + right.filter(|param: GenericParamView| param is Lifetime) + left.filter(
            |param: GenericParamView| !(param is Lifetime),
        ) + right.filter(|param: GenericParamView| !(param is Lifetime)),
        forall|i: int, j: int|
            #![trigger merged_params(left, right)[i], merged_params(left, right)[j]]
            0 <= i < j < merged_params(left, right).len() && merged_params(left, right)[j] is Lifetime
                ==> merged_params(left, right)[i] is Lifetime,
{
    let yes = |param: GenericParamView| param is Lifetime;
    let no = |param: GenericParamView| !(param is Lifetime);
    lemma_filter_same(left, lifetime_is(true), yes);
    lemma_filter_same(right, lifetime_is(true), yes);
    lemma_filter_same(left, lifetime_is(false), no);
    lemma_filter_same(right, lifetime_is(false), no);
    law_merged_lifetimes_first(left, right);
}

/// The joined conditions are the first ones and then the second ones, where a missing clause counts
/// as no conditions. A condition of either clause is never lost.
pub proof fn law_joined_conditions(
    first: Option<Seq<TokensView>>,
    second: Option<Seq<TokensView>>,
)
    ensures
        (match joined_where(first, second) {
            Some(all) => all,
            None => Seq::empty(),
        }) == (match first {
            Some(conditions) => conditions,
            None => Seq::empty(),
        }) + (match second {
            Some(conditions) => conditions,
            None => Seq::empty(),
        }),
        first is Some || second is Some ==> joined_where(first, second) is Some,
        first is None && second is None ==> joined_where(first, second) is None,
{
    let nothing = Seq::<TokensView>::empty();
    if let Some(conditions) = first {
        lemma_concat_empty(conditions, nothing);
    }
    if let Some(conditions) = second {
        lemma_concat_empty(conditions, nothing);
    }
    lemma_concat_empty(nothing, nothing);
}

/// Collected generics stand for all of their parameters and conditions.
pub proof fn law_collected_generics_view(generics: Generics)
    ensures
        generics.deep_view().params == generics.params.deep_view(),
        generics.deep_view().where_clause == generics.where_clause.deep_view(),
{
}

} // verus!
