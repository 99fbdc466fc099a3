//! The attributes of a function that are passed on to the function that finishes the building.

use crate::attrs::{AttrStyle, Attribute, AttributeView};
use crate::error::{outcome, Error, ErrorView};
use crate::seqs::{
    lemma_filter_all, lemma_filter_items, lemma_filter_next, lemma_filter_none, lemma_filter_only,
};
use vstd::prelude::*;

verus! {

/// The names of the attributes that are passed on, in the order in which they are.
pub open spec fn propagated_names() -> Seq<Seq<char>> {
    seq!["must_use"@, "track_caller"@]
}

/// Whether an attribute is called `name`.
pub open spec fn named(name: Seq<char>) -> spec_fn(AttributeView) -> bool {
    |attr: AttributeView| attr.is_named(name)
}

/// The one attribute called `name`, if there is one. It may not occur twice, nor stand inside the
/// function.
pub open spec fn found_attr(attrs: Seq<AttributeView>, name: Seq<char>) -> Result<
    Option<AttributeView>,
    ErrorView,
> {
    let found = attrs.filter(named(name));
    if found.len() == 0 {
        Ok(None)
    } else if found.len() > 1 {
        Err(ErrorView::RepeatedAttr { second: found[1], needle: name })
    } else if found[0].style == AttrStyle::Inner {
        Err(ErrorView::InnerAttr { attr: found[0], needle: name })
    } else {
        Ok(Some(found[0]))
    }
}

/// The attributes called one of `names`, in the order of the names. The first name that is used
/// wrongly decides on the complaint.
pub open spec fn found_attrs(attrs: Seq<AttributeView>, names: Seq<Seq<char>>) -> Result<
    Seq<AttributeView>,
    ErrorView,
>
    decreases names.len(),
{
    if names.len() == 0 {
        Ok(Seq::empty())
    } else {
        match found_attrs(attrs, names.drop_last()) {
            Ok(found) => match found_attr(attrs, names.last()) {
                Ok(Some(attr)) => Ok(found.push(attr)),
                Ok(None) => Ok(found),
                Err(error) => Err(error),
            },
            Err(error) => Err(error),
        }
    }
}

/// The attributes of a function that are passed on.
pub open spec fn propagated_attrs(attrs: Seq<AttributeView>) -> Result<
    Seq<AttributeView>,
    ErrorView,
> {
    found_attrs(attrs, propagated_names())
}

/// The one attribute called `needle`, if there is one. It may not occur twice, nor stand inside
/// the function.
pub fn find_propagated_attr(attrs: &Vec<Attribute>, needle: &str) -> (res: Result<
    Option<Attribute>,
    Error,
>)
    ensures
        outcome(res) == found_attr(attrs.deep_view(), needle@),
{
    let ghost all = attrs.deep_view();
    let ghost pred = named(needle@);
    let mut result: Option<usize> = None;
    proof {
        reveal(Seq::filter);
        assert(all.take(0).filter(pred) =~= Seq::empty());
    }
    for i in 0..attrs.len()
        invariant
            all == attrs.deep_view(),
            pred == named(needle@),
            match result {
                Some(first) => first < i && all.take(i as int).filter(pred) == seq![
                    all[first as int],
                ],
                None => all.take(i as int).filter(pred) == Seq::<AttributeView>::empty(),
            },
    {
        let ghost before = all.take(i as int).filter(pred);
        proof {
            all.take(i as int).lemma_filter_push(all[i as int], pred);
            assert(all.take(i + 1) =~= all.take(i as int).push(all[i as int]));
        }
        if attrs[i].is_named(needle) {
            match result {
                Some(_) => {
                    proof {
                        let seen = all.take(i + 1);
                        let rest = all.skip(i + 1);
                        assert(all =~= seen + rest);
                        Seq::filter_distributes_over_add(seen, rest, pred);
                        assert(all.filter(pred)[1] == all[i as int]);
                    }
                    return Err(
                        Error::RepeatedAttr { second: attrs[i].clone(), needle: needle.to_string() },
                    );
                },
                None => {
                    result = Some(i);
                    assert(before.push(all[i as int]) =~= seq![all[i as int]]);
                },
            }
        }
    }
    assert(all.take(all.len() as int) =~= all);
    match result {
        Some(i) => {
            let attr = attrs[i].clone();
            if attr.style == AttrStyle::Inner {
                return Err(Error::InnerAttr { attr, needle: needle.to_string() });
            }
            Ok(Some(attr))
        },
        None => Ok(None),
    }
}

/// The attributes of a function that are passed on.
pub fn get_propagated_attrs(attrs: &Vec<Attribute>) -> (res: Result<Vec<Attribute>, Error>)
    ensures
        outcome(res) == propagated_attrs(attrs.deep_view()),
{
    let needles: [&str; 2] = ["must_use", "track_caller"];
    let ghost names = propagated_names();
    let ghost all = attrs.deep_view();
    let mut found: Vec<Attribute> = Vec::new();
    assert(found.deep_view() =~= Seq::empty());
    for i in 0..2usize
        invariant
            all == attrs.deep_view(),
            names == propagated_names(),
            needles@ == seq!["must_use", "track_caller"],
            found_attrs(all, names.take(i as int)) == Ok::<Seq<AttributeView>, ErrorView>(
                found.deep_view(),
            ),
    {
        let ghost before = found.deep_view();
        assert(names.take(i + 1).drop_last() =~= names.take(i as int));
        assert(needles[i as int]@ == names[i as int]);
        let step = find_propagated_attr(attrs, needles[i]);
        match step {
            Ok(Some(attr)) => {
                found.push(attr);
                assert(found.deep_view() =~= before.push(attr.deep_view()));
            },
            Ok(None) => {},
            Err(error) => {
                proof {
                    lemma_error_stays(all, names, i + 1);
                }
                return Err(error);
            },
        }
    }
    assert(names.take(2) =~= names);
    Ok(found)
}

/// A complaint about some of the names is the complaint about all of them.
proof fn lemma_error_stays(attrs: Seq<AttributeView>, names: Seq<Seq<char>>, n: int)
    requires
        0 <= n <= names.len(),
        found_attrs(attrs, names.take(n)) is Err,
    ensures
        found_attrs(attrs, names) == found_attrs(attrs, names.take(n)),
    decreases names.len() - n,
{
    if n < names.len() {
        assert(names.take(n + 1).drop_last() =~= names.take(n));
        lemma_error_stays(attrs, names, n + 1);
    } else {
        assert(names.take(n) =~= names);
    }
}

/// What a successful search for the passed on attributes gives: those called `must_use`, then
/// those called `track_caller`.
proof fn lemma_propagated(attrs: Seq<AttributeView>)
    ensures
        propagated_attrs(attrs) matches Ok(found) ==> {
            let unused = found_attr(attrs, "must_use"@);
            let caller = found_attr(attrs, "track_caller"@);
            &&& unused is Ok
            &&& caller is Ok
            &&& found == optional(unused->Ok_0) + optional(caller->Ok_0)
        },
        found_attr(attrs, "must_use"@) matches Err(error) ==> propagated_attrs(attrs) == Err::<
            Seq<AttributeView>,
            ErrorView,
        >(error),
        found_attr(attrs, "must_use"@) is Ok ==> (found_attr(attrs, "track_caller"@) matches Err(
            error,
        ) ==> propagated_attrs(attrs) == Err::<Seq<AttributeView>, ErrorView>(error)),
        found_attr(attrs, "must_use"@) is Ok && found_attr(attrs, "track_caller"@) is Ok
            ==> propagated_attrs(attrs) is Ok,
{
    let names = propagated_names();
    let first = names.drop_last();
    assert(first =~= seq!["must_use"@]);
    assert(first.drop_last() =~= Seq::empty());
    assert(found_attrs(attrs, first.drop_last()) == Ok::<Seq<AttributeView>, ErrorView>(
        Seq::empty(),
    ));
    let unused = found_attr(attrs, "must_use"@);
    let caller = found_attr(attrs, "track_caller"@);
    if unused is Ok {
        assert(found_attrs(attrs, first) matches Ok(found) && found =~= optional(unused->Ok_0));
        if caller is Ok {
            assert(found_attrs(attrs, names) matches Ok(found) && found =~= optional(
                unused->Ok_0,
            ) + optional(caller->Ok_0));
        }
    }
}

/// An attribute, or nothing, as a list.
pub open spec fn optional(attr: Option<AttributeView>) -> Seq<AttributeView> {
    match attr {
        Some(attr) => seq![attr],
        None => Seq::empty(),
    }
}

proof fn lemma_found_attr(attrs: Seq<AttributeView>, name: Seq<char>)
    ensures
        found_attr(attrs, name) matches Ok(Some(attr)) ==> {
            &&& attrs.contains(attr)
            &&& attr.is_named(name)
            &&& attr.style == AttrStyle::Outer
        },
{
    lemma_filter_items(attrs, named(name));
}

/// Every attribute that is passed on is an attribute of the function, stands outside of it and has
/// one of the names that are passed on; no name occurs twice.
pub proof fn law_propagated_attrs(attrs: Seq<AttributeView>)
    ensures
        propagated_attrs(attrs) matches Ok(found) ==> {
            &&& forall|i: int|
                0 <= i < found.len() ==> {
                    &&& attrs.contains(#[trigger] found[i])
                    &&& found[i].style == AttrStyle::Outer
                    &&& found[i].is_named("must_use"@) || found[i].is_named("track_caller"@)
                }
            &&& forall|i: int, j: int, name: Seq<char>|
                0 <= i < j < found.len() && #[trigger] found[i].is_named(name)
                    ==> !(#[trigger] found[j].is_named(name))
        },
{
    lemma_propagated(attrs);
    lemma_found_attr(attrs, "must_use"@);
    lemma_found_attr(attrs, "track_caller"@);
    lemma_names_differ();
}

proof fn lemma_names_differ()
    ensures
        "must_use"@ != "track_caller"@,
{
    reveal_strlit("must_use");
    reveal_strlit("track_caller");
    assert("must_use"@.len() != "track_caller"@.len());
}

/// What is passed on is passed on again unchanged.
pub proof fn law_propagated_again(attrs: Seq<AttributeView>)
    ensures
        propagated_attrs(attrs) matches Ok(found) ==> propagated_attrs(found)
            == propagated_attrs(attrs),
{
    lemma_propagated(attrs);
    if let Ok(found) = propagated_attrs(attrs) {
        let unused = found_attr(attrs, "must_use"@)->Ok_0;
        let caller = found_attr(attrs, "track_caller"@)->Ok_0;
        lemma_found_attr(attrs, "must_use"@);
        lemma_found_attr(attrs, "track_caller"@);
        lemma_names_differ();
        let (a, b) = (optional(unused), optional(caller));
        let (first, second) = (named("must_use"@), named("track_caller"@));
        lemma_filter_all(a, first);
        lemma_filter_none(a, second);
        lemma_filter_none(b, first);
        lemma_filter_all(b, second);
        Seq::filter_distributes_over_add(a, b, first);
        Seq::filter_distributes_over_add(a, b, second);
        assert(found.filter(first) =~= a);
        assert(found.filter(second) =~= b);
        assert(found_attr(found, "must_use"@) == Ok::<Option<AttributeView>, ErrorView>(unused));
        assert(found_attr(found, "track_caller"@) == Ok::<Option<AttributeView>, ErrorView>(
            caller,
        ));
        lemma_propagated(found);
    }
}

/// No attribute is found exactly if none has the name.
pub proof fn law_found_nothing(attrs: Seq<AttributeView>, name: Seq<char>)
    ensures
        found_attr(attrs, name) == Ok::<Option<AttributeView>, ErrorView>(None) <==> forall|i: int|
            0 <= i < attrs.len() ==> !(#[trigger] attrs[i]).is_named(name),
{
    if forall|i: int| 0 <= i < attrs.len() ==> !(#[trigger] attrs[i]).is_named(name) {
        assert forall|i: int| 0 <= i < attrs.len() implies !named(name)(#[trigger] attrs[i]) by {}
        lemma_filter_none(attrs, named(name));
    } else {
        let i = choose|i: int| 0 <= i < attrs.len() && (#[trigger] attrs[i]).is_named(name);
        lemma_filter_next(attrs, named(name), i);
        assert(attrs.filter(named(name)).len() > 0);
    }
}

/// The only attribute with the name is found, unless it stands inside the function, which is
/// refused.
pub proof fn law_found_one(attrs: Seq<AttributeView>, name: Seq<char>, i: int)
    requires
        0 <= i < attrs.len(),
        attrs[i].is_named(name),
        forall|k: int| 0 <= k < attrs.len() && k != i ==> !(#[trigger] attrs[k]).is_named(name),
    ensures
        attrs[i].style == AttrStyle::Outer ==> found_attr(attrs, name) == Ok::<
            Option<AttributeView>,
            ErrorView,
        >(Some(attrs[i])),
        attrs[i].style == AttrStyle::Inner ==> found_attr(attrs, name) == Err::<
            Option<AttributeView>,
            ErrorView,
        >(ErrorView::InnerAttr { attr: attrs[i], needle: name }),
{
    assert forall|k: int| 0 <= k < attrs.len() && k != i implies !named(name)(
        #[trigger] attrs[k],
    ) by {}
    lemma_filter_only(attrs, named(name), i);
}

/// Two attributes with the name are refused, wherever they stand, and the complaint is about the
/// second of them.
pub proof fn law_found_two(attrs: Seq<AttributeView>, name: Seq<char>, i: int, j: int)
    requires
        0 <= i < j < attrs.len(),
        attrs[i].is_named(name),
        attrs[j].is_named(name),
        forall|k: int| 0 <= k < j && k != i ==> !(#[trigger] attrs[k]).is_named(name),
    ensures
        found_attr(attrs, name) == Err::<Option<AttributeView>, ErrorView>(
            ErrorView::RepeatedAttr { second: attrs[j], needle: name },
        ),
{
    let before = attrs.take(j);
    assert forall|k: int| 0 <= k < before.len() && k != i implies !named(name)(
        #[trigger] before[k],
    ) by {
        assert(before[k] == attrs[k]);
    }
    lemma_filter_only(before, named(name), i);
    lemma_filter_next(attrs, named(name), j);
    assert(attrs.filter(named(name))[1] == attrs[j]);
}

/// Passed on are `must_use` and then `track_caller`, each as it is found by itself. What is wrong
/// with the first is reported before what is wrong with the second.
pub proof fn law_propagated_one_by_one(attrs: Seq<AttributeView>)
    ensures
        propagated_attrs(attrs) == match (
            found_attr(attrs, "must_use"@),
            found_attr(attrs, "track_caller"@),
        ) {
            (Err(error), _) => Err(error),
            (Ok(_), Err(error)) => Err(error),
            (Ok(None), Ok(None)) => Ok(Seq::empty()),
            (Ok(Some(first)), Ok(None)) => Ok(seq![first]),
            (Ok(None), Ok(Some(second))) => Ok(seq![second]),
            (Ok(Some(first)), Ok(Some(second))) => Ok(seq![first, second]),
        },
{
    lemma_propagated(attrs);
    if let Ok(found) = propagated_attrs(attrs) {
        let first = found_attr(attrs, "must_use"@)->Ok_0;
        let second = found_attr(attrs, "track_caller"@)->Ok_0;
        assert(found =~= match (first, second) {
            (None, None) => Seq::empty(),
            (Some(first), None) => seq![first],
            (None, Some(second)) => seq![second],
            (Some(first), Some(second)) => seq![first, second],
        });
    }
}

} // verus!
