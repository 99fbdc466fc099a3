//! Lists separated by commas, kept in `syn`'s own collection.

use crate::item::GenericParam;
use crate::tokens::Tokens;
use syn::punctuated::Punctuated;
use syn::token::Comma;
use vstd::prelude::*;

verus! {

/// `syn::punctuated::Punctuated`, a sequence of nodes with a separator behind each but perhaps
/// the last.
#[verifier::external_type_specification]
#[verifier::external_body]
#[verifier::reject_recursive_types(T)]
#[verifier::reject_recursive_types(P)]
pub struct ExPunctuated<T, P>(syn::punctuated::Punctuated<T, P>);

/// `syn::token::Comma`, the separator.
#[verifier::external_type_specification]
#[verifier::external_body]
pub struct ExComma(syn::token::Comma);

/// The generic parameters in a list, without the commas.
pub uninterp spec fn generic_params(list: Punctuated<GenericParam, Comma>) -> Seq<GenericParam>;

/// The conditions in a list, without the commas.
pub uninterp spec fn where_predicates(list: Punctuated<Tokens, Comma>) -> Seq<Tokens>;

/// `Punctuated::iter`: borrows every parameter of the list, in order.
#[verifier::external_body]
pub(crate) fn iter_generic_params(list: &Punctuated<GenericParam, Comma>) -> (items: Vec<&GenericParam>)
    ensures
        items@.len() == generic_params(*list).len(),
        forall|i: int|
            0 <= i < items@.len() ==> *(#[trigger] items@[i]) == generic_params(*list)[i],
{
    list.iter().collect()
}

/// `Punctuated::clone`: a list of the same length, with a clone of each parameter in its place.
#[verifier::external_body]
pub(crate) fn clone_generic_params(list: &Punctuated<GenericParam, Comma>) -> (copy: Punctuated<
    GenericParam,
    Comma,
>)
    ensures
        generic_params(copy).len() == generic_params(*list).len(),
        forall|i: int|
            #![trigger generic_params(copy)[i]]
            0 <= i < generic_params(copy).len() ==> cloned::<GenericParam>(
                generic_params(*list)[i],
                generic_params(copy)[i],
            ),
{
    list.clone()
}

/// `Punctuated::clone`: a list of the same length, with a clone of each condition in its place.
#[verifier::external_body]
pub(crate) fn clone_where_predicates(list: &Punctuated<Tokens, Comma>) -> (copy: Punctuated<
    Tokens,
    Comma,
>)
    ensures
        where_predicates(copy).len() == where_predicates(*list).len(),
        forall|i: int|
            #![trigger where_predicates(copy)[i]]
            0 <= i < where_predicates(copy).len() ==> cloned::<Tokens>(
                where_predicates(*list)[i],
                where_predicates(copy)[i],
            ),
{
    list.clone()
}

/// `Punctuated::extend`: puts the conditions of `other` behind those of `list`, in order.
#[verifier::external_body]
pub(crate) fn extend_where_predicates(list: &mut Punctuated<Tokens, Comma>, other: Punctuated<Tokens, Comma>)
    ensures
        where_predicates(*final(list)) == where_predicates(*old(list)) + where_predicates(other),
{
    list.extend(other)
}

} // verus!
