//! The function itself, as it is left standing next to its builder.

use crate::attrs::{
    doc, ident_path, law_doc, not_builder, not_doc, not_doc_nor_builder, plain_segment,
    without_builder, without_docs, without_docs_and_builder, AttrStyle, Attribute, AttributeView,
    Delimiter, Meta, MetaView, Path, PathSegmentView, PathView,
};
use crate::item::{
    FnArg, FnArgView, ItemFn, ItemFnView, Receiver, ReceiverView, SignatureView, TypedArg,
    TypedArgView, Visibility, VisibilityView,
};
use crate::seqs::{
    lemma_filter_all, lemma_filter_items, lemma_filter_none, lemma_filter_same, lemma_filter_twice,
};
use crate::tokens::{call_site_ident, IdentView, Tokens, TokensView};
use vstd::prelude::*;

verus! {

/// `#[doc(hidden)]`
pub open spec fn hidden_attr() -> AttributeView {
    AttributeView {
        style: AttrStyle::Outer,
        meta: MetaView::List {
            path: ident_path("doc"@),
            delimiter: Delimiter::Paren,
            tokens: TokensView::Text("hidden"@),
        },
    }
}

/// The path `bon::__::__privatize`.
pub open spec fn privatize_path(bon: PathView) -> PathView {
    PathView {
        leading_colon: bon.leading_colon,
        segments: bon.segments.push(plain_segment(call_site_ident("__"@))).push(
            plain_segment(call_site_ident("__privatize"@)),
        ),
    }
}

/// `#[bon::__::__privatize]`
///
/// The function is not renamed at once: other macros on it may need the name that it was given.
/// This attribute renames it later.
pub open spec fn privatize_attr(bon: PathView) -> AttributeView {
    AttributeView { style: AttrStyle::Outer, meta: MetaView::Path(privatize_path(bon)) }
}

/// The suppression of lints that a builder makes pointless: many positional arguments and many
/// `bool` arguments do no harm where every argument is named.
pub open spec fn lint_attr() -> AttributeView {
    AttributeView {
        style: AttrStyle::Outer,
        meta: MetaView::List {
            path: ident_path("allow"@),
            delimiter: Delimiter::Paren,
            tokens: TokensView::Text(
                "clippy::too_many_arguments, clippy::fn_params_excessive_bools,"@,
            ),
        },
    }
}

/// The attributes of the function. Unless it stays `exposed`, it loses its doc comments, which the
/// starting function has, and is hidden. It always loses its `builder` attributes.
pub open spec fn adapted_attrs(
    attrs: Seq<AttributeView>,
    exposed: bool,
    bon: PathView,
) -> Seq<AttributeView> {
    let own = if exposed {
        attrs
    } else {
        attrs.filter(not_doc()).push(hidden_attr()).push(privatize_attr(bon))
    };
    own.filter(not_builder()).push(lint_attr())
}

/// An argument without its doc comments and `builder` attributes, which are not valid there.
pub open spec fn adapted_arg(arg: FnArgView) -> FnArgView {
    match arg {
        FnArgView::Receiver(receiver) => FnArgView::Receiver(
            ReceiverView { attrs: receiver.attrs.filter(not_doc_nor_builder()), ..receiver },
        ),
        FnArgView::Typed(arg) => FnArgView::Typed(
            TypedArgView { attrs: arg.attrs.filter(not_doc_nor_builder()), ..arg },
        ),
    }
}

/// Each argument without its doc comments and `builder` attributes.
pub open spec fn adapted_args(inputs: Seq<FnArgView>) -> Seq<FnArgView> {
    inputs.map_values(|arg: FnArgView| adapted_arg(arg))
}

/// The function, as it is left standing next to its builder.
pub open spec fn adapted_item(item: ItemFnView, exposed: bool, bon: PathView) -> ItemFnView {
    ItemFnView {
        attrs: adapted_attrs(item.attrs, exposed, bon),
        vis: if exposed {
            item.vis
        } else {
            VisibilityView::Inherited
        },
        sig: SignatureView { inputs: adapted_args(item.sig.inputs), ..item.sig },
        block: item.block,
    }
}

fn push_attr(attrs: &mut Vec<Attribute>, attr: Attribute)
    ensures
        final(attrs).deep_view() == old(attrs).deep_view().push(attr.deep_view()),
{
    let ghost before = attrs.deep_view();
    attrs.push(attr);
    assert(attrs.deep_view() =~= before.push(attr.deep_view()));
}

/// An attribute such as `#[name(text)]`.
fn list_attr(name: &str, text: &str) -> (attr: Attribute)
    ensures
        attr.deep_view() == (AttributeView {
            style: AttrStyle::Outer,
            meta: MetaView::List {
                path: ident_path(name@),
                delimiter: Delimiter::Paren,
                tokens: TokensView::Text(text@),
            },
        }),
{
    Attribute {
        style: AttrStyle::Outer,
        meta: Meta::List {
            path: Path::from_ident(name),
            delimiter: Delimiter::Paren,
            tokens: Tokens::Text(text.to_string()),
        },
    }
}

fn adapt_attrs(attrs: &Vec<Attribute>, exposed: bool, bon: &Path) -> (res: Vec<Attribute>)
    ensures
        res.deep_view() == adapted_attrs(attrs.deep_view(), exposed, bon.deep_view()),
{
    let own = if exposed {
        attrs.clone()
    } else {
        let mut own = without_docs(attrs);
        push_attr(&mut own, list_attr("doc", "hidden"));
        let path = bon.clone().join("__").join("__privatize");
        push_attr(&mut own, Attribute { style: AttrStyle::Outer, meta: Meta::Path(path) });
        own
    };
    let mut res = without_builder(&own);
    push_attr(
        &mut res,
        list_attr("allow", "clippy::too_many_arguments, clippy::fn_params_excessive_bools,"),
    );
    res
}

fn adapt_args(inputs: &Vec<FnArg>) -> (res: Vec<FnArg>)
    ensures
        res.deep_view() == adapted_args(inputs.deep_view()),
{
    let mut res: Vec<FnArg> = Vec::new();
    for i in 0..inputs.len()
        invariant
            res.deep_view() =~= adapted_args(inputs.deep_view().take(i as int)),
    {
        let ghost before = res.deep_view();
        let arg = match &inputs[i] {
            FnArg::Receiver(receiver) => FnArg::Receiver(
                Receiver {
                    attrs: without_docs_and_builder(&receiver.attrs),
                    written: receiver.written.clone(),
                    ty: receiver.ty.clone(),
                },
            ),
            FnArg::Typed(arg) => FnArg::Typed(
                TypedArg {
                    attrs: without_docs_and_builder(&arg.attrs),
                    pat: arg.pat.clone(),
                    ty: arg.ty.clone(),
                },
            ),
        };
        res.push(arg);
        assert(arg.deep_view() == adapted_arg(inputs.deep_view()[i as int]));
        assert(res.deep_view() =~= before.push(arg.deep_view()));
    }
    assert(inputs.deep_view().take(inputs.len() as int) =~= inputs.deep_view());
    res
}

/// The function, as it is left standing next to its builder.
pub fn adapt_item(item: &ItemFn, exposed: bool, bon: &Path) -> (adapted: ItemFn)
    ensures
        adapted.deep_view() == adapted_item(item.deep_view(), exposed, bon.deep_view()),
{
    let mut adapted = item.clone();
    if !exposed {
        adapted.vis = Visibility::Inherited;
    }
    adapted.attrs = adapt_attrs(&item.attrs, exposed, bon);
    adapted.sig.inputs = adapt_args(&item.sig.inputs);
    adapted
}

proof fn lemma_names_differ()
    ensures
        "allow"@ != "builder"@,
        "doc"@ != "builder"@,
{
    reveal_strlit("allow");
    reveal_strlit("doc");
    reveal_strlit("builder");
    assert("allow"@.len() != "builder"@.len());
    assert("doc"@.len() != "builder"@.len());
}

proof fn lemma_added_attrs(bon: PathView)
    ensures
        not_doc_nor_builder()(hidden_attr()),
        not_doc_nor_builder()(privatize_attr(bon)),
        not_doc_nor_builder()(lint_attr()),
{
    lemma_names_differ();
    assert(privatize_path(bon).segments.len() >= 2);
}

/// A function that is not exposed keeps what is neither a doc comment nor a `builder` attribute, in
/// order, and is then marked as hidden, to be renamed, and free of two lints. One that is exposed
/// keeps everything but the `builder` attributes, and is then freed of the two lints.
pub proof fn law_adapted_attrs(attrs: Seq<AttributeView>, exposed: bool, bon: PathView)
    ensures
        !exposed ==> adapted_attrs(attrs, exposed, bon) == attrs.filter(not_doc_nor_builder()) + seq![
            hidden_attr(),
            privatize_attr(bon),
            lint_attr(),
        ],
        exposed ==> adapted_attrs(attrs, exposed, bon) == attrs.filter(not_builder()) + seq![
            lint_attr(),
        ],
{
    lemma_added_attrs(bon);
    if exposed {
        assert(adapted_attrs(attrs, exposed, bon) =~= attrs.filter(not_builder()) + seq![
            lint_attr(),
        ]);
    } else {
        let kept = attrs.filter(not_doc());
        kept.lemma_filter_push(hidden_attr(), not_builder());
        kept.push(hidden_attr()).lemma_filter_push(privatize_attr(bon), not_builder());
        lemma_filter_twice(attrs, not_doc(), not_builder(), not_doc_nor_builder());
        assert(adapted_attrs(attrs, exposed, bon) =~= attrs.filter(not_doc_nor_builder()) + seq![
            hidden_attr(),
            privatize_attr(bon),
            lint_attr(),
        ]);
    }
}

/// No `builder` attribute is left on the function or on its arguments, and no doc comment on its
/// arguments.
pub proof fn law_adapted_builder_attrs_gone(item: ItemFnView, exposed: bool, bon: PathView)
    ensures
        forall|i: int|
            0 <= i < adapted_item(item, exposed, bon).attrs.len() ==> !(
            #[trigger] adapted_item(item, exposed, bon).attrs[i]).is_named("builder"@),
        forall|i: int, k: int|
            #![trigger adapted_item(item, exposed, bon).sig.inputs[i].attrs()[k]]
            0 <= i < item.sig.inputs.len() && 0 <= k < adapted_item(
                item,
                exposed,
                bon,
            ).sig.inputs[i].attrs().len() ==> {
                let attr = adapted_item(item, exposed, bon).sig.inputs[i].attrs()[k];
                !attr.is_doc() && !attr.is_named("builder"@)
            },
{
    law_adapted_attrs(item.attrs, exposed, bon);
    lemma_added_attrs(bon);
    lemma_filter_items(item.attrs, not_doc_nor_builder());
    lemma_filter_items(item.attrs, not_builder());
    assert forall|i: int, k: int|
        #![trigger adapted_item(item, exposed, bon).sig.inputs[i].attrs()[k]]
        0 <= i < item.sig.inputs.len() && 0 <= k < adapted_item(
            item,
            exposed,
            bon,
        ).sig.inputs[i].attrs().len() implies {
        let attr = adapted_item(item, exposed, bon).sig.inputs[i].attrs()[k];
        !attr.is_doc() && !attr.is_named("builder"@)
    } by {
        lemma_filter_items(item.sig.inputs[i].attrs(), not_doc_nor_builder());
    }
}

/// A function that is not exposed is private and has no doc comment left. One that is exposed
/// keeps its visibility and its doc comments.
pub proof fn law_adapted_docs(item: ItemFnView, exposed: bool, bon: PathView)
    ensures
        !exposed ==> adapted_item(item, exposed, bon).vis is Inherited && adapted_item(
            item,
            exposed,
            bon,
        ).attrs.filter(doc()) == Seq::<AttributeView>::empty(),
        exposed ==> adapted_item(item, exposed, bon).vis == item.vis && adapted_item(
            item,
            exposed,
            bon,
        ).attrs.filter(doc()) == item.attrs.filter(doc()),
{
    let attrs = adapted_attrs(item.attrs, exposed, bon);
    law_adapted_attrs(item.attrs, exposed, bon);
    lemma_added_attrs(bon);
    if exposed {
        lemma_names_differ();
        item.attrs.filter(not_builder()).lemma_filter_push(lint_attr(), doc());
        assert(attrs =~= item.attrs.filter(not_builder()).push(lint_attr()));
        lemma_filter_twice(item.attrs, not_builder(), doc(), doc());
    } else {
        lemma_filter_items(item.attrs, not_doc_nor_builder());
        lemma_filter_none(attrs, doc());
    }
}

/// Nothing else of the function changes: neither its name, which other macros on it may need, nor
/// what its arguments are called and of which types they are, nor its body.
pub proof fn law_adapted_rest_unchanged(item: ItemFnView, exposed: bool, bon: PathView)
    ensures
        adapted_item(item, exposed, bon).block == item.block,
        adapted_item(item, exposed, bon).sig == (SignatureView {
            inputs: adapted_item(item, exposed, bon).sig.inputs,
            ..item.sig
        }),
        adapted_item(item, exposed, bon).sig.inputs.len() == item.sig.inputs.len(),
        forall|i: int|
            0 <= i < item.sig.inputs.len() ==> match (
                #[trigger] adapted_item(item, exposed, bon).sig.inputs[i],
                item.sig.inputs[i],
            ) {
                (FnArgView::Receiver(after), FnArgView::Receiver(before)) => after.written
                    == before.written && after.ty == before.ty,
                (FnArgView::Typed(after), FnArgView::Typed(before)) => after.pat == before.pat
                    && after.ty == before.ty,
                _ => false,
            },
{
}

/// Adapting the arguments a second time changes nothing.
pub proof fn law_adapted_args_again(inputs: Seq<FnArgView>)
    ensures
        adapted_args(adapted_args(inputs)) == adapted_args(inputs),
{
    assert forall|i: int| 0 <= i < inputs.len() implies #[trigger] adapted_arg(
        adapted_arg(inputs[i]),
    ) == adapted_arg(inputs[i]) by {
        let attrs = inputs[i].attrs();
        lemma_filter_items(attrs, not_doc_nor_builder());
        lemma_filter_all(attrs.filter(not_doc_nor_builder()), not_doc_nor_builder());
    }
    assert(adapted_args(adapted_args(inputs)) =~= adapted_args(inputs));
}

/// What is added to a function: the mark that hides its documentation, the attribute of the run
/// time library that renames it, named by the path of that library and two more segments, and the
/// suppression of two lints.
pub proof fn law_added_attrs(bon: PathView)
    ensures
        hidden_attr().style == AttrStyle::Outer,
        hidden_attr().is_named("doc"@),
        hidden_attr().meta matches MetaView::List { delimiter, tokens, .. } && delimiter
            == Delimiter::Paren && tokens == TokensView::Text("hidden"@),
        privatize_attr(bon).style == AttrStyle::Outer,
        privatize_attr(bon).meta matches MetaView::Path(path) && {
            &&& path.leading_colon == bon.leading_colon
            &&& path.segments == bon.segments + seq![
                PathSegmentView {
                    ident: IdentView { text: "__"@, span: None },
                    arguments: None,
                },
                PathSegmentView {
                    ident: IdentView { text: "__privatize"@, span: None },
                    arguments: None,
                },
            ]
        },
        lint_attr().style == AttrStyle::Outer,
        lint_attr().is_named("allow"@),
        lint_attr().meta matches MetaView::List { delimiter, tokens, .. } && delimiter
            == Delimiter::Paren && tokens == TokensView::Text(
            "clippy::too_many_arguments, clippy::fn_params_excessive_bools,"@,
        ),
{
    assert(privatize_path(bon).segments =~= bon.segments + seq![
        PathSegmentView { ident: IdentView { text: "__"@, span: None }, arguments: None },
        PathSegmentView { ident: IdentView { text: "__privatize"@, span: None }, arguments: None },
    ]);
}

/// The attributes of the function that stay, and those that are added behind them.
pub proof fn law_adapted_attrs_kept(item: ItemFnView, bon: PathView)
    ensures
        adapted_item(item, false, bon).attrs == item.attrs.filter(
            |attr: AttributeView|
                !(attr.meta is NameValue && attr.is_named("doc"@)) && !attr.is_named("builder"@),
        ) + seq![hidden_attr(), privatize_attr(bon), lint_attr()],
        adapted_item(item, true, bon).attrs == item.attrs.filter(
            |attr: AttributeView| !attr.is_named("builder"@),
        ) + seq![lint_attr()],
{
    law_adapted_attrs(item.attrs, false, bon);
    law_adapted_attrs(item.attrs, true, bon);
    let hidden = |attr: AttributeView|
        !(attr.meta is NameValue && attr.is_named("doc"@)) && !attr.is_named("builder"@);
    let exposed = |attr: AttributeView| !attr.is_named("builder"@);
    assert forall|attr: AttributeView| #[trigger] not_doc_nor_builder()(attr) == hidden(attr) by {
        law_doc(attr);
    }
    lemma_filter_same(item.attrs, not_doc_nor_builder(), hidden);
    lemma_filter_same(item.attrs, not_builder(), exposed);
}

/// An argument keeps exactly the attributes that are neither doc comments nor called `builder`, in
/// order.
pub proof fn law_adapted_args_kept(item: ItemFnView, exposed: bool, bon: PathView, i: int)
    requires
        0 <= i < item.sig.inputs.len(),
    ensures
        ({
            let kept = |attrs: Seq<AttributeView>|
                attrs.filter(
                    |attr: AttributeView|
                        !(attr.meta is NameValue && attr.is_named("doc"@)) && !attr.is_named(
                            "builder"@,
                        ),
                );
            match (adapted_item(item, exposed, bon).sig.inputs[i], item.sig.inputs[i]) {
                (FnArgView::Receiver(after), FnArgView::Receiver(before)) => after.attrs == kept(
                    before.attrs,
                ),
                (FnArgView::Typed(after), FnArgView::Typed(before)) => after.attrs == kept(
                    before.attrs,
                ),
                _ => false,
            }
        }),
{
    let pred = |attr: AttributeView|
        !(attr.meta is NameValue && attr.is_named("doc"@)) && !attr.is_named("builder"@);
    assert forall|attr: AttributeView| #[trigger] not_doc_nor_builder()(attr) == pred(attr) by {
        law_doc(attr);
    }
    match item.sig.inputs[i] {
        FnArgView::Receiver(receiver) => {
            lemma_filter_same(receiver.attrs, not_doc_nor_builder(), pred);
        },
        FnArgView::Typed(arg) => {
            lemma_filter_same(arg.attrs, not_doc_nor_builder(), pred);
        },
    }
}

} // verus!
