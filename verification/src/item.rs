//! Functions as they are written: signatures, arguments, types and generics.

use crate::attrs::{Attribute, AttributeView, Path, PathSegmentView, PathView};
use crate::punctuated::{
    clone_generic_params, clone_where_predicates, generic_params, where_predicates,
};
use crate::seqs::lemma_filter_map_concat;
use crate::tokens::{Ident, IdentView, Tokens, TokensView};
use syn::punctuated::Punctuated;
use syn::token::Comma;
use vstd::prelude::*;

verus! {

/// How far an item can be seen.
pub enum Visibility {
    /// `pub`
    Public,
    /// `pub(crate)` and the like, as it is written.
    Restricted(Tokens),
    /// Nothing is written: the item is private.
    Inherited,
}

/// What a [`Visibility`] stands for.
pub enum VisibilityView {
    Public,
    Restricted(TokensView),
    Inherited,
}

/// A type.
pub enum Type {
    /// A path, such as `std::rc::Rc<T>`, and the type as it is written.
    Path { path: Path, written: Tokens },
    /// Any other type, as it is written.
    Other(Tokens),
}

/// What a [`Type`] stands for.
pub enum TypeView {
    Path { path: PathView, written: TokensView },
    Other(TokensView),
}

/// The pattern that an argument is bound by.
pub enum Pat {
    /// A name, perhaps with `ref` or `mut` in front of it and a pattern behind an `@`.
    Ident { by_ref: bool, mutability: bool, ident: Ident, subpat: Option<Tokens> },
    /// Any other pattern, as it is written.
    Other(Tokens),
}

/// What a [`Pat`] stands for.
pub enum PatView {
    Ident { by_ref: bool, mutability: bool, ident: IdentView, subpat: Option<TokensView> },
    Other(TokensView),
}

/// The `self` argument of a method, such as `&mut self` or `self: Rc<Self>`.
///
/// In the short form the type is `Self`, `&Self` or `&mut Self`.
pub struct Receiver {
    pub attrs: Vec<Attribute>,
    /// The argument as it is written, without its attributes.
    pub written: Tokens,
    pub ty: Type,
}

/// What a [`Receiver`] stands for.
#[verifier::ext_equal]
pub struct ReceiverView {
    pub attrs: Seq<AttributeView>,
    pub written: TokensView,
    pub ty: TypeView,
}

/// An argument other than `self`.
pub struct TypedArg {
    pub attrs: Vec<Attribute>,
    pub pat: Pat,
    pub ty: Type,
}

/// What a [`TypedArg`] stands for.
#[verifier::ext_equal]
pub struct TypedArgView {
    pub attrs: Seq<AttributeView>,
    pub pat: PatView,
    pub ty: TypeView,
}

/// An argument of a function.
pub enum FnArg {
    Receiver(Receiver),
    Typed(TypedArg),
}

/// What an [`FnArg`] stands for.
pub enum FnArgView {
    Receiver(ReceiverView),
    Typed(TypedArgView),
}

/// A type or const parameter: `rest` is what stands behind its name.
pub struct NamedParam {
    pub attrs: Vec<Attribute>,
    pub ident: Ident,
    pub rest: Tokens,
}

/// What a [`NamedParam`] stands for.
#[verifier::ext_equal]
pub struct NamedParamView {
    pub attrs: Seq<AttributeView>,
    pub ident: IdentView,
    pub rest: TokensView,
}

/// A generic parameter.
pub enum GenericParam {
    Lifetime(Tokens),
    Type(NamedParam),
    Const(NamedParam),
}

/// What a [`GenericParam`] stands for.
pub enum GenericParamView {
    Lifetime(TokensView),
    Type(NamedParamView),
    Const(NamedParamView),
}

/// The conditions behind `where`.
pub struct WhereClause {
    pub predicates: Punctuated<Tokens, Comma>,
}

/// The generics of an item, as the item declares them.
pub struct ItemGenerics {
    pub params: Punctuated<GenericParam, Comma>,
    pub where_clause: Option<WhereClause>,
}

/// Generic parameters and their conditions.
#[verifier::ext_equal]
pub struct GenericsView {
    pub params: Seq<GenericParamView>,
    pub where_clause: Option<Seq<TokensView>>,
}

/// The signature of a function.
pub struct Signature {
    pub constness: bool,
    pub asyncness: bool,
    pub unsafety: bool,
    pub abi: Option<Tokens>,
    pub ident: Ident,
    pub generics: ItemGenerics,
    pub inputs: Vec<FnArg>,
    pub variadic: Option<Tokens>,
    pub output: Tokens,
}

/// What a [`Signature`] stands for.
#[verifier::ext_equal]
pub struct SignatureView {
    pub constness: bool,
    pub asyncness: bool,
    pub unsafety: bool,
    pub abi: Option<TokensView>,
    pub ident: IdentView,
    pub generics: GenericsView,
    pub inputs: Seq<FnArgView>,
    pub variadic: Option<TokensView>,
    pub output: TokensView,
}

/// A function.
pub struct ItemFn {
    pub attrs: Vec<Attribute>,
    pub vis: Visibility,
    pub sig: Signature,
    pub block: Tokens,
}

/// What an [`ItemFn`] stands for.
#[verifier::ext_equal]
pub struct ItemFnView {
    pub attrs: Seq<AttributeView>,
    pub vis: VisibilityView,
    pub sig: SignatureView,
    pub block: TokensView,
}

impl DeepView for Visibility {
    type V = VisibilityView;

    open spec fn deep_view(&self) -> VisibilityView {
        match self {
            Visibility::Public => VisibilityView::Public,
            Visibility::Restricted(tokens) => VisibilityView::Restricted(tokens.deep_view()),
            Visibility::Inherited => VisibilityView::Inherited,
        }
    }
}

impl DeepView for Type {
    type V = TypeView;

    open spec fn deep_view(&self) -> TypeView {
        match self {
            Type::Path { path, written } => TypeView::Path {
                path: path.deep_view(),
                written: written.deep_view(),
            },
            Type::Other(tokens) => TypeView::Other(tokens.deep_view()),
        }
    }
}

impl DeepView for Pat {
    type V = PatView;

    open spec fn deep_view(&self) -> PatView {
        match self {
            Pat::Ident { by_ref, mutability, ident, subpat } => PatView::Ident {
                by_ref: *by_ref,
                mutability: *mutability,
                ident: ident.deep_view(),
                subpat: subpat.deep_view(),
            },
            Pat::Other(tokens) => PatView::Other(tokens.deep_view()),
        }
    }
}

impl DeepView for Receiver {
    type V = ReceiverView;

    open spec fn deep_view(&self) -> ReceiverView {
        ReceiverView {
            attrs: self.attrs.deep_view(),
            written: self.written.deep_view(),
            ty: self.ty.deep_view(),
        }
    }
}

impl DeepView for TypedArg {
    type V = TypedArgView;

    open spec fn deep_view(&self) -> TypedArgView {
        TypedArgView {
            attrs: self.attrs.deep_view(),
            pat: self.pat.deep_view(),
            ty: self.ty.deep_view(),
        }
    }
}

impl DeepView for FnArg {
    type V = FnArgView;

    open spec fn deep_view(&self) -> FnArgView {
        match self {
            FnArg::Receiver(receiver) => FnArgView::Receiver(receiver.deep_view()),
            FnArg::Typed(arg) => FnArgView::Typed(arg.deep_view()),
        }
    }
}

impl DeepView for NamedParam {
    type V = NamedParamView;

    open spec fn deep_view(&self) -> NamedParamView {
        NamedParamView {
            attrs: self.attrs.deep_view(),
            ident: self.ident.deep_view(),
            rest: self.rest.deep_view(),
        }
    }
}

impl DeepView for GenericParam {
    type V = GenericParamView;

    open spec fn deep_view(&self) -> GenericParamView {
        match self {
            GenericParam::Lifetime(tokens) => GenericParamView::Lifetime(tokens.deep_view()),
            GenericParam::Type(param) => GenericParamView::Type(param.deep_view()),
            GenericParam::Const(param) => GenericParamView::Const(param.deep_view()),
        }
    }
}

impl DeepView for WhereClause {
    type V = Seq<TokensView>;

    open spec fn deep_view(&self) -> Seq<TokensView> {
        where_predicates(self.predicates).map_values(|tokens: Tokens| tokens.deep_view())
    }
}

/// What the parameters in a declared list stand for.
pub open spec fn params_view(params: Punctuated<GenericParam, Comma>) -> Seq<GenericParamView> {
    generic_params(params).map_values(|param: GenericParam| param.deep_view())
}

impl DeepView for ItemGenerics {
    type V = GenericsView;

    open spec fn deep_view(&self) -> GenericsView {
        GenericsView {
            params: params_view(self.params),
            where_clause: self.where_clause.deep_view(),
        }
    }
}

impl DeepView for Signature {
    type V = SignatureView;

    open spec fn deep_view(&self) -> SignatureView {
        SignatureView {
            constness: self.constness,
            asyncness: self.asyncness,
            unsafety: self.unsafety,
            abi: self.abi.deep_view(),
            ident: self.ident.deep_view(),
            generics: self.generics.deep_view(),
            inputs: self.inputs.deep_view(),
            variadic: self.variadic.deep_view(),
            output: self.output.deep_view(),
        }
    }
}

impl DeepView for ItemFn {
    type V = ItemFnView;

    open spec fn deep_view(&self) -> ItemFnView {
        ItemFnView {
            attrs: self.attrs.deep_view(),
            vis: self.vis.deep_view(),
            sig: self.sig.deep_view(),
            block: self.block.deep_view(),
        }
    }
}

impl Clone for Visibility {
    fn clone(&self) -> (copy: Self)
        ensures
            copy.deep_view() == self.deep_view(),
    {
        match self {
            Visibility::Public => Visibility::Public,
            Visibility::Restricted(tokens) => Visibility::Restricted(tokens.clone()),
            Visibility::Inherited => Visibility::Inherited,
        }
    }
}

impl Clone for Type {
    fn clone(&self) -> (copy: Self)
        ensures
            copy.deep_view() == self.deep_view(),
    {
        match self {
            Type::Path { path, written } => Type::Path {
                path: path.clone(),
                written: written.clone(),
            },
            Type::Other(tokens) => Type::Other(tokens.clone()),
        }
    }
}

impl Clone for Pat {
    fn clone(&self) -> (copy: Self)
        ensures
            copy.deep_view() == self.deep_view(),
    {
        match self {
            Pat::Ident { by_ref, mutability, ident, subpat } => Pat::Ident {
                by_ref: *by_ref,
                mutability: *mutability,
                ident: ident.clone(),
                subpat: subpat.clone(),
            },
            Pat::Other(tokens) => Pat::Other(tokens.clone()),
        }
    }
}

impl Clone for Receiver {
    fn clone(&self) -> (copy: Self)
        ensures
            copy.deep_view() == self.deep_view(),
    {
        Receiver { attrs: self.attrs.clone(), written: self.written.clone(), ty: self.ty.clone() }
    }
}

impl Clone for TypedArg {
    fn clone(&self) -> (copy: Self)
        ensures
            copy.deep_view() == self.deep_view(),
    {
        TypedArg { attrs: self.attrs.clone(), pat: self.pat.clone(), ty: self.ty.clone() }
    }
}

impl Clone for FnArg {
    fn clone(&self) -> (copy: Self)
        ensures
            copy.deep_view() == self.deep_view(),
    {
        match self {
            FnArg::Receiver(receiver) => FnArg::Receiver(receiver.clone()),
            FnArg::Typed(arg) => FnArg::Typed(arg.clone()),
        }
    }
}

impl Clone for NamedParam {
    fn clone(&self) -> (copy: Self)
        ensures
            copy.deep_view() == self.deep_view(),
    {
        NamedParam { attrs: self.attrs.clone(), ident: self.ident.clone(), rest: self.rest.clone() }
    }
}

impl Clone for GenericParam {
    fn clone(&self) -> (copy: Self)
        ensures
            copy.deep_view() == self.deep_view(),
    {
        match self {
            GenericParam::Lifetime(tokens) => GenericParam::Lifetime(tokens.clone()),
            GenericParam::Type(param) => GenericParam::Type(param.clone()),
            GenericParam::Const(param) => GenericParam::Const(param.clone()),
        }
    }
}

impl Clone for WhereClause {
    fn clone(&self) -> (copy: Self)
        ensures
            copy.deep_view() == self.deep_view(),
    {
        let copy = WhereClause { predicates: clone_where_predicates(&self.predicates) };
        assert(copy.deep_view() =~= self.deep_view());
        copy
    }
}

impl Clone for ItemGenerics {
    fn clone(&self) -> (copy: Self)
        ensures
            copy.deep_view() == self.deep_view(),
    {
        let copy = ItemGenerics {
            params: clone_generic_params(&self.params),
            where_clause: self.where_clause.clone(),
        };
        assert(copy.deep_view().params =~= self.deep_view().params);
        copy
    }
}

impl Clone for Signature {
    fn clone(&self) -> (copy: Self)
        ensures
            copy.deep_view() == self.deep_view(),
    {
        Signature {
            constness: self.constness,
            asyncness: self.asyncness,
            unsafety: self.unsafety,
            abi: self.abi.clone(),
            ident: self.ident.clone(),
            generics: self.generics.clone(),
            inputs: self.inputs.clone(),
            variadic: self.variadic.clone(),
            output: self.output.clone(),
        }
    }
}

impl Clone for ItemFn {
    fn clone(&self) -> (copy: Self)
        ensures
            copy.deep_view() == self.deep_view(),
    {
        ItemFn {
            attrs: self.attrs.clone(),
            vis: self.vis.clone(),
            sig: self.sig.clone(),
            block: self.block.clone(),
        }
    }
}

impl TypeView {
    /// The last name of a type that is written as a path.
    pub open spec fn last_name(self) -> Option<Seq<char>> {
        match self {
            TypeView::Path { path, .. } => if path.segments.len() > 0 {
                Some(path.segments.last().ident.text)
            } else {
                None
            },
            TypeView::Other(_) => None,
        }
    }
}

impl Type {
    /// The last name of a type that is written as a path.
    pub fn last_name(&self) -> (name: Option<String>)
        ensures
            name.deep_view() == self.deep_view().last_name(),
    {
        match self {
            Type::Path { path, .. } => {
                let n = path.segments.len();
                if n > 0 {
                    assert(path.deep_view().segments.last() == path.segments[n - 1].deep_view());
                    Some(path.segments[n - 1].ident.text.clone())
                } else {
                    None
                }
            },
            Type::Other(_) => None,
        }
    }
}

impl FnArgView {
    /// The attributes of the argument.
    pub open spec fn attrs(self) -> Seq<AttributeView> {
        match self {
            FnArgView::Receiver(receiver) => receiver.attrs,
            FnArgView::Typed(arg) => arg.attrs,
        }
    }
}

impl SignatureView {
    /// The `self` argument, which can only be the first.
    pub open spec fn receiver(self) -> Option<ReceiverView> {
        if self.inputs.len() > 0 {
            match self.inputs[0] {
                FnArgView::Receiver(receiver) => Some(receiver),
                FnArgView::Typed(_) => None,
            }
        } else {
            None
        }
    }

    /// The arguments other than `self`.
    pub open spec fn typed_args(self) -> Seq<TypedArgView> {
        typed_args(self.inputs)
    }
}

/// The arguments other than `self` among `inputs`.
pub open spec fn typed_args(inputs: Seq<FnArgView>) -> Seq<TypedArgView> {
    inputs.filter_map(
        |arg: FnArgView|
            match arg {
                FnArgView::Typed(arg) => Some(arg),
                FnArgView::Receiver(_) => None,
            },
    )
}

impl Signature {
    /// The `self` argument, which can only be the first.
    pub fn receiver(&self) -> (receiver: Option<&Receiver>)
        ensures
            receiver.deep_view() == self.deep_view().receiver(),
            receiver matches Some(receiver) ==> self.inputs@[0] == FnArg::Receiver(*receiver),
    {
        if self.inputs.len() == 0 {
            return None;
        }
        assert(self.deep_view().inputs[0] == self.inputs[0].deep_view());
        match &self.inputs[0] {
            FnArg::Receiver(receiver) => Some(receiver),
            FnArg::Typed(_) => None,
        }
    }

    /// The arguments other than `self`.
    pub fn typed_args(&self) -> (args: Vec<&TypedArg>)
        ensures
            args.deep_view() == self.deep_view().typed_args(),
    {
        let mut args: Vec<&TypedArg> = Vec::new();
        let ghost inputs = self.inputs.deep_view();
        assert(typed_args(inputs.take(0)) =~= Seq::empty());
        assert(args.deep_view() =~= Seq::empty());
        for i in 0..self.inputs.len()
            invariant
                inputs == self.inputs.deep_view(),
                args.deep_view() == typed_args(inputs.take(i as int)),
        {
            let ghost before = args.deep_view();
            assert(inputs.take(i + 1).drop_last() =~= inputs.take(i as int));
            match &self.inputs[i] {
                FnArg::Typed(arg) => {
                    args.push(arg);
                    assert(args.deep_view() =~= before.push(arg.deep_view()));
                },
                FnArg::Receiver(_) => {},
            }
            assert(args.deep_view() =~= typed_args(inputs.take(i + 1)));
        }
        assert(inputs.take(inputs.len() as int) =~= inputs);
        args
    }
}

/// A type that is a path goes by the last segment of the path; other types have no name.
pub proof fn law_last_name(
    leading_colon: bool,
    segments: Seq<PathSegmentView>,
    last: PathSegmentView,
    written: TokensView,
)
    ensures
        (TypeView::Path {
            path: PathView { leading_colon, segments: segments.push(last) },
            written,
        }).last_name() == Some(last.ident.text),
        (TypeView::Path {
            path: PathView { leading_colon, segments: Seq::empty() },
            written,
        }).last_name() is None,
        TypeView::Other(written).last_name() is None,
{
}

/// The receiver is the first argument, if that is a `self` argument, whatever follows and whatever
/// else the signature says.
pub proof fn law_receiver(sig: SignatureView, first: FnArgView, rest: Seq<FnArgView>)
    ensures
        (SignatureView { inputs: seq![first] + rest, ..sig }).receiver() == match first {
            FnArgView::Receiver(receiver) => Some(receiver),
            FnArgView::Typed(_) => None,
        },
        (SignatureView { inputs: Seq::empty(), ..sig }).receiver() is None,
{
}

/// The arguments other than `self` are found one by one, in order, and none is left out.
pub proof fn law_typed_args(
    sig: SignatureView,
    first: Seq<FnArgView>,
    second: Seq<FnArgView>,
    arg: TypedArgView,
    receiver: ReceiverView,
)
    ensures
        (SignatureView { inputs: Seq::empty(), ..sig }).typed_args() == Seq::<TypedArgView>::empty(),
        (SignatureView { inputs: seq![FnArgView::Typed(arg)], ..sig }).typed_args() == seq![arg],
        (SignatureView { inputs: seq![FnArgView::Receiver(receiver)], ..sig }).typed_args()
            == Seq::<TypedArgView>::empty(),
        (SignatureView { inputs: first + second, ..sig }).typed_args() == (SignatureView {
            inputs: first,
            ..sig
        }).typed_args() + (SignatureView { inputs: second, ..sig }).typed_args(),
{
    let f = |arg: FnArgView|
        match arg {
            FnArgView::Typed(arg) => Some(arg),
            FnArgView::Receiver(_) => None,
        };
    lemma_filter_map_concat(first, second, f);
    assert(Seq::<FnArgView>::empty().filter_map(f) =~= Seq::empty());
    assert(seq![FnArgView::Typed(arg)].drop_last() =~= Seq::empty());
    assert(seq![FnArgView::Receiver(receiver)].drop_last() =~= Seq::empty());
    assert(seq![FnArgView::Typed(arg)].last() == FnArgView::Typed(arg));
    assert(seq![FnArgView::Receiver(receiver)].last() == FnArgView::Receiver(receiver));
    assert(seq![FnArgView::Typed(arg)].filter_map(f) =~= seq![arg]);
    assert(seq![FnArgView::Receiver(receiver)].filter_map(f) =~= Seq::empty());
}

/// The attributes of an argument are those that it carries.
pub proof fn law_argument_attrs(receiver: ReceiverView, arg: TypedArgView)
    ensures
        FnArgView::Receiver(receiver).attrs() == receiver.attrs,
        FnArgView::Typed(arg).attrs() == arg.attrs,
{
}

/// An argument stands for all of its parts, and its type for the way it is written.
pub proof fn law_argument_views(
    tokens: Tokens,
    path: Path,
    ident: Ident,
    by_ref: bool,
    mutability: bool,
    subpat: Option<Tokens>,
    receiver: Receiver,
    arg: TypedArg,
)
    ensures
        (Type::Path { path, written: tokens }).deep_view() == (TypeView::Path {
            path: path.deep_view(),
            written: tokens.deep_view(),
        }),
        Type::Other(tokens).deep_view() == TypeView::Other(tokens.deep_view()),
        (Pat::Ident { by_ref, mutability, ident, subpat }).deep_view() == (PatView::Ident {
            by_ref,
            mutability,
            ident: ident.deep_view(),
            subpat: subpat.deep_view(),
        }),
        Pat::Other(tokens).deep_view() == PatView::Other(tokens.deep_view()),
        receiver.deep_view().attrs == receiver.attrs.deep_view(),
        receiver.deep_view().written == receiver.written.deep_view(),
        receiver.deep_view().ty == receiver.ty.deep_view(),
        arg.deep_view().attrs == arg.attrs.deep_view(),
        arg.deep_view().pat == arg.pat.deep_view(),
        arg.deep_view().ty == arg.ty.deep_view(),
        FnArg::Receiver(receiver).deep_view() == FnArgView::Receiver(receiver.deep_view()),
        FnArg::Typed(arg).deep_view() == FnArgView::Typed(arg.deep_view()),
{
}

/// Generics stand for every parameter and every condition that is declared, in order.
pub proof fn law_generics_views(
    tokens: Tokens,
    param: NamedParam,
    generics: ItemGenerics,
    clause: WhereClause,
)
    ensures
        param.deep_view().attrs == param.attrs.deep_view(),
        param.deep_view().ident == param.ident.deep_view(),
        param.deep_view().rest == param.rest.deep_view(),
        GenericParam::Lifetime(tokens).deep_view() == GenericParamView::Lifetime(tokens.deep_view()),
        GenericParam::Type(param).deep_view() == GenericParamView::Type(param.deep_view()),
        GenericParam::Const(param).deep_view() == GenericParamView::Const(param.deep_view()),
        generics.deep_view().params.len() == generic_params(generics.params).len(),
        forall|i: int|
            0 <= i < generic_params(generics.params).len()
                ==> #[trigger] generics.deep_view().params[i] == generic_params(
                generics.params,
            )[i].deep_view(),
        generics.deep_view().where_clause == generics.where_clause.deep_view(),
        clause.deep_view().len() == where_predicates(clause.predicates).len(),
        forall|i: int|
            0 <= i < where_predicates(clause.predicates).len()
                ==> #[trigger] clause.deep_view()[i] == where_predicates(
                clause.predicates,
            )[i].deep_view(),
{
}

/// A function stands for all of its parts.
pub proof fn law_function_views(tokens: Tokens, sig: Signature, item: ItemFn)
    ensures
        Visibility::Public.deep_view() is Public,
        Visibility::Restricted(tokens).deep_view() == VisibilityView::Restricted(tokens.deep_view()),
        Visibility::Inherited.deep_view() is Inherited,
        sig.deep_view().constness == sig.constness,
        sig.deep_view().asyncness == sig.asyncness,
        sig.deep_view().unsafety == sig.unsafety,
        sig.deep_view().abi == sig.abi.deep_view(),
        sig.deep_view().ident == sig.ident.deep_view(),
        sig.deep_view().generics == sig.generics.deep_view(),
        sig.deep_view().inputs == sig.inputs.deep_view(),
        sig.deep_view().variadic == sig.variadic.deep_view(),
        sig.deep_view().output == sig.output.deep_view(),
        item.deep_view().attrs == item.attrs.deep_view(),
        item.deep_view().vis == item.vis.deep_view(),
        item.deep_view().sig == item.sig.deep_view(),
        item.deep_view().block == item.block.deep_view(),
{
}

} // verus!
