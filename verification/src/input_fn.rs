//! From a function with positional arguments to the description of its builder.

use crate::adapted::{adapt_item, adapted_item, law_adapted_docs};
use crate::attrs::{
    allows_of, doc, docs_of, extend_allows, ident_path, law_allows_of, law_doc, AttrStyle,
    Attribute, AttributeView, Expr, ExprView, Meta, MetaView, Path,
};
use crate::builder_params::{
    AssocMethodCtxParams, AssocMethodCtxParamsView, AssocMethodReceiverCtxParams,
    BuilderGenCtxParams, BuilderGenCtxParamsView, BuilderTypeParams, BuilderTypeParamsView,
    FinishFnParams, FinishFnParamsView, RawMember, RawMemberView, StartFnParams, StartFnParamsView,
    SyntaxVariant,
};
use crate::call::{FnCallBody, FnCallBodyView};
use crate::config::{ItemSigConfigView, TopLevelConfig, TopLevelConfigView};
use crate::error::{outcome, Error, ErrorView};
use crate::generics::{
    cloned_params, join_where, joined_where, law_joined_conditions, law_merged_keeps_params,
    law_merged_lifetimes_first, law_merged_parts, lifetimes_first, merge_generic_params,
    merged_params, Generics,
};
use crate::item::{
    FnArg, FnArgView, GenericParamView, GenericsView, ItemFn, ItemFnView, ItemGenerics, Pat,
    PatView, Receiver, ReceiverView, SignatureView, Type, TypeView, TypedArgView,
};
use crate::naming::{
    builder_type_ident, builder_type_name, finish_fn_ident, finish_fn_name, start_fn_ident,
    start_fn_name,
};
use crate::propagated::{get_propagated_attrs, named, propagated_attrs};
use crate::punctuated::generic_params;
use crate::seqs::{lemma_concat_empty, lemma_filter_next, lemma_filter_none, lemma_filter_same};
use crate::tokens::{Ident, IdentView, TokensView};
use std::rc::Rc;
use vstd::prelude::*;

verus! {

/// The impl block that a method stands in.
pub struct ImplCtx {
    pub self_ty: Type,
    pub generics: ItemGenerics,
    /// Lint suppressions of the impl block, which all generated items inherit. An
    /// `#[expect(...)]` must be represented as `#[allow(...)]` here.
    pub allow_attrs: Vec<Attribute>,
}

/// What an [`ImplCtx`] stands for.
#[verifier::ext_equal]
pub struct ImplCtxView {
    pub self_ty: TypeView,
    pub generics: GenericsView,
    pub allow_attrs: Seq<AttributeView>,
}

impl DeepView for ImplCtx {
    type V = ImplCtxView;

    open spec fn deep_view(&self) -> ImplCtxView {
        ImplCtxView {
            self_ty: self.self_ty.deep_view(),
            generics: self.generics.deep_view(),
            allow_attrs: self.allow_attrs.deep_view(),
        }
    }
}

/// What is known of a function under the attribute. `N` is the set of names that the generics of
/// the builder may not take.
pub struct FnInputCtxParams<'a, N> {
    pub namespace: &'a N,
    pub fn_item: SyntaxVariant<ItemFn>,
    pub impl_ctx: Option<Rc<ImplCtx>>,
    pub config: TopLevelConfig,
}

/// What [`FnInputCtxParams`] stand for.
#[verifier::ext_equal]
pub struct FnInputCtxParamsView<N> {
    pub namespace: N,
    pub fn_item: SyntaxVariant<ItemFnView>,
    pub impl_ctx: Option<ImplCtxView>,
    pub config: TopLevelConfigView,
}

impl<'a, N> DeepView for FnInputCtxParams<'a, N> {
    type V = FnInputCtxParamsView<N>;

    open spec fn deep_view(&self) -> FnInputCtxParamsView<N> {
        FnInputCtxParamsView {
            namespace: *self.namespace,
            fn_item: self.fn_item.deep_view(),
            impl_ctx: self.impl_ctx.deep_view(),
            config: self.config.deep_view(),
        }
    }
}

/// A function under the attribute, with its starting function settled.
pub struct FnInputCtx<'a, N> {
    pub namespace: &'a N,
    pub fn_item: SyntaxVariant<ItemFn>,
    pub impl_ctx: Option<Rc<ImplCtx>>,
    pub config: TopLevelConfig,
    pub start_fn: StartFnParams,
    pub self_ty_prefix: Option<String>,
}

/// What an [`FnInputCtx`] stands for.
#[verifier::ext_equal]
pub struct FnInputCtxView<N> {
    pub namespace: N,
    pub fn_item: SyntaxVariant<ItemFnView>,
    pub impl_ctx: Option<ImplCtxView>,
    pub config: TopLevelConfigView,
    pub start_fn: StartFnParamsView,
    pub self_ty_prefix: Option<Seq<char>>,
}

impl<'a, N> DeepView for FnInputCtx<'a, N> {
    type V = FnInputCtxView<N>;

    open spec fn deep_view(&self) -> FnInputCtxView<N> {
        FnInputCtxView {
            namespace: *self.namespace,
            fn_item: self.fn_item.deep_view(),
            impl_ctx: self.impl_ctx.deep_view(),
            config: self.config.deep_view(),
            start_fn: self.start_fn.deep_view(),
            self_ty_prefix: self.self_ty_prefix.deep_view(),
        }
    }
}

/// The function that starts the building of `item`. Its documentation is that of the function, and
/// its generics are those of the function alone.
pub open spec fn start_fn_params(
    chosen: ItemSigConfigView,
    item: ItemFnView,
    in_impl: bool,
) -> StartFnParamsView {
    StartFnParamsView {
        ident: start_fn_name(chosen.name, item.sig.ident, in_impl),
        vis: chosen.vis,
        docs: match chosen.docs {
            Some(docs) => docs,
            None => item.attrs.filter(doc()),
        },
        generics: Some(item.sig.generics),
    }
}

impl<N> FnInputCtxParamsView<N> {
    /// The last name of the `Self` type, for a function in an impl block.
    pub open spec fn self_ty_prefix(self) -> Option<Seq<char>> {
        match self.impl_ctx {
            Some(impl_ctx) => impl_ctx.self_ty.last_name(),
            None => None,
        }
    }

    /// The function with its starting function settled.
    pub open spec fn settled(self) -> FnInputCtxView<N> {
        FnInputCtxView {
            namespace: self.namespace,
            fn_item: self.fn_item,
            impl_ctx: self.impl_ctx,
            config: self.config,
            start_fn: start_fn_params(
                self.config.start_fn,
                self.fn_item.norm,
                self.impl_ctx is Some,
            ),
            self_ty_prefix: self.self_ty_prefix(),
        }
    }
}

/// The member that an argument becomes, unless a pattern takes the argument apart.
pub open spec fn raw_member(norm: TypedArgView, orig: TypedArgView) -> Result<
    RawMemberView,
    ErrorView,
> {
    match norm.pat {
        PatView::Ident { ident, .. } => Ok(
            RawMemberView {
                attrs: norm.attrs,
                ident,
                ty: SyntaxVariant { norm: norm.ty, orig: orig.ty },
            },
        ),
        PatView::Other(_) => Err(ErrorView::ArgumentPattern { pat: orig.pat }),
    }
}

/// The members that arguments become. The first argument that is taken apart decides on the
/// complaint.
pub open spec fn raw_members(norm: Seq<TypedArgView>, orig: Seq<TypedArgView>) -> Result<
    Seq<RawMemberView>,
    ErrorView,
>
    decreases norm.len(),
{
    if norm.len() == 0 || orig.len() == 0 {
        Ok(Seq::empty())
    } else if norm.len() > orig.len() {
        raw_members(norm.drop_last(), orig)
    } else {
        let last = norm.len() - 1;
        match raw_members(norm.drop_last(), orig) {
            Ok(members) => match raw_member(norm[last], orig[last]) {
                Ok(member) => Ok(members.push(member)),
                Err(error) => Err(error),
            },
            Err(error) => Err(error),
        }
    }
}

impl<N> FnInputCtxView<N> {
    /// The `self` argument, for a method in an impl block. It may not carry `builder` attributes.
    pub open spec fn kept_receiver(self) -> Result<Option<ReceiverView>, ErrorView> {
        match self.fn_item.norm.sig.receiver() {
            Some(receiver) => {
                let found = receiver.attrs.filter(named("builder"@));
                if found.len() > 0 {
                    Err(ErrorView::BuilderAttrOnReceiver { attr: found[0] })
                } else if self.impl_ctx is Some {
                    Ok(Some(receiver))
                } else {
                    Ok(None)
                }
            },
            None => Ok(None),
        }
    }

    /// The generics of the builder: those of the impl block and those of the function.
    pub open spec fn generics(self) -> GenericsView {
        let own = self.fn_item.norm.sig.generics;
        match self.impl_ctx {
            Some(impl_ctx) => GenericsView {
                params: merged_params(impl_ctx.generics.params, own.params),
                where_clause: joined_where(own.where_clause, impl_ctx.generics.where_clause),
            },
            None => own,
        }
    }

    /// The function, as it is left standing next to its builder. It stays exposed where a name
    /// was chosen for the starting function, which must then differ from its own.
    pub open spec fn adapted_fn(self) -> Result<ItemFnView, ErrorView> {
        let item = self.fn_item.orig;
        match self.config.start_fn.name {
            Some(name) => if name.text == item.sig.ident.text {
                Err(ErrorView::StartFnName { name })
            } else {
                Ok(adapted_item(item, true, self.config.bon))
            },
            None => Ok(adapted_item(item, false, self.config.bon)),
        }
    }

    /// The arguments, as members of the builder.
    pub open spec fn raw_members(self) -> Result<Seq<RawMemberView>, ErrorView> {
        raw_members(self.fn_item.norm.sig.typed_args(), self.fn_item.orig.sig.typed_args())
    }

    /// The builder type.
    pub open spec fn builder_type(self) -> BuilderTypeParamsView {
        BuilderTypeParamsView {
            ident: builder_type_name(
                self.config.builder_type.name,
                self.fn_item.norm.sig.ident,
                self.impl_ctx is Some,
                self.self_ty_prefix,
            ),
            derives: self.config.derive,
            docs: self.config.builder_type.docs,
            vis: self.config.builder_type.vis,
        }
    }

    /// Lint suppressions of the impl block, then those of the function.
    pub open spec fn allow_attrs(self) -> Seq<AttributeView> {
        let inherited = match self.impl_ctx {
            Some(impl_ctx) => impl_ctx.allow_attrs,
            None => Seq::empty(),
        };
        inherited + allows_of(self.fn_item.norm.attrs)
    }

    /// The call of the `adapted` function. Where the function is hidden it is called by its
    /// private name.
    pub open spec fn finish_fn_body(
        self,
        adapted: ItemFnView,
        private_name: IdentView,
    ) -> FnCallBodyView {
        FnCallBodyView {
            sig: SignatureView {
                ident: if self.config.start_fn.name is None {
                    private_name
                } else {
                    adapted.sig.ident
                },
                ..adapted.sig
            },
            impl_ctx: self.impl_ctx,
        }
    }

    /// The function that finishes the building.
    pub open spec fn finish_fn(
        self,
        adapted: ItemFnView,
        private_name: IdentView,
        special_attrs: Seq<AttributeView>,
    ) -> FinishFnParamsView {
        FinishFnParamsView {
            ident: finish_fn_name(
                self.config.finish_fn.name,
                self.fn_item.norm.sig.ident,
                self.impl_ctx is Some,
            ),
            vis: self.config.finish_fn.vis,
            unsafety: self.fn_item.norm.sig.unsafety,
            asyncness: self.fn_item.norm.sig.asyncness,
            special_attrs,
            body: self.finish_fn_body(adapted, private_name),
            output: self.fn_item.norm.sig.output,
            attrs: match self.config.finish_fn.docs {
                Some(docs) => docs,
                None => seq![finish_fn_doc()],
            },
        }
    }

    /// The description of the builder, for what is known of the impl block and for the members.
    pub open spec fn builder_gen_ctx_params<M>(
        self,
        assoc_method_ctx: Option<AssocMethodCtxParamsView>,
        members: Seq<M>,
        private_name: IdentView,
    ) -> Result<BuilderGenCtxParamsView<N, M>, ErrorView> {
        match (self.adapted_fn(), propagated_attrs(self.fn_item.norm.attrs)) {
            (Err(error), _) => Err(error),
            (Ok(_), Err(error)) => Err(error),
            (Ok(adapted), Ok(special_attrs)) => Ok(
                BuilderGenCtxParamsView {
                    bon: self.config.bon,
                    namespace: self.namespace,
                    members,
                    allow_attrs: self.allow_attrs(),
                    const_: self.config.const_,
                    on: self.config.on,
                    assoc_method_ctx,
                    generics: self.generics(),
                    orig_item_vis: self.fn_item.norm.vis,
                    builder_type: self.builder_type(),
                    state_mod: self.config.state_mod,
                    start_fn: self.start_fn,
                    finish_fn: self.finish_fn(adapted, private_name, special_attrs),
                },
            ),
        }
    }

    /// The complaint about the `self` argument of a method.
    pub open spec fn receiver_error(self) -> Option<ErrorView> {
        match (self.impl_ctx, self.kept_receiver()) {
            (Some(_), Err(error)) => Some(error),
            _ => None,
        }
    }
}

/// The default documentation of the function that finishes the building.
pub open spec fn finish_fn_doc() -> AttributeView {
    AttributeView {
        style: AttrStyle::Outer,
        meta: MetaView::NameValue {
            path: ident_path("doc"@),
            value: ExprView::Str(" Finishes building and performs the requested action."@),
        },
    }
}

impl<'a, N> FnInputCtx<'a, N> {
    /// Whether `ty` is what `normalize` makes of the type of the `self` argument, given the `Self`
    /// type of the impl block.
    pub open spec fn normalized<F: FnOnce(&Type, &Type) -> Type>(
        &self,
        normalize: F,
        ty: Type,
    ) -> bool {
        call_ensures(
            normalize,
            (&self.impl_ctx->0.self_ty, &self.fn_item.norm.sig.inputs@[0]->Receiver_0.ty),
            ty,
        )
    }

    /// Whether `receiver` is the `self` argument of the method, if it has one, together with what
    /// `normalize` makes of its type.
    pub open spec fn receiver_ctx_made<F: FnOnce(&Type, &Type) -> Type>(
        &self,
        normalize: F,
        receiver: Option<AssocMethodReceiverCtxParams>,
    ) -> bool {
        match receiver {
            Some(receiver) => {
                &&& self.deep_view().kept_receiver() == Ok::<Option<ReceiverView>, ErrorView>(
                    Some(receiver.with_self_keyword.deep_view()),
                )
                &&& self.normalized(normalize, receiver.without_self_keyword)
            },
            None => self.deep_view().kept_receiver() == Ok::<Option<ReceiverView>, ErrorView>(None),
        }
    }

    /// Whether `assoc` describes the impl block that the function stands in, if it does.
    pub open spec fn assoc_method_ctx_made<F: FnOnce(&Type, &Type) -> Type>(
        &self,
        normalize: F,
        assoc: Option<AssocMethodCtxParams>,
    ) -> bool {
        match (assoc, self.impl_ctx) {
            (Some(assoc), Some(impl_ctx)) => {
                &&& assoc.self_ty.deep_view() == impl_ctx.self_ty.deep_view()
                &&& self.receiver_ctx_made(normalize, assoc.receiver)
            },
            (None, None) => true,
            _ => false,
        }
    }

    /// Whether `name` is what `privatize` makes of the name of a hidden function. One that stays
    /// exposed keeps its name.
    pub open spec fn private_name_made<P: FnOnce(&Ident) -> Ident>(
        &self,
        privatize: P,
        name: Ident,
    ) -> bool {
        if self.config.start_fn.name is None {
            call_ensures(privatize, (&self.fn_item.orig.sig.ident,), name)
        } else {
            name.deep_view() == self.fn_item.orig.sig.ident.deep_view()
        }
    }
}

impl<'a, N> FnInputCtx<'a, N> {
    /// Settles the starting function.
    pub fn settle(params: FnInputCtxParams<'a, N>) -> (ctx: Self)
        ensures
            ctx.deep_view() == params.deep_view().settled(),
    {
        let item = &params.fn_item.norm;
        let chosen = params.config.start_fn.clone();
        let docs = match chosen.docs {
            Some(docs) => docs,
            None => docs_of(&item.attrs),
        };
        let start_fn = StartFnParams {
            ident: start_fn_ident(chosen.name, &item.sig.ident, params.impl_ctx.is_some()),
            vis: chosen.vis,
            docs,
            // The generics of the impl block must not be repeated here.
            generics: Some(
                Generics {
                    params: cloned_params(&item.sig.generics.params),
                    where_clause: item.sig.generics.where_clause.clone(),
                },
            ),
        };
        let self_ty_prefix = match &params.impl_ctx {
            Some(impl_ctx) => impl_ctx.self_ty.last_name(),
            None => None,
        };
        FnInputCtx {
            namespace: params.namespace,
            fn_item: params.fn_item,
            impl_ctx: params.impl_ctx,
            config: params.config,
            start_fn,
            self_ty_prefix,
        }
    }

    /// Settles the starting function, and has the outcome checked by `validate`.
    pub fn new<V: FnOnce(&FnInputCtx<'a, N>) -> Result<(), Error>>(
        params: FnInputCtxParams<'a, N>,
        validate: V,
    ) -> (res: Result<Self, Error>)
        requires
            forall|ctx: &FnInputCtx<'a, N>| call_requires(validate, (ctx,)),
        ensures
            exists|ctx: FnInputCtx<'a, N>, checked: Result<(), Error>|
                #![trigger call_ensures(validate, (&ctx,), checked)]
                {
                    &&& ctx.deep_view() == params.deep_view().settled()
                    &&& call_ensures(validate, (&ctx,), checked)
                    &&& match checked {
                        Ok(_) => res == Ok::<Self, Error>(ctx),
                        Err(error) => res == Err::<Self, Error>(error),
                    }
                },
    {
        let ctx = Self::settle(params);
        match validate(&ctx) {
            Ok(_) => Ok(ctx),
            Err(error) => Err(error),
        }
    }

    /// The `self` argument, for a method in an impl block. It may not carry `builder` attributes.
    pub fn kept_receiver(&self) -> (res: Result<Option<&Receiver>, Error>)
        ensures
            outcome(res) == self.deep_view().kept_receiver(),
            res matches Ok(Some(receiver)) ==> self.fn_item.norm.sig.inputs@[0] == FnArg::Receiver(
                *receiver,
            ),
    {
        let receiver = match self.fn_item.norm.sig.receiver() {
            Some(receiver) => receiver,
            None => return Ok(None),
        };
        if let Some(attr) = first_named(&receiver.attrs, "builder") {
            return Err(Error::BuilderAttrOnReceiver { attr });
        }
        if self.impl_ctx.is_none() {
            return Ok(None);
        }
        Ok(Some(receiver))
    }

    /// The generics of the builder: those of the impl block and those of the function.
    pub fn generics(&self) -> (generics: Generics)
        ensures
            generics.deep_view() == self.deep_view().generics(),
    {
        let own = &self.fn_item.norm.sig.generics;
        match &self.impl_ctx {
            Some(impl_ctx) => Generics {
                params: merge_generic_params(&impl_ctx.generics.params, &own.params),
                where_clause: join_where(
                    own.where_clause.clone(),
                    impl_ctx.generics.where_clause.clone(),
                ),
            },
            None => Generics {
                params: cloned_params(&own.params),
                where_clause: own.where_clause.clone(),
            },
        }
    }

    /// The function, as it is left standing next to its builder. It stays exposed where a name
    /// was chosen for the starting function, which must then differ from its own.
    pub fn adapted_fn(&self) -> (res: Result<ItemFn, Error>)
        ensures
            outcome(res) == self.deep_view().adapted_fn(),
    {
        let orig = &self.fn_item.orig;
        let exposed = match &self.config.start_fn.name {
            Some(name) => {
                if name.same_name(&orig.sig.ident) {
                    return Err(Error::StartFnName { name: name.clone() });
                }
                true
            },
            None => false,
        };
        Ok(adapt_item(orig, exposed, &self.config.bon))
    }

    /// The arguments, as members of the builder.
    pub fn raw_members(&self) -> (res: Result<Vec<RawMember>, Error>)
        ensures
            outcome(res) == self.deep_view().raw_members(),
    {
        let norm = self.fn_item.norm.sig.typed_args();
        let orig = self.fn_item.orig.sig.typed_args();
        let ghost (all, written) = (norm.deep_view(), orig.deep_view());
        let mut members: Vec<RawMember> = Vec::new();
        let n: usize = if norm.len() < orig.len() {
            norm.len()
        } else {
            orig.len()
        };
        assert(members.deep_view() =~= Seq::empty());
        for i in 0..n
            invariant
                all == norm.deep_view(),
                written == orig.deep_view(),
                n <= all.len(),
                n <= written.len(),
                raw_members(all.take(i as int), written) == Ok::<Seq<RawMemberView>, ErrorView>(
                    members.deep_view(),
                ),
                all == self.deep_view().fn_item.norm.sig.typed_args(),
                written == self.deep_view().fn_item.orig.sig.typed_args(),
        {
            let ghost before = members.deep_view();
            assert(all.take(i + 1).drop_last() =~= all.take(i as int));
            assert(all[i as int] == norm[i as int].deep_view());
            assert(written[i as int] == orig[i as int].deep_view());
            match &norm[i].pat {
                Pat::Ident { ident, .. } => {
                    let member = RawMember {
                        attrs: norm[i].attrs.clone(),
                        ident: ident.clone(),
                        ty: SyntaxVariant { norm: norm[i].ty.clone(), orig: orig[i].ty.clone() },
                    };
                    members.push(member);
                    assert(members.deep_view() =~= before.push(member.deep_view()));
                },
                Pat::Other(_) => {
                    proof {
                        lemma_raw_members_error_stays(all, written, i + 1);
                    }
                    return Err(Error::ArgumentPattern { pat: orig[i].pat.clone() });
                },
            }
        }
        proof {
            lemma_raw_members_surplus(all, written, n as int);
        }
        Ok(members)
    }

    /// The `self` argument of a method, with and without the keyword `Self` in its type.
    /// `normalize` puts the type that it is given first in place of `Self` in the second.
    pub fn assoc_method_receiver_ctx_params<F: FnOnce(&Type, &Type) -> Type>(
        &self,
        normalize: F,
    ) -> (res: Result<Option<AssocMethodReceiverCtxParams>, Error>)
        requires
            forall|self_ty: &Type, ty: &Type| call_requires(normalize, (self_ty, ty)),
        ensures
            match res {
                Ok(receiver) => self.receiver_ctx_made(normalize, receiver),
                Err(error) => self.deep_view().kept_receiver() == Err::<
                    Option<ReceiverView>,
                    ErrorView,
                >(error.deep_view()),
            },
    {
        let receiver = match self.kept_receiver() {
            Ok(Some(receiver)) => receiver,
            Ok(None) => return Ok(None),
            Err(error) => return Err(error),
        };
        match &self.impl_ctx {
            Some(impl_ctx) => {
                let without_self_keyword = normalize(&impl_ctx.self_ty, &receiver.ty);
                Ok(
                    Some(
                        AssocMethodReceiverCtxParams {
                            with_self_keyword: receiver.clone(),
                            without_self_keyword,
                        },
                    ),
                )
            },
            None => Ok(None),
        }
    }

    /// What the function needs to know of the impl block it stands in.
    pub fn assoc_method_ctx<F: FnOnce(&Type, &Type) -> Type>(&self, normalize: F) -> (res: Result<
        Option<AssocMethodCtxParams>,
        Error,
    >)
        requires
            forall|self_ty: &Type, ty: &Type| call_requires(normalize, (self_ty, ty)),
        ensures
            match res {
                Ok(assoc) => self.assoc_method_ctx_made(normalize, assoc)
                    && self.deep_view().receiver_error() is None,
                Err(error) => self.deep_view().receiver_error() == Some(error.deep_view()),
            },
    {
        let self_ty = match &self.impl_ctx {
            Some(impl_ctx) => impl_ctx.self_ty.clone(),
            None => return Ok(None),
        };
        match self.assoc_method_receiver_ctx_params(normalize) {
            Ok(receiver) => Ok(Some(AssocMethodCtxParams { self_ty, receiver })),
            Err(error) => Err(error),
        }
    }

    /// The call of the `adapted` function.
    fn finish_fn_body(&self, adapted: ItemFn, private_name: Ident) -> (body: FnCallBody)
        ensures
            body.deep_view() == self.deep_view().finish_fn_body(
                adapted.deep_view(),
                private_name.deep_view(),
            ),
    {
        let mut sig = adapted.sig;
        if self.config.start_fn.name.is_none() {
            sig.ident = private_name;
        }
        let impl_ctx = match &self.impl_ctx {
            Some(impl_ctx) => Some(impl_ctx.clone()),
            None => None,
        };
        FnCallBody { sig, impl_ctx }
    }

    /// Lint suppressions of the impl block, then those of the function.
    fn allow_attrs(&self) -> (attrs: Vec<Attribute>)
        ensures
            attrs.deep_view() == self.deep_view().allow_attrs(),
    {
        let inherited = match &self.impl_ctx {
            Some(impl_ctx) => impl_ctx.allow_attrs.clone(),
            None => {
                let none: Vec<Attribute> = Vec::new();
                assert(none.deep_view() =~= Seq::empty());
                none
            },
        };
        extend_allows(inherited, &self.fn_item.norm.attrs)
    }

    /// The description of the builder, for what is known of the impl block and for the members.
    pub fn builder_gen_ctx_params<M>(
        self,
        assoc_method_ctx: Option<AssocMethodCtxParams>,
        members: Vec<M>,
        private_name: Ident,
    ) -> (res: Result<BuilderGenCtxParams<'a, N, M>, Error>)
        ensures
            outcome(res) == self.deep_view().builder_gen_ctx_params(
                assoc_method_ctx.deep_view(),
                members@,
                private_name.deep_view(),
            ),
    {
        let generics = self.generics();
        let adapted = match self.adapted_fn() {
            Ok(adapted) => adapted,
            Err(error) => return Err(error),
        };
        let body = self.finish_fn_body(adapted, private_name);
        let special_attrs = match get_propagated_attrs(&self.fn_item.norm.attrs) {
            Ok(attrs) => attrs,
            Err(error) => return Err(error),
        };
        let allow_attrs = self.allow_attrs();
        let in_impl = self.impl_ctx.is_some();
        let item = self.fn_item.norm;
        let config = self.config;

        let finish_fn_docs = match config.finish_fn.docs {
            Some(docs) => docs,
            None => {
                let mut docs: Vec<Attribute> = Vec::new();
                docs.push(default_finish_fn_doc());
                assert(docs.deep_view() =~= seq![finish_fn_doc()]);
                docs
            },
        };
        let finish_fn = FinishFnParams {
            ident: finish_fn_ident(config.finish_fn.name, &item.sig.ident, in_impl),
            vis: config.finish_fn.vis,
            unsafety: item.sig.unsafety,
            asyncness: item.sig.asyncness,
            special_attrs,
            body,
            output: item.sig.output,
            attrs: finish_fn_docs,
        };
        let builder_type = BuilderTypeParams {
            ident: builder_type_ident(
                config.builder_type.name,
                &item.sig.ident,
                in_impl,
                self.self_ty_prefix,
            ),
            derives: config.derive,
            docs: config.builder_type.docs,
            vis: config.builder_type.vis,
        };
        Ok(
            BuilderGenCtxParams {
                bon: config.bon,
                namespace: self.namespace,
                members,
                allow_attrs,
                const_: config.const_,
                on: config.on,
                assoc_method_ctx,
                generics,
                orig_item_vis: item.vis,
                builder_type,
                state_mod: config.state_mod,
                start_fn: self.start_fn,
                finish_fn,
            },
        )
    }

    /// The description of the builder.
    ///
    /// `normalize` puts the type that it is given first in place of `Self` in the second,
    /// `privatize` makes the private name of a hidden function, and `from_raw` makes the members.
    pub fn into_builder_gen_ctx<M, F, P, R>(self, normalize: F, privatize: P, from_raw: R) -> (res:
        Result<BuilderGenCtxParams<'a, N, M>, Error>) where
        F: FnOnce(&Type, &Type) -> Type,
        P: FnOnce(&Ident) -> Ident,
        R: FnOnce(&TopLevelConfig, Vec<RawMember>) -> Result<Vec<M>, Error>,

        requires
            forall|self_ty: &Type, ty: &Type| call_requires(normalize, (self_ty, ty)),
            forall|name: &Ident| call_requires(privatize, (name,)),
            forall|config: &TopLevelConfig, raw: Vec<RawMember>|
                call_requires(from_raw, (config, raw)),
        ensures
            match (self.deep_view().receiver_error(), self.deep_view().raw_members()) {
                (Some(error), _) => outcome(res) == Err::<BuilderGenCtxParamsView<N, M>, ErrorView>(
                    error,
                ),
                (None, Err(error)) => outcome(res) == Err::<
                    BuilderGenCtxParamsView<N, M>,
                    ErrorView,
                >(error),
                (None, Ok(raw_members)) => exists|raw: Vec<RawMember>, made: Result<Vec<M>, Error>|
                    {
                        &&& raw.deep_view() == raw_members
                        &&& #[trigger] call_ensures(from_raw, (&self.config, raw), made)
                        &&& match made {
                            Err(error) => res == Err::<BuilderGenCtxParams<'a, N, M>, Error>(error),
                            Ok(members) => exists|
                                assoc: Option<AssocMethodCtxParams>,
                                private_name: Ident,
                            |
                                {
                                    &&& #[trigger] self.assoc_method_ctx_made(normalize, assoc)
                                    &&& #[trigger] self.private_name_made(privatize, private_name)
                                    &&& outcome(res) == self.deep_view().builder_gen_ctx_params(
                                        assoc.deep_view(),
                                        members@,
                                        private_name.deep_view(),
                                    )
                                },
                        }
                    },
            },
    {
        let assoc = match self.assoc_method_ctx(normalize) {
            Ok(assoc) => assoc,
            Err(error) => return Err(error),
        };
        let raw = match self.raw_members() {
            Ok(raw) => raw,
            Err(error) => return Err(error),
        };
        let made = from_raw(&self.config, raw);
        assert(call_ensures(from_raw, (&self.config, raw), made));
        let members = match made {
            Ok(members) => members,
            Err(error) => return Err(error),
        };
        let name = &self.fn_item.orig.sig.ident;
        let private_name = if self.config.start_fn.name.is_none() {
            privatize(name)
        } else {
            name.clone()
        };
        assert(self.assoc_method_ctx_made(normalize, assoc));
        assert(self.private_name_made(privatize, private_name));
        self.builder_gen_ctx_params(assoc, members, private_name)
    }
}

/// The default documentation of the function that finishes the building.
fn default_finish_fn_doc() -> (attr: Attribute)
    ensures
        attr.deep_view() == finish_fn_doc(),
{
    Attribute {
        style: AttrStyle::Outer,
        meta: Meta::NameValue {
            path: Path::from_ident("doc"),
            value: Expr::Str(
                " Finishes building and performs the requested action.".to_string(),
            ),
        },
    }
}

/// A complaint about some of the arguments is the complaint about all of them.
proof fn lemma_raw_members_error_stays(norm: Seq<TypedArgView>, orig: Seq<TypedArgView>, n: int)
    requires
        0 <= n <= norm.len(),
        raw_members(norm.take(n), orig) is Err,
    ensures
        raw_members(norm, orig) == raw_members(norm.take(n), orig),
    decreases norm.len() - n,
{
    if n < norm.len() {
        assert(norm.take(n + 1).drop_last() =~= norm.take(n));
        if orig.len() == 0 {
            assert(raw_members(norm.take(n), orig) is Ok);
        }
        lemma_raw_members_error_stays(norm, orig, n + 1);
    } else {
        assert(norm.take(n) =~= norm);
    }
}

/// Arguments without a counterpart become no members.
proof fn lemma_raw_members_surplus(norm: Seq<TypedArgView>, orig: Seq<TypedArgView>, n: int)
    requires
        0 <= n <= norm.len(),
        n == norm.len() || n >= orig.len(),
    ensures
        raw_members(norm, orig) == raw_members(norm.take(n), orig),
    decreases norm.len() - n,
{
    if n < norm.len() {
        assert(norm.take(n + 1).drop_last() =~= norm.take(n));
        lemma_raw_members_surplus(norm, orig, n + 1);
    } else {
        assert(norm.take(n) =~= norm);
    }
}

/// The first attribute called `name`.
fn first_named(attrs: &Vec<Attribute>, name: &str) -> (res: Option<Attribute>)
    ensures
        match res {
            Some(attr) => attrs.deep_view().filter(named(name@)).len() > 0 && attr.deep_view()
                == attrs.deep_view().filter(named(name@))[0],
            None => attrs.deep_view().filter(named(name@)).len() == 0,
        },
{
    let ghost all = attrs.deep_view();
    let ghost pred = named(name@);
    proof {
        reveal(Seq::filter);
        assert(all.take(0).filter(pred) =~= Seq::empty());
    }
    for i in 0..attrs.len()
        invariant
            all == attrs.deep_view(),
            pred == named(name@),
            all.take(i as int).filter(pred).len() == 0,
    {
        proof {
            all.take(i as int).lemma_filter_push(all[i as int], pred);
            assert(all.take(i + 1) =~= all.take(i as int).push(all[i as int]));
        }
        if attrs[i].is_named(name) {
            proof {
                let seen = all.take(i + 1);
                let rest = all.skip(i + 1);
                assert(all =~= seen + rest);
                Seq::filter_distributes_over_add(seen, rest, pred);
                assert(all.filter(pred)[0] == all[i as int]);
            }
            return Some(attrs[i].clone());
        }
    }
    assert(all.take(all.len() as int) =~= all);
    None
}

/// An argument that a pattern takes apart is the only thing that is wrong with arguments. Without
/// one there is a member for each argument that is there in both forms, in order.
pub proof fn law_raw_members(norm: Seq<TypedArgView>, orig: Seq<TypedArgView>)
    ensures
        raw_members(norm, orig) is Err <==> exists|i: int|
            0 <= i < norm.len() && i < orig.len() && (#[trigger] norm[i]).pat is Other,
        raw_members(norm, orig) matches Ok(members) ==> {
            &&& members.len() == (if norm.len() < orig.len() {
                norm.len()
            } else {
                orig.len()
            })
            &&& forall|i: int|
                0 <= i < members.len() ==> raw_member(norm[i], orig[i]) == Ok::<
                    RawMemberView,
                    ErrorView,
                >(#[trigger] members[i])
        },
    decreases norm.len(),
{
    if norm.len() > 0 && orig.len() > 0 {
        let rest = norm.drop_last();
        let last = norm.len() - 1;
        law_raw_members(rest, orig);
        if raw_members(rest, orig) is Err {
            let i = choose|i: int| 0 <= i < rest.len() && i < orig.len() && (#[trigger] rest[i]).pat is Other;
            assert(norm[i].pat is Other);
        } else {
            assert forall|i: int| 0 <= i < last && i < orig.len() implies !((
            #[trigger] norm[i]).pat is Other) by {
                assert(rest[i] == norm[i]);
            }
            if norm.len() <= orig.len() {
                assert(norm[last].pat is Other ==> raw_members(norm, orig) is Err);
            }
        }
    }
}

/// The first argument that a pattern takes apart decides on the complaint, which shows the pattern
/// as it was written.
pub proof fn law_raw_members_first_error(norm: Seq<TypedArgView>, orig: Seq<TypedArgView>, i: int)
    requires
        0 <= i < norm.len(),
        i < orig.len(),
        norm[i].pat is Other,
        forall|k: int| 0 <= k < i ==> !((#[trigger] norm[k]).pat is Other),
    ensures
        raw_members(norm, orig) == Err::<Seq<RawMemberView>, ErrorView>(
            ErrorView::ArgumentPattern { pat: orig[i].pat },
        ),
{
    law_raw_members(norm.take(i), orig);
    assert(norm.take(i + 1).drop_last() =~= norm.take(i));
    assert forall|k: int| 0 <= k < i implies !((#[trigger] norm.take(i)[k]).pat is Other) by {
        assert(norm.take(i)[k] == norm[k]);
    }
    lemma_raw_members_error_stays(norm, orig, i + 1);
}

/// If the impl block only hands on `allow` attributes, so does the builder.
pub proof fn law_allow_attrs<N>(ctx: FnInputCtxView<N>)
    requires
        ctx.impl_ctx matches Some(impl_ctx) ==> forall|i: int|
            0 <= i < impl_ctx.allow_attrs.len() ==> (#[trigger] impl_ctx.allow_attrs[i]).is_named(
                "allow"@,
            ),
    ensures
        forall|i: int|
            0 <= i < ctx.allow_attrs().len() ==> (#[trigger] ctx.allow_attrs()[i]).is_named(
                "allow"@,
            ),
{
    law_allows_of(ctx.fn_item.norm.attrs);
    let own = allows_of(ctx.fn_item.norm.attrs);
    assert forall|i: int| 0 <= i < ctx.allow_attrs().len() implies (
    #[trigger] ctx.allow_attrs()[i]).is_named("allow"@) by {
        let n = ctx.allow_attrs().len() - own.len();
        if i >= n {
            assert(ctx.allow_attrs()[i] == own[i - n]);
        }
    }
}

/// Lifetimes come first among the generics of the builder, as they do among those of the function.
pub proof fn law_generics_lifetimes_first<N>(ctx: FnInputCtxView<N>)
    requires
        ctx.impl_ctx is None ==> lifetimes_first(ctx.fn_item.norm.sig.generics.params),
    ensures
        lifetimes_first(ctx.generics().params),
{
    if let Some(impl_ctx) = ctx.impl_ctx {
        law_merged_lifetimes_first(
            impl_ctx.generics.params,
            ctx.fn_item.norm.sig.generics.params,
        );
    }
}

/// Documentation is never shown twice: unless the user asks for other documentation, the starting
/// function has the doc comments of the function, which loses them unless it stays exposed.
pub proof fn law_docs_move<N>(params: FnInputCtxParamsView<N>)
    requires
        params.config.start_fn.docs is None,
        params.config.start_fn.name is None,
    ensures
        params.settled().start_fn.docs == params.fn_item.norm.attrs.filter(doc()),
        params.settled().adapted_fn() matches Ok(adapted) && adapted.attrs.filter(doc()) == Seq::<
            AttributeView,
        >::empty() && adapted.vis is Inherited,
{
    law_adapted_docs(params.fn_item.orig, false, params.config.bon);
}

/// Where the user chooses a name for the starting function, the function stays as visible and as
/// documented as it was; the name may not be its own.
pub proof fn law_chosen_name_exposes<N>(params: FnInputCtxParamsView<N>, name: IdentView)
    requires
        params.config.start_fn.name == Some(name),
    ensures
        params.settled().start_fn.ident == name,
        name.text == params.fn_item.orig.sig.ident.text <==> params.settled().adapted_fn() is Err,
        params.settled().adapted_fn() matches Ok(adapted) ==> adapted.vis
            == params.fn_item.orig.vis && adapted.attrs.filter(doc())
            == params.fn_item.orig.attrs.filter(doc()),
{
    law_adapted_docs(params.fn_item.orig, true, params.config.bon);
}

/// With its members made, a builder fails only for the name of the starting function or for the
/// attributes that are passed on.
pub proof fn law_builder_succeeds<N, M>(
    ctx: FnInputCtxView<N>,
    assoc: Option<AssocMethodCtxParamsView>,
    members: Seq<M>,
    private_name: IdentView,
)
    ensures
        ctx.builder_gen_ctx_params(assoc, members, private_name) is Ok <==> ctx.adapted_fn() is Ok
            && propagated_attrs(ctx.fn_item.norm.attrs) is Ok,
{
}

/// What finishes the building calls the function that was left standing: with its generics, and by
/// its name or, where it is hidden, by its private name.
pub proof fn law_finish_calls_adapted<N, M>(
    ctx: FnInputCtxView<N>,
    assoc: Option<AssocMethodCtxParamsView>,
    members: Seq<M>,
    private_name: IdentView,
)
    ensures
        ctx.builder_gen_ctx_params(assoc, members, private_name) matches Ok(builder) ==> {
            let adapted = ctx.adapted_fn()->Ok_0;
            let called = builder.finish_fn.body.sig;
            &&& called.generics == adapted.sig.generics
            &&& called.inputs == adapted.sig.inputs
            &&& called.asyncness == adapted.sig.asyncness
            &&& ctx.config.start_fn.name is Some ==> called.ident == adapted.sig.ident
            &&& ctx.config.start_fn.name is None ==> called.ident == private_name
        },
{
}

/// The member that is made of an argument has the name that the argument is bound by, all attributes
/// of the normalized argument, in order, and the type of the argument in both forms. A `builder`
/// attribute or a doc comment of an argument is never lost.
pub proof fn law_members_keep_arguments<N>(ctx: FnInputCtxView<N>, i: int)
    requires
        ctx.raw_members() is Ok,
        0 <= i < ctx.fn_item.norm.sig.typed_args().len(),
        i < ctx.fn_item.orig.sig.typed_args().len(),
    ensures
        ({
            let norm = ctx.fn_item.norm.sig.typed_args()[i];
            let orig = ctx.fn_item.orig.sig.typed_args()[i];
            let members = ctx.raw_members()->Ok_0;
            &&& i < members.len()
            &&& members[i].attrs == norm.attrs
            &&& norm.pat matches PatView::Ident { ident, .. } && members[i].ident == ident
            &&& members[i].ty.norm == norm.ty
            &&& members[i].ty.orig == orig.ty
            &&& forall|k: int|
                0 <= k < norm.attrs.len() ==> members[i].attrs.contains(#[trigger] norm.attrs[k])
        }),
{
    law_raw_members(ctx.fn_item.norm.sig.typed_args(), ctx.fn_item.orig.sig.typed_args());
    let norm = ctx.fn_item.norm.sig.typed_args()[i];
    let members = ctx.raw_members()->Ok_0;
    assert(raw_member(norm, ctx.fn_item.orig.sig.typed_args()[i]) == Ok::<RawMemberView, ErrorView>(
        members[i],
    ));
}

/// There are as many members as arguments, where both forms of the function have as many, and no
/// member is made of anything else.
pub proof fn law_one_member_per_argument<N>(ctx: FnInputCtxView<N>)
    requires
        ctx.fn_item.norm.sig.typed_args().len() == ctx.fn_item.orig.sig.typed_args().len(),
    ensures
        ctx.raw_members() matches Ok(members) ==> members.len()
            == ctx.fn_item.norm.sig.typed_args().len(),
        ctx.raw_members() is Err <==> exists|i: int|
            0 <= i < ctx.fn_item.norm.sig.typed_args().len() && (
            #[trigger] ctx.fn_item.norm.sig.typed_args()[i]).pat is Other,
{
    law_raw_members(ctx.fn_item.norm.sig.typed_args(), ctx.fn_item.orig.sig.typed_args());
}

/// Arguments that have a counterpart become members; what only one form of the function has does
/// not. The first argument that a pattern takes apart is complained about, with the pattern as it
/// was written.
pub proof fn law_first_pattern_is_refused<N>(ctx: FnInputCtxView<N>, i: int)
    requires
        0 <= i < ctx.fn_item.norm.sig.typed_args().len(),
        i < ctx.fn_item.orig.sig.typed_args().len(),
        ctx.fn_item.norm.sig.typed_args()[i].pat is Other,
        forall|k: int|
            0 <= k < i ==> (#[trigger] ctx.fn_item.norm.sig.typed_args()[k]).pat is Ident,
    ensures
        ctx.raw_members() == Err::<Seq<RawMemberView>, ErrorView>(
            ErrorView::ArgumentPattern { pat: ctx.fn_item.orig.sig.typed_args()[i].pat },
        ),
{
    law_raw_members_first_error(
        ctx.fn_item.norm.sig.typed_args(),
        ctx.fn_item.orig.sig.typed_args(),
        i,
    );
}

/// In an impl block the receiver of a method is kept as it is, whatever its type, unless it carries
/// a `builder` attribute, the first of which is then complained about. Without a receiver, or
/// outside of an impl block, none is kept.
pub proof fn law_receiver_is_kept<N>(ctx: FnInputCtxView<N>)
    ensures
        ctx.fn_item.norm.sig.receiver() is None ==> ctx.kept_receiver() == Ok::<
            Option<ReceiverView>,
            ErrorView,
        >(None),
        ctx.fn_item.norm.sig.receiver() matches Some(receiver) ==> {
            &&& (forall|i: int|
                0 <= i < receiver.attrs.len() ==> !(#[trigger] receiver.attrs[i]).is_named(
                    "builder"@,
                )) ==> ctx.kept_receiver() == Ok::<Option<ReceiverView>, ErrorView>(
                if ctx.impl_ctx is Some {
                    Some(receiver)
                } else {
                    None
                },
            )
            &&& forall|i: int|
                #![trigger receiver.attrs[i]]
                0 <= i < receiver.attrs.len() && receiver.attrs[i].is_named("builder"@) && (forall|
                    k: int,
                |
                    0 <= k < i ==> !(#[trigger] receiver.attrs[k]).is_named("builder"@))
                    ==> ctx.kept_receiver() == Err::<Option<ReceiverView>, ErrorView>(
                    ErrorView::BuilderAttrOnReceiver { attr: receiver.attrs[i] },
                )
        },
{
    if let Some(receiver) = ctx.fn_item.norm.sig.receiver() {
        let attrs = receiver.attrs;
        let pred = named("builder"@);
        if forall|i: int| 0 <= i < attrs.len() ==> !(#[trigger] attrs[i]).is_named("builder"@) {
            assert forall|i: int| 0 <= i < attrs.len() implies !pred(#[trigger] attrs[i]) by {}
            lemma_filter_none(attrs, pred);
        }
        assert forall|i: int|
            #![trigger attrs[i]]
            0 <= i < attrs.len() && attrs[i].is_named("builder"@) && (forall|k: int|
                0 <= k < i ==> !(#[trigger] attrs[k]).is_named("builder"@)) implies attrs.filter(
            pred,
        ).len() > 0 && attrs.filter(pred)[0] == attrs[i] by {
            let before = attrs.take(i);
            assert forall|k: int| 0 <= k < before.len() implies !pred(#[trigger] before[k]) by {
                assert(before[k] == attrs[k]);
            }
            lemma_filter_none(before, pred);
            lemma_filter_next(attrs, pred, i);
        }
    }
}

/// What is wrong with the receiver stops a method of an impl block, and nothing else does here.
pub proof fn law_receiver_error<N>(ctx: FnInputCtxView<N>)
    ensures
        ctx.impl_ctx is None ==> ctx.receiver_error() is None,
        ctx.impl_ctx is Some ==> (ctx.kept_receiver() matches Err(error) ==> ctx.receiver_error()
            == Some(error)),
        ctx.kept_receiver() is Ok ==> ctx.receiver_error() is None,
{
}

/// In an impl block the builder has the parameters of the impl block and of the function, lifetimes
/// before the others and the impl block before the function, and the conditions of the function and
/// then those of the impl block. No condition is lost, also where only one of the two has any.
pub proof fn law_generics_in_impl_block<N>(ctx: FnInputCtxView<N>, impl_ctx: ImplCtxView)
    requires
        ctx.impl_ctx == Some(impl_ctx),
    ensures
        ({
            let own = ctx.fn_item.norm.sig.generics;
            let outer = impl_ctx.generics;
            let lifetime = |param: GenericParamView| param is Lifetime;
            let other = |param: GenericParamView| !(param is Lifetime);
            let conditions = |clause: Option<Seq<TokensView>>|
                match clause {
                    Some(conditions) => conditions,
                    None => Seq::empty(),
                };
            &&& ctx.generics().params == outer.params.filter(lifetime) + own.params.filter(lifetime)
                + outer.params.filter(other) + own.params.filter(other)
            &&& conditions(ctx.generics().where_clause) == conditions(own.where_clause)
                + conditions(outer.where_clause)
            &&& ctx.generics().where_clause is None <==> own.where_clause is None
                && outer.where_clause is None
            &&& outer.where_clause matches Some(bounds) ==> forall|i: int|
                0 <= i < bounds.len() ==> ctx.generics().where_clause->0.contains(
                    #[trigger] bounds[i],
                )
        }),
{
    let own = ctx.fn_item.norm.sig.generics;
    let outer = impl_ctx.generics;
    law_merged_parts(outer.params, own.params);
    law_joined_conditions(own.where_clause, outer.where_clause);
    if let Some(bounds) = outer.where_clause {
        let first = match own.where_clause {
            Some(conditions) => conditions,
            None => Seq::empty(),
        };
        let all = ctx.generics().where_clause->0;
        assert(all == first + bounds);
        assert forall|i: int| 0 <= i < bounds.len() implies all.contains(#[trigger] bounds[i]) by {
            assert(all[first.len() + i] == bounds[i]);
        }
    }
}

/// Outside of an impl block the builder has the generics of the function.
pub proof fn law_generics_of_free_function<N>(ctx: FnInputCtxView<N>)
    requires
        ctx.impl_ctx is None,
    ensures
        ctx.generics().params == ctx.fn_item.norm.sig.generics.params,
        ctx.generics().where_clause == ctx.fn_item.norm.sig.generics.where_clause,
{
}

/// The function that is left standing is made of the form that was written, exposed exactly where a
/// name was chosen for the starting function, which is refused if it is the function's own.
pub proof fn law_adapted_fn<N>(ctx: FnInputCtxView<N>)
    ensures
        ctx.config.start_fn.name is None ==> ctx.adapted_fn() == Ok::<ItemFnView, ErrorView>(
            adapted_item(ctx.fn_item.orig, false, ctx.config.bon),
        ),
        ctx.config.start_fn.name matches Some(name) ==> {
            &&& name.text == ctx.fn_item.orig.sig.ident.text ==> ctx.adapted_fn() == Err::<
                ItemFnView,
                ErrorView,
            >(ErrorView::StartFnName { name })
            &&& name.text != ctx.fn_item.orig.sig.ident.text ==> ctx.adapted_fn() == Ok::<
                ItemFnView,
                ErrorView,
            >(adapted_item(ctx.fn_item.orig, true, ctx.config.bon))
        },
{
}

/// Settling the starting function changes nothing of what was known, and takes the starting
/// function from what was chosen and from the normalized function alone.
pub proof fn law_settled<N>(params: FnInputCtxParamsView<N>)
    ensures
        params.settled().namespace == params.namespace,
        params.settled().fn_item == params.fn_item,
        params.settled().impl_ctx == params.impl_ctx,
        params.settled().config == params.config,
        params.settled().start_fn.ident == start_fn_name(
            params.config.start_fn.name,
            params.fn_item.norm.sig.ident,
            params.impl_ctx is Some,
        ),
        params.settled().start_fn.vis == params.config.start_fn.vis,
        params.config.start_fn.docs matches Some(docs) ==> params.settled().start_fn.docs == docs,
        params.config.start_fn.docs is None ==> params.settled().start_fn.docs
            == params.fn_item.norm.attrs.filter(
            |attr: AttributeView| attr.meta is NameValue && attr.is_named("doc"@),
        ),
        params.settled().start_fn.generics == Some(params.fn_item.norm.sig.generics),
        params.impl_ctx matches Some(impl_ctx) ==> params.settled().self_ty_prefix
            == impl_ctx.self_ty.last_name(),
        params.impl_ctx is None ==> params.settled().self_ty_prefix is None,
{
    let pred = |attr: AttributeView| attr.meta is NameValue && attr.is_named("doc"@);
    assert forall|attr: AttributeView| #[trigger] doc()(attr) == pred(attr) by {
        law_doc(attr);
    }
    lemma_filter_same(params.fn_item.norm.attrs, doc(), pred);
}

/// All generated items inherit the lint suppressions of the impl block, and behind them those of
/// the normalized function.
pub proof fn law_inherited_allows<N>(ctx: FnInputCtxView<N>)
    ensures
        ctx.impl_ctx matches Some(impl_ctx) ==> ctx.allow_attrs() == impl_ctx.allow_attrs
            + allows_of(ctx.fn_item.norm.attrs),
        ctx.impl_ctx is None ==> ctx.allow_attrs() == allows_of(ctx.fn_item.norm.attrs),
{
    lemma_concat_empty(allows_of(ctx.fn_item.norm.attrs), Seq::empty());
}

/// What a builder takes over as it is: from the configuration, from the members and the impl block
/// that it is given, and from the settled starting function.
pub proof fn law_builder_takes_over<N, M>(
    ctx: FnInputCtxView<N>,
    assoc: Option<AssocMethodCtxParamsView>,
    members: Seq<M>,
    private_name: IdentView,
)
    ensures
        ctx.builder_gen_ctx_params(assoc, members, private_name) matches Ok(builder) ==> {
            &&& builder.bon == ctx.config.bon
            &&& builder.namespace == ctx.namespace
            &&& builder.members == members
            &&& builder.const_ == ctx.config.const_
            &&& builder.on == ctx.config.on
            &&& builder.assoc_method_ctx == assoc
            &&& builder.orig_item_vis == ctx.fn_item.norm.vis
            &&& builder.state_mod == ctx.config.state_mod
            &&& builder.start_fn == ctx.start_fn
            &&& builder.builder_type.derives == ctx.config.derive
            &&& builder.builder_type.docs == ctx.config.builder_type.docs
            &&& builder.builder_type.vis == ctx.config.builder_type.vis
            &&& builder.builder_type.ident == builder_type_name(
                ctx.config.builder_type.name,
                ctx.fn_item.norm.sig.ident,
                ctx.impl_ctx is Some,
                ctx.self_ty_prefix,
            )
            &&& builder.generics == ctx.generics()
            &&& builder.allow_attrs == ctx.allow_attrs()
        },
{
}

/// The finishing function has the return type of the normalized function, in which `Self` means the
/// same as in the function, and is asynchronous and unsafe exactly if the normalized function is.
/// It calls the function that is left standing, through the same impl block.
pub proof fn law_finishing_function<N, M>(
    ctx: FnInputCtxView<N>,
    assoc: Option<AssocMethodCtxParamsView>,
    members: Seq<M>,
    private_name: IdentView,
)
    ensures
        ctx.builder_gen_ctx_params(assoc, members, private_name) matches Ok(builder) ==> {
            let finish = builder.finish_fn;
            let exposed = ctx.config.start_fn.name is Some;
            let adapted = adapted_item(ctx.fn_item.orig, exposed, ctx.config.bon);
            &&& finish.output == ctx.fn_item.norm.sig.output
            &&& finish.unsafety == ctx.fn_item.norm.sig.unsafety
            &&& finish.asyncness == ctx.fn_item.norm.sig.asyncness
            &&& finish.vis == ctx.config.finish_fn.vis
            &&& finish.ident == finish_fn_name(
                ctx.config.finish_fn.name,
                ctx.fn_item.norm.sig.ident,
                ctx.impl_ctx is Some,
            )
            &&& propagated_attrs(ctx.fn_item.norm.attrs) == Ok::<Seq<AttributeView>, ErrorView>(
                finish.special_attrs,
            )
            &&& ctx.config.finish_fn.docs matches Some(docs) ==> finish.attrs == docs
            &&& ctx.config.finish_fn.docs is None ==> finish.attrs == seq![
                AttributeView {
                    style: AttrStyle::Outer,
                    meta: MetaView::NameValue {
                        path: ident_path("doc"@),
                        value: ExprView::Str(
                            " Finishes building and performs the requested action."@,
                        ),
                    },
                },
            ]
            &&& finish.body.impl_ctx == ctx.impl_ctx
            &&& exposed ==> finish.body.sig == adapted.sig
            &&& !exposed ==> finish.body.sig == (SignatureView {
                ident: private_name,
                ..adapted.sig
            })
        },
{
}

/// How the function was written, before it was normalized, only matters to the function that is
/// left standing and to its call: all else of two builders that differ in nothing but that is the
/// same.
pub proof fn law_written_form_does_not_matter<N, M>(
    ctx: FnInputCtxView<N>,
    orig: ItemFnView,
    assoc: Option<AssocMethodCtxParamsView>,
    members: Seq<M>,
    private_name: IdentView,
)
    ensures
        ({
            let other = FnInputCtxView {
                fn_item: SyntaxVariant { norm: ctx.fn_item.norm, orig },
                ..ctx
            };
            let first = ctx.builder_gen_ctx_params(assoc, members, private_name);
            let second = other.builder_gen_ctx_params(assoc, members, private_name);
            first is Ok && second is Ok ==> second->Ok_0 == (BuilderGenCtxParamsView {
                finish_fn: FinishFnParamsView {
                    body: second->Ok_0.finish_fn.body,
                    ..first->Ok_0.finish_fn
                },
                ..first->Ok_0
            })
        }),
{
}

/// The complaint about the name of the starting function comes before those about the attributes
/// that are passed on.
pub proof fn law_builder_errors<N, M>(
    ctx: FnInputCtxView<N>,
    assoc: Option<AssocMethodCtxParamsView>,
    members: Seq<M>,
    private_name: IdentView,
)
    ensures
        ctx.adapted_fn() matches Err(error) ==> ctx.builder_gen_ctx_params(
            assoc,
            members,
            private_name,
        ) == Err::<BuilderGenCtxParamsView<N, M>, ErrorView>(error),
        ctx.adapted_fn() is Ok ==> (propagated_attrs(ctx.fn_item.norm.attrs) matches Err(error)
            ==> ctx.builder_gen_ctx_params(assoc, members, private_name) == Err::<
            BuilderGenCtxParamsView<N, M>,
            ErrorView,
        >(error)),
{
}

/// The receiver that a builder is told of is the one that is kept, together with what `normalize`
/// makes of its type, given the `Self` type of the impl block. A kept receiver is never left out.
pub proof fn law_receiver_ctx<'a, N, F: FnOnce(&Type, &Type) -> Type>(
    ctx: FnInputCtx<'a, N>,
    normalize: F,
    receiver: AssocMethodReceiverCtxParams,
)
    ensures
        ctx.receiver_ctx_made(normalize, None) <==> (ctx.deep_view().kept_receiver() matches Ok(
            kept,
        ) && kept is None),
        ctx.receiver_ctx_made(normalize, Some(receiver)) <==> (ctx.deep_view().kept_receiver()
            matches Ok(kept) && kept == Some(receiver.with_self_keyword.deep_view())
            && call_ensures(
            normalize,
            (&ctx.impl_ctx->0.self_ty, &ctx.fn_item.norm.sig.inputs@[0]->Receiver_0.ty),
            receiver.without_self_keyword,
        )),
{
}

/// A function of an impl block is told of the `Self` type and of its receiver; a free function is
/// told of neither.
pub proof fn law_assoc_method_ctx<'a, N, F: FnOnce(&Type, &Type) -> Type>(
    ctx: FnInputCtx<'a, N>,
    normalize: F,
    assoc: AssocMethodCtxParams,
)
    ensures
        ctx.assoc_method_ctx_made(normalize, None) <==> ctx.impl_ctx is None,
        ctx.assoc_method_ctx_made(normalize, Some(assoc)) <==> (ctx.impl_ctx matches Some(impl_ctx)
            && assoc.self_ty.deep_view() == impl_ctx.self_ty.deep_view() && ctx.receiver_ctx_made(
            normalize,
            assoc.receiver,
        )),
{
}

/// A hidden function is called by what `privatize` makes of its name, an exposed one by its name.
pub proof fn law_private_name<'a, N, P: FnOnce(&Ident) -> Ident>(
    ctx: FnInputCtx<'a, N>,
    privatize: P,
    name: Ident,
)
    ensures
        ctx.config.start_fn.name is None ==> (ctx.private_name_made(privatize, name)
            <==> call_ensures(privatize, (&ctx.fn_item.orig.sig.ident,), name)),
        ctx.config.start_fn.name is Some ==> (ctx.private_name_made(privatize, name)
            <==> name.deep_view() == ctx.fn_item.orig.sig.ident.deep_view()),
{
}

/// What is known of a function, before and after its starting function is settled, stands for all
/// of its parts.
pub proof fn law_input_views<'a, N>(
    impl_ctx: ImplCtx,
    params: FnInputCtxParams<'a, N>,
    ctx: FnInputCtx<'a, N>,
)
    ensures
        impl_ctx.deep_view().self_ty == impl_ctx.self_ty.deep_view(),
        impl_ctx.deep_view().generics == impl_ctx.generics.deep_view(),
        impl_ctx.deep_view().allow_attrs == impl_ctx.allow_attrs.deep_view(),
        params.deep_view().namespace == *params.namespace,
        params.deep_view().fn_item == params.fn_item.deep_view(),
        params.deep_view().impl_ctx == params.impl_ctx.deep_view(),
        params.deep_view().config == params.config.deep_view(),
        ctx.deep_view().namespace == *ctx.namespace,
        ctx.deep_view().fn_item == ctx.fn_item.deep_view(),
        ctx.deep_view().impl_ctx == ctx.impl_ctx.deep_view(),
        ctx.deep_view().config == ctx.config.deep_view(),
        ctx.deep_view().start_fn == ctx.start_fn.deep_view(),
        ctx.deep_view().self_ty_prefix == ctx.self_ty_prefix.deep_view(),
{
}

/// In an impl block a `self` argument without `builder` attributes is returned as it stands in the
/// function, whatever its type.
pub proof fn law_returned_receiver<'a, N>(
    ctx: FnInputCtx<'a, N>,
    receiver: Receiver,
    res: Result<Option<&Receiver>, Error>,
)
    requires
        call_ensures(FnInputCtx::<'a, N>::kept_receiver, (&ctx,), res),
        ctx.impl_ctx is Some,
        ctx.fn_item.norm.sig.inputs@.len() > 0,
        ctx.fn_item.norm.sig.inputs@[0] == FnArg::Receiver(receiver),
        forall|i: int|
            0 <= i < receiver.attrs@.len() ==> !(
            #[trigger] receiver.attrs@[i].deep_view()).is_named("builder"@),
    ensures
        res matches Ok(Some(returned)) && *returned == receiver,
{
    law_receiver_is_kept(ctx.deep_view());
    assert(ctx.deep_view().fn_item.norm.sig.inputs[0] == FnArgView::Receiver(receiver.deep_view()));
    assert forall|i: int| 0 <= i < receiver.deep_view().attrs.len() implies !(
    #[trigger] receiver.deep_view().attrs[i]).is_named("builder"@) by {
        assert(receiver.deep_view().attrs[i] == receiver.attrs@[i].deep_view());
    }
}

/// The returned generics of a function in an impl block hold every condition of the function and
/// every condition of the impl block, and as many parameters as both together.
pub proof fn law_returned_generics<'a, N>(
    ctx: FnInputCtx<'a, N>,
    impl_ctx: Rc<ImplCtx>,
    generics: Generics,
)
    requires
        call_ensures(FnInputCtx::<'a, N>::generics, (&ctx,), generics),
        ctx.impl_ctx == Some(impl_ctx),
    ensures
        ctx.fn_item.norm.sig.generics.where_clause matches Some(own) ==> (
        generics.where_clause matches Some(all) && own.deep_view().is_prefix_of(all.deep_view())),
        impl_ctx.generics.where_clause matches Some(outer) ==> (generics.where_clause matches Some(
            all,
        ) && outer.deep_view().is_suffix_of(all.deep_view())),
        generics.params@.len() == generic_params(impl_ctx.generics.params).len() + generic_params(
            ctx.fn_item.norm.sig.generics.params,
        ).len(),
        generics.params.deep_view().to_multiset()
            == impl_ctx.generics.deep_view().params.to_multiset().add(
            ctx.fn_item.norm.sig.generics.deep_view().params.to_multiset(),
        ),
{
    let view = ctx.deep_view();
    let outer = impl_ctx.generics.deep_view();
    let own = ctx.fn_item.norm.sig.generics.deep_view();
    law_generics_in_impl_block(view, impl_ctx.deep_view());
    law_merged_keeps_params(outer.params, own.params);
    let all = generics.deep_view();
    outer.params.to_multiset_ensures();
    own.params.to_multiset_ensures();
    all.params.to_multiset_ensures();
    assert(all.params.to_multiset().len() == outer.params.to_multiset().len()
        + own.params.to_multiset().len());
    if let Some(conditions) = own.where_clause {
        assert(conditions =~= all.where_clause->0.subrange(0, conditions.len() as int));
    }
    if let Some(conditions) = outer.where_clause {
        let n = all.where_clause->0.len();
        assert(conditions =~= all.where_clause->0.subrange(n - conditions.len(), n as int));
    }
}

/// The returned members have the names, all the attributes and both types of the arguments, one for
/// one.
pub proof fn law_returned_members<'a, N>(ctx: FnInputCtx<'a, N>, members: Vec<RawMember>, i: int)
    requires
        call_ensures(FnInputCtx::<'a, N>::raw_members, (&ctx,), Ok(members)),
        0 <= i < ctx.deep_view().fn_item.norm.sig.typed_args().len(),
        i < ctx.deep_view().fn_item.orig.sig.typed_args().len(),
    ensures
        ({
            let norm = ctx.deep_view().fn_item.norm.sig.typed_args()[i];
            let orig = ctx.deep_view().fn_item.orig.sig.typed_args()[i];
            &&& i < members@.len()
            &&& members@[i].attrs.deep_view() == norm.attrs
            &&& norm.pat matches PatView::Ident { ident, .. } && members@[i].ident.deep_view()
                == ident
            &&& members@[i].ty.norm.deep_view() == norm.ty
            &&& members@[i].ty.orig.deep_view() == orig.ty
        }),
{
    law_members_keep_arguments(ctx.deep_view(), i);
    assert(members.deep_view()[i] == members@[i].deep_view());
}

/// The returned description of a builder finishes with what the normalized function returns, is
/// asynchronous and unsafe where that is, and takes over the settled starting function and what was
/// configured.
pub proof fn law_returned_builder<'a, N, M>(
    ctx: FnInputCtx<'a, N>,
    assoc: Option<AssocMethodCtxParams>,
    members: Vec<M>,
    private_name: Ident,
    builder: BuilderGenCtxParams<'a, N, M>,
)
    requires
        call_ensures(
            FnInputCtx::<'a, N>::builder_gen_ctx_params::<M>,
            (ctx, assoc, members, private_name),
            Ok(builder),
        ),
    ensures
        builder.finish_fn.output.deep_view() == ctx.fn_item.norm.sig.output.deep_view(),
        builder.finish_fn.asyncness == ctx.fn_item.norm.sig.asyncness,
        builder.finish_fn.unsafety == ctx.fn_item.norm.sig.unsafety,
        builder.finish_fn.body.sig.output.deep_view() == ctx.fn_item.orig.sig.output.deep_view(),
        builder.orig_item_vis.deep_view() == ctx.fn_item.norm.vis.deep_view(),
        builder.members@ == members@,
        builder.assoc_method_ctx.deep_view() == assoc.deep_view(),
        builder.start_fn.deep_view() == ctx.start_fn.deep_view(),
        builder.bon.deep_view() == ctx.config.bon.deep_view(),
        builder.state_mod.deep_view() == ctx.config.state_mod.deep_view(),
        builder.const_.deep_view() == ctx.config.const_.deep_view(),
        builder.on.deep_view() == ctx.config.on.deep_view(),
        *builder.namespace == *ctx.namespace,
{
    law_builder_takes_over(
        ctx.deep_view(),
        assoc.deep_view(),
        members@,
        private_name.deep_view(),
    );
    law_finishing_function(
        ctx.deep_view(),
        assoc.deep_view(),
        members@,
        private_name.deep_view(),
    );
}

/// Two functions that differ only in how their return types were written get the same members and
/// the same finishing functions, but for the call that the finishing function makes.
pub proof fn law_written_output_does_not_matter<'a, N, M>(
    ctx: FnInputCtx<'a, N>,
    other: FnInputCtx<'a, N>,
    assoc: Option<AssocMethodCtxParams>,
    members: Vec<M>,
    private_name: Ident,
    first: BuilderGenCtxParams<'a, N, M>,
    second: BuilderGenCtxParams<'a, N, M>,
)
    requires
        other.deep_view() == (FnInputCtxView {
            fn_item: SyntaxVariant {
                norm: ctx.deep_view().fn_item.norm,
                orig: ItemFnView {
                    sig: SignatureView {
                        output: other.deep_view().fn_item.orig.sig.output,
                        ..ctx.deep_view().fn_item.orig.sig
                    },
                    ..ctx.deep_view().fn_item.orig
                },
            },
            ..ctx.deep_view()
        }),
        call_ensures(
            FnInputCtx::<'a, N>::builder_gen_ctx_params::<M>,
            (ctx, assoc, members, private_name),
            Ok(first),
        ),
        call_ensures(
            FnInputCtx::<'a, N>::builder_gen_ctx_params::<M>,
            (other, assoc, members, private_name),
            Ok(second),
        ),
    ensures
        second.finish_fn.output.deep_view() == first.finish_fn.output.deep_view(),
        second.finish_fn.ident.deep_view() == first.finish_fn.ident.deep_view(),
        second.finish_fn.attrs.deep_view() == first.finish_fn.attrs.deep_view(),
        second.finish_fn.special_attrs.deep_view() == first.finish_fn.special_attrs.deep_view(),
        second.generics.deep_view() == first.generics.deep_view(),
        other.deep_view().raw_members() == ctx.deep_view().raw_members(),
{
    law_written_form_does_not_matter(
        ctx.deep_view(),
        other.deep_view().fn_item.orig,
        assoc.deep_view(),
        members@,
        private_name.deep_view(),
    );
}

/// A builder is only described where neither the receiver nor an argument is complained about. Its
/// members are what `from_raw` makes of the arguments, and it finishes with what the normalized
/// function returns.
pub proof fn law_described_builder<'a, N, M, F, P, R>(
    ctx: FnInputCtx<'a, N>,
    normalize: F,
    privatize: P,
    from_raw: R,
    builder: BuilderGenCtxParams<'a, N, M>,
) where
    F: FnOnce(&Type, &Type) -> Type,
    P: FnOnce(&Ident) -> Ident,
    R: FnOnce(&TopLevelConfig, Vec<RawMember>) -> Result<Vec<M>, Error>,

    requires
        call_ensures(
            FnInputCtx::<'a, N>::into_builder_gen_ctx::<M, F, P, R>,
            (ctx, normalize, privatize, from_raw),
            Ok(builder),
        ),
    ensures
        ctx.impl_ctx is Some ==> ctx.deep_view().kept_receiver() is Ok,
        exists|raw: Vec<RawMember>, members: Vec<M>|
            {
                &&& ctx.deep_view().raw_members() == Ok::<Seq<RawMemberView>, ErrorView>(
                    raw.deep_view(),
                )
                &&& #[trigger] call_ensures(from_raw, (&ctx.config, raw), Ok(members))
                &&& builder.members@ == members@
            },
        ctx.impl_ctx is None <==> builder.assoc_method_ctx is None,
        ctx.impl_ctx matches Some(impl_ctx) ==> (builder.assoc_method_ctx matches Some(assoc)
            && assoc.self_ty.deep_view() == impl_ctx.self_ty.deep_view()),
        builder.finish_fn.output.deep_view() == ctx.fn_item.norm.sig.output.deep_view(),
        ctx.config.start_fn.name is Some ==> builder.finish_fn.body.sig.ident.deep_view()
            == ctx.fn_item.orig.sig.ident.deep_view(),
        ctx.config.start_fn.name is None ==> exists|name: Ident|
            {
                &&& #[trigger] call_ensures(privatize, (&ctx.fn_item.orig.sig.ident,), name)
                &&& builder.finish_fn.body.sig.ident.deep_view() == name.deep_view()
            },
        builder.start_fn.deep_view() == ctx.start_fn.deep_view(),
        builder.generics.deep_view() == ctx.deep_view().generics(),
{
    let view = ctx.deep_view();
    let res: Result<BuilderGenCtxParams<'a, N, M>, Error> = Ok(builder);
    let (raw, made) = choose|raw: Vec<RawMember>, made: Result<Vec<M>, Error>|
        {
            &&& view.raw_members() == Ok::<Seq<RawMemberView>, ErrorView>(raw.deep_view())
            &&& #[trigger] call_ensures(from_raw, (&ctx.config, raw), made)
            &&& match made {
                Err(error) => res == Err::<BuilderGenCtxParams<'a, N, M>, Error>(error),
                Ok(members) => exists|assoc: Option<AssocMethodCtxParams>, private_name: Ident|
                    {
                        &&& #[trigger] ctx.assoc_method_ctx_made(normalize, assoc)
                        &&& #[trigger] ctx.private_name_made(privatize, private_name)
                        &&& outcome(res) == view.builder_gen_ctx_params(
                            assoc.deep_view(),
                            members@,
                            private_name.deep_view(),
                        )
                    },
            }
        };
    let members = made->Ok_0;
    let (assoc, private_name) = choose|assoc: Option<AssocMethodCtxParams>, private_name: Ident|
        {
            &&& #[trigger] ctx.assoc_method_ctx_made(normalize, assoc)
            &&& #[trigger] ctx.private_name_made(privatize, private_name)
            &&& outcome(res) == view.builder_gen_ctx_params(
                assoc.deep_view(),
                members@,
                private_name.deep_view(),
            )
        };
    law_builder_takes_over(view, assoc.deep_view(), members@, private_name.deep_view());
    law_finishing_function(view, assoc.deep_view(), members@, private_name.deep_view());
    law_private_name(ctx, privatize, private_name);
    assert(call_ensures(from_raw, (&ctx.config, raw), Ok(members)));
    if ctx.config.start_fn.name is None {
        assert(call_ensures(privatize, (&ctx.fn_item.orig.sig.ident,), private_name));
    }
}

/// The description of the impl block holds the receiver of the method as it stands in the function,
/// and beside it what `normalize` makes of its type. A function without one has no receiver there.
pub proof fn law_described_receiver<'a, N, F: FnOnce(&Type, &Type) -> Type>(
    ctx: FnInputCtx<'a, N>,
    normalize: F,
    impl_ctx: Rc<ImplCtx>,
    res: Option<AssocMethodCtxParams>,
)
    requires
        call_ensures(FnInputCtx::<'a, N>::assoc_method_ctx::<F>, (&ctx, normalize), Ok(res)),
        ctx.impl_ctx == Some(impl_ctx),
    ensures
        res is Some,
        res->0.self_ty.deep_view() == impl_ctx.self_ty.deep_view(),
        res->0.receiver is None <==> ctx.deep_view().fn_item.norm.sig.receiver() is None,
        res->0.receiver matches Some(receiver) ==> {
            &&& ctx.deep_view().fn_item.norm.sig.receiver() == Some(
                receiver.with_self_keyword.deep_view(),
            )
            &&& call_ensures(
                normalize,
                (&impl_ctx.self_ty, &ctx.fn_item.norm.sig.inputs@[0]->Receiver_0.ty),
                receiver.without_self_keyword,
            )
        },
{
}

/// What is found wrong after settling is returned; else the settled function is, and it was checked
/// as it is returned.
pub proof fn law_new_checks<'a, N, V: FnOnce(&FnInputCtx<'a, N>) -> Result<(), Error>>(
    params: FnInputCtxParams<'a, N>,
    validate: V,
    res: Result<FnInputCtx<'a, N>, Error>,
)
    requires
        call_ensures(FnInputCtx::<'a, N>::new::<V>, (params, validate), res),
    ensures
        res matches Ok(ctx) ==> ctx.deep_view() == params.deep_view().settled() && call_ensures(
            validate,
            (&ctx,),
            Ok(()),
        ),
        res matches Err(error) ==> exists|ctx: FnInputCtx<'a, N>|
            ctx.deep_view() == params.deep_view().settled() && #[trigger] call_ensures(
                validate,
                (&ctx,),
                Err(error),
            ),
{
    let (ctx, checked) = choose|ctx: FnInputCtx<'a, N>, checked: Result<(), Error>|
        #![trigger call_ensures(validate, (&ctx,), checked)]
        {
            &&& ctx.deep_view() == params.deep_view().settled()
            &&& call_ensures(validate, (&ctx,), checked)
            &&& match checked {
                Ok(_) => res == Ok::<FnInputCtx<'a, N>, Error>(ctx),
                Err(error) => res == Err::<FnInputCtx<'a, N>, Error>(error),
            }
        };
    if let Ok(done) = checked {
        assert(done == ());
        assert(checked == Ok::<(), Error>(()));
    }
}

/// The complaint about the receiver of a method comes before the complaint about its arguments, and
/// both come before anything else is found wrong.
pub proof fn law_complaints_in_order<'a, N, M, F, P, R>(
    ctx: FnInputCtx<'a, N>,
    normalize: F,
    privatize: P,
    from_raw: R,
    res: Result<BuilderGenCtxParams<'a, N, M>, Error>,
) where
    F: FnOnce(&Type, &Type) -> Type,
    P: FnOnce(&Ident) -> Ident,
    R: FnOnce(&TopLevelConfig, Vec<RawMember>) -> Result<Vec<M>, Error>,

    requires
        call_ensures(
            FnInputCtx::<'a, N>::into_builder_gen_ctx::<M, F, P, R>,
            (ctx, normalize, privatize, from_raw),
            res,
        ),
    ensures
        ctx.impl_ctx is Some ==> (ctx.deep_view().kept_receiver() matches Err(complaint) ==> (
        res matches Err(error) && error.deep_view() == complaint)),
        ctx.impl_ctx is None || ctx.deep_view().kept_receiver() is Ok ==> (
        ctx.deep_view().raw_members() matches Err(complaint) ==> (res matches Err(error)
            && error.deep_view() == complaint)),
{
}

/// Settling keeps all that was known, as it is, and starts the building with the documentation and
/// the generics of the normalized function.
pub proof fn law_settled_function<'a, N>(params: FnInputCtxParams<'a, N>, ctx: FnInputCtx<'a, N>)
    requires
        call_ensures(FnInputCtx::<'a, N>::settle, (params,), ctx),
    ensures
        ctx.fn_item.deep_view() == params.fn_item.deep_view(),
        ctx.impl_ctx.deep_view() == params.impl_ctx.deep_view(),
        ctx.config.deep_view() == params.config.deep_view(),
        *ctx.namespace == *params.namespace,
        ctx.start_fn.vis.deep_view() == params.config.start_fn.vis.deep_view(),
        ctx.start_fn.generics matches Some(generics) && generics.deep_view()
            == params.fn_item.norm.sig.generics.deep_view(),
        params.config.start_fn.docs matches Some(docs) ==> ctx.start_fn.docs.deep_view()
            == docs.deep_view(),
        params.config.start_fn.docs is None ==> ctx.start_fn.docs.deep_view()
            == params.fn_item.norm.attrs.deep_view().filter(
            |attr: AttributeView| attr.meta is NameValue && attr.is_named("doc"@),
        ),
{
    law_settled(params.deep_view());
}

} // verus!
