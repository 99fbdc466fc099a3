//! The description of a builder, from which its code is generated.

use crate::attrs::{Attribute, AttributeView, Path, PathView};
use crate::call::{FnCallBody, FnCallBodyView};
use crate::config::{ItemSigConfig, ItemSigConfigView};
use crate::generics::Generics;
use crate::item::{
    GenericsView, Receiver, ReceiverView, Type, TypeView, Visibility, VisibilityView,
};
use crate::tokens::{Ident, IdentView, Tokens, TokensView};
use vstd::prelude::*;

verus! {

/// A piece of syntax as it was written (`orig`), and normalized so that it means the same in
/// another place (`norm`).
pub struct SyntaxVariant<T> {
    pub norm: T,
    pub orig: T,
}

impl<T: DeepView> DeepView for SyntaxVariant<T> {
    type V = SyntaxVariant<T::V>;

    open spec fn deep_view(&self) -> SyntaxVariant<T::V> {
        SyntaxVariant { norm: self.norm.deep_view(), orig: self.orig.deep_view() }
    }
}

/// An argument that becomes a member of the builder.
pub struct RawMember {
    pub attrs: Vec<Attribute>,
    pub ident: Ident,
    pub ty: SyntaxVariant<Type>,
}

/// What a [`RawMember`] stands for.
#[verifier::ext_equal]
pub struct RawMemberView {
    pub attrs: Seq<AttributeView>,
    pub ident: IdentView,
    pub ty: SyntaxVariant<TypeView>,
}

impl DeepView for RawMember {
    type V = RawMemberView;

    open spec fn deep_view(&self) -> RawMemberView {
        RawMemberView {
            attrs: self.attrs.deep_view(),
            ident: self.ident.deep_view(),
            ty: self.ty.deep_view(),
        }
    }
}

/// The `self` argument of a method, with and without the keyword `Self` in its type.
pub struct AssocMethodReceiverCtxParams {
    pub with_self_keyword: Receiver,
    pub without_self_keyword: Type,
}

/// What [`AssocMethodReceiverCtxParams`] stand for.
#[verifier::ext_equal]
pub struct AssocMethodReceiverCtxParamsView {
    pub with_self_keyword: ReceiverView,
    pub without_self_keyword: TypeView,
}

impl DeepView for AssocMethodReceiverCtxParams {
    type V = AssocMethodReceiverCtxParamsView;

    open spec fn deep_view(&self) -> AssocMethodReceiverCtxParamsView {
        AssocMethodReceiverCtxParamsView {
            with_self_keyword: self.with_self_keyword.deep_view(),
            without_self_keyword: self.without_self_keyword.deep_view(),
        }
    }
}

/// What a function needs to know of the impl block it stands in.
pub struct AssocMethodCtxParams {
    pub self_ty: Type,
    pub receiver: Option<AssocMethodReceiverCtxParams>,
}

/// What [`AssocMethodCtxParams`] stand for.
#[verifier::ext_equal]
pub struct AssocMethodCtxParamsView {
    pub self_ty: TypeView,
    pub receiver: Option<AssocMethodReceiverCtxParamsView>,
}

impl DeepView for AssocMethodCtxParams {
    type V = AssocMethodCtxParamsView;

    open spec fn deep_view(&self) -> AssocMethodCtxParamsView {
        AssocMethodCtxParamsView {
            self_ty: self.self_ty.deep_view(),
            receiver: self.receiver.deep_view(),
        }
    }
}

/// The function that starts the building.
pub struct StartFnParams {
    pub ident: Ident,
    pub vis: Option<Visibility>,
    pub docs: Vec<Attribute>,
    /// The generics of the function itself, without those of the impl block.
    pub generics: Option<Generics>,
}

/// What [`StartFnParams`] stand for.
#[verifier::ext_equal]
pub struct StartFnParamsView {
    pub ident: IdentView,
    pub vis: Option<VisibilityView>,
    pub docs: Seq<AttributeView>,
    pub generics: Option<GenericsView>,
}

impl DeepView for StartFnParams {
    type V = StartFnParamsView;

    open spec fn deep_view(&self) -> StartFnParamsView {
        StartFnParamsView {
            ident: self.ident.deep_view(),
            vis: self.vis.deep_view(),
            docs: self.docs.deep_view(),
            generics: self.generics.deep_view(),
        }
    }
}

/// The function that finishes the building.
pub struct FinishFnParams {
    pub ident: Ident,
    pub vis: Option<Visibility>,
    pub unsafety: bool,
    pub asyncness: bool,
    /// Attributes that are passed on from the function.
    pub special_attrs: Vec<Attribute>,
    pub body: FnCallBody,
    pub output: Tokens,
    pub attrs: Vec<Attribute>,
}

/// What [`FinishFnParams`] stand for.
#[verifier::ext_equal]
pub struct FinishFnParamsView {
    pub ident: IdentView,
    pub vis: Option<VisibilityView>,
    pub unsafety: bool,
    pub asyncness: bool,
    pub special_attrs: Seq<AttributeView>,
    pub body: FnCallBodyView,
    pub output: TokensView,
    pub attrs: Seq<AttributeView>,
}

impl DeepView for FinishFnParams {
    type V = FinishFnParamsView;

    open spec fn deep_view(&self) -> FinishFnParamsView {
        FinishFnParamsView {
            ident: self.ident.deep_view(),
            vis: self.vis.deep_view(),
            unsafety: self.unsafety,
            asyncness: self.asyncness,
            special_attrs: self.special_attrs.deep_view(),
            body: self.body.deep_view(),
            output: self.output.deep_view(),
            attrs: self.attrs.deep_view(),
        }
    }
}

/// The builder type.
pub struct BuilderTypeParams {
    pub ident: Ident,
    pub derives: Tokens,
    pub docs: Option<Vec<Attribute>>,
    pub vis: Option<Visibility>,
}

/// What [`BuilderTypeParams`] stand for.
#[verifier::ext_equal]
pub struct BuilderTypeParamsView {
    pub ident: IdentView,
    pub derives: TokensView,
    pub docs: Option<Seq<AttributeView>>,
    pub vis: Option<VisibilityView>,
}

impl DeepView for BuilderTypeParams {
    type V = BuilderTypeParamsView;

    open spec fn deep_view(&self) -> BuilderTypeParamsView {
        BuilderTypeParamsView {
            ident: self.ident.deep_view(),
            derives: self.derives.deep_view(),
            docs: self.docs.deep_view(),
            vis: self.vis.deep_view(),
        }
    }
}

/// A builder. `N` is the set of names that its generics may not take, and `M` a member.
pub struct BuilderGenCtxParams<'a, N, M> {
    pub bon: Path,
    pub namespace: &'a N,
    pub members: Vec<M>,
    /// Lint suppressions that all generated items inherit.
    pub allow_attrs: Vec<Attribute>,
    pub const_: Option<Tokens>,
    pub on: Vec<Tokens>,
    pub assoc_method_ctx: Option<AssocMethodCtxParams>,
    pub generics: Generics,
    pub orig_item_vis: Visibility,
    pub builder_type: BuilderTypeParams,
    pub state_mod: ItemSigConfig,
    pub start_fn: StartFnParams,
    pub finish_fn: FinishFnParams,
}

/// What [`BuilderGenCtxParams`] stand for.
#[verifier::ext_equal]
pub struct BuilderGenCtxParamsView<N, M> {
    pub bon: PathView,
    pub namespace: N,
    pub members: Seq<M>,
    pub allow_attrs: Seq<AttributeView>,
    pub const_: Option<TokensView>,
    pub on: Seq<TokensView>,
    pub assoc_method_ctx: Option<AssocMethodCtxParamsView>,
    pub generics: GenericsView,
    pub orig_item_vis: VisibilityView,
    pub builder_type: BuilderTypeParamsView,
    pub state_mod: ItemSigConfigView,
    pub start_fn: StartFnParamsView,
    pub finish_fn: FinishFnParamsView,
}

impl<'a, N, M> DeepView for BuilderGenCtxParams<'a, N, M> {
    type V = BuilderGenCtxParamsView<N, M>;

    open spec fn deep_view(&self) -> BuilderGenCtxParamsView<N, M> {
        BuilderGenCtxParamsView {
            bon: self.bon.deep_view(),
            namespace: *self.namespace,
            members: self.members@,
            allow_attrs: self.allow_attrs.deep_view(),
            const_: self.const_.deep_view(),
            on: self.on.deep_view(),
            assoc_method_ctx: self.assoc_method_ctx.deep_view(),
            generics: self.generics.deep_view(),
            orig_item_vis: self.orig_item_vis.deep_view(),
            builder_type: self.builder_type.deep_view(),
            state_mod: self.state_mod.deep_view(),
            start_fn: self.start_fn.deep_view(),
            finish_fn: self.finish_fn.deep_view(),
        }
    }
}

/// A member stands for all of its parts, and its type for both of its forms, each in its place.
pub proof fn law_member_views<T: DeepView>(both: SyntaxVariant<T>, member: RawMember)
    ensures
        both.deep_view().norm == both.norm.deep_view(),
        both.deep_view().orig == both.orig.deep_view(),
        member.deep_view().attrs == member.attrs.deep_view(),
        member.deep_view().ident == member.ident.deep_view(),
        member.deep_view().ty == member.ty.deep_view(),
{
}

/// What is known of a method stands for all of its parts.
pub proof fn law_method_views(receiver: AssocMethodReceiverCtxParams, assoc: AssocMethodCtxParams)
    ensures
        receiver.deep_view().with_self_keyword == receiver.with_self_keyword.deep_view(),
        receiver.deep_view().without_self_keyword == receiver.without_self_keyword.deep_view(),
        assoc.deep_view().self_ty == assoc.self_ty.deep_view(),
        assoc.deep_view().receiver == assoc.receiver.deep_view(),
{
}

/// The description of a builder stands for all of its parts.
pub proof fn law_builder_views<'a, N, M>(
    start_fn: StartFnParams,
    finish_fn: FinishFnParams,
    builder_type: BuilderTypeParams,
    builder: BuilderGenCtxParams<'a, N, M>,
)
    ensures
        start_fn.deep_view().ident == start_fn.ident.deep_view(),
        start_fn.deep_view().vis == start_fn.vis.deep_view(),
        start_fn.deep_view().docs == start_fn.docs.deep_view(),
        start_fn.deep_view().generics == start_fn.generics.deep_view(),
        finish_fn.deep_view().unsafety == finish_fn.unsafety,
        finish_fn.deep_view().asyncness == finish_fn.asyncness,
        finish_fn.deep_view().ident == finish_fn.ident.deep_view(),
        finish_fn.deep_view().vis == finish_fn.vis.deep_view(),
        finish_fn.deep_view().special_attrs == finish_fn.special_attrs.deep_view(),
        finish_fn.deep_view().body == finish_fn.body.deep_view(),
        finish_fn.deep_view().output == finish_fn.output.deep_view(),
        finish_fn.deep_view().attrs == finish_fn.attrs.deep_view(),
        builder_type.deep_view().ident == builder_type.ident.deep_view(),
        builder_type.deep_view().derives == builder_type.derives.deep_view(),
        builder_type.deep_view().docs == builder_type.docs.deep_view(),
        builder_type.deep_view().vis == builder_type.vis.deep_view(),
        builder.deep_view().namespace == *builder.namespace,
        builder.deep_view().members == builder.members@,
        builder.deep_view().bon == builder.bon.deep_view(),
        builder.deep_view().allow_attrs == builder.allow_attrs.deep_view(),
        builder.deep_view().const_ == builder.const_.deep_view(),
        builder.deep_view().on == builder.on.deep_view(),
        builder.deep_view().assoc_method_ctx == builder.assoc_method_ctx.deep_view(),
        builder.deep_view().generics == builder.generics.deep_view(),
        builder.deep_view().orig_item_vis == builder.orig_item_vis.deep_view(),
        builder.deep_view().builder_type == builder.builder_type.deep_view(),
        builder.deep_view().state_mod == builder.state_mod.deep_view(),
        builder.deep_view().start_fn == builder.start_fn.deep_view(),
        builder.deep_view().finish_fn == builder.finish_fn.deep_view(),
{
}

} // verus!
