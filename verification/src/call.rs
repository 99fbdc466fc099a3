//! The call of the positional function, at the end of the building.

use crate::generics::{borrowed_params, lifetime_is};
use crate::input_fn::{ImplCtx, ImplCtxView};
use crate::item::{GenericParam, GenericParamView, Signature, SignatureView, Type, TypeView};
use crate::seqs::lemma_filter_items;
use crate::tokens::{call_site_ident, Ident, IdentView};
use std::rc::Rc;
use vstd::prelude::*;

verus! {

/// A token of a generated expression.
pub enum Token {
    Ident(Ident),
    /// `::`
    PathSep,
    Dot,
    Comma,
    Lt,
    Gt,
    OpenParen,
    CloseParen,
    /// All tokens of a type.
    Type(Type),
}

/// What a [`Token`] stands for.
pub enum TokenView {
    Ident(IdentView),
    PathSep,
    Dot,
    Comma,
    Lt,
    Gt,
    OpenParen,
    CloseParen,
    Type(TypeView),
}

impl DeepView for Token {
    type V = TokenView;

    open spec fn deep_view(&self) -> TokenView {
        match self {
            Token::Ident(ident) => TokenView::Ident(ident.deep_view()),
            Token::PathSep => TokenView::PathSep,
            Token::Dot => TokenView::Dot,
            Token::Comma => TokenView::Comma,
            Token::Lt => TokenView::Lt,
            Token::Gt => TokenView::Gt,
            Token::OpenParen => TokenView::OpenParen,
            Token::CloseParen => TokenView::CloseParen,
            Token::Type(ty) => TokenView::Type(ty.deep_view()),
        }
    }
}

/// The part of the generated builder that a call needs: where the receiver of a method is kept,
/// and the variables that hold the values of the members.
pub struct BuilderGenCtx {
    /// The field of the builder that holds the receiver, for a method that has one.
    pub receiver_field: Option<Ident>,
    /// The variable of each member, in the order of the arguments.
    pub member_vars: Vec<Ident>,
}

/// What a [`BuilderGenCtx`] stands for.
#[verifier::ext_equal]
pub struct BuilderGenCtxView {
    pub receiver_field: Option<IdentView>,
    pub member_vars: Seq<IdentView>,
}

impl DeepView for BuilderGenCtx {
    type V = BuilderGenCtxView;

    open spec fn deep_view(&self) -> BuilderGenCtxView {
        BuilderGenCtxView {
            receiver_field: self.receiver_field.deep_view(),
            member_vars: self.member_vars.deep_view(),
        }
    }
}

/// The body of the function that finishes the building: it calls the positional function.
pub struct FnCallBody {
    pub sig: Signature,
    pub impl_ctx: Option<Rc<ImplCtx>>,
}

/// What an [`FnCallBody`] stands for.
#[verifier::ext_equal]
pub struct FnCallBodyView {
    pub sig: SignatureView,
    pub impl_ctx: Option<ImplCtxView>,
}

impl DeepView for FnCallBody {
    type V = FnCallBodyView;

    open spec fn deep_view(&self) -> FnCallBodyView {
        FnCallBodyView { sig: self.sig.deep_view(), impl_ctx: self.impl_ctx.deep_view() }
    }
}

/// The arguments for the generic parameters, a comma behind each. Lifetimes get none.
pub open spec fn generic_arg_tokens(params: Seq<GenericParamView>) -> Seq<TokenView>
    decreases params.len(),
{
    if params.len() == 0 {
        Seq::empty()
    } else {
        let before = generic_arg_tokens(params.drop_last());
        match params.last() {
            GenericParamView::Lifetime(_) => before,
            GenericParamView::Type(param) => before + seq![
                TokenView::Ident(param.ident),
                TokenView::Comma,
            ],
            GenericParamView::Const(param) => before + seq![
                TokenView::Ident(param.ident),
                TokenView::Comma,
            ],
        }
    }
}

/// The names with commas between them.
pub open spec fn separated(names: Seq<IdentView>) -> Seq<TokenView>
    decreases names.len(),
{
    if names.len() == 0 {
        Seq::empty()
    } else if names.len() == 1 {
        seq![TokenView::Ident(names[0])]
    } else {
        separated(names.drop_last()) + seq![TokenView::Comma, TokenView::Ident(names.last())]
    }
}

impl FnCallBodyView {
    /// What the positional function is reached through: the receiver that the builder keeps, else
    /// the `Self` type of the impl block, else nothing.
    pub open spec fn call_prefix(self, ctx: BuilderGenCtxView) -> Seq<TokenView> {
        match (ctx.receiver_field, self.impl_ctx) {
            (Some(field), _) => seq![
                TokenView::Ident(call_site_ident("self"@)),
                TokenView::Dot,
                TokenView::Ident(field),
                TokenView::Dot,
            ],
            (None, Some(impl_ctx)) => seq![
                TokenView::Lt,
                TokenView::Type(impl_ctx.self_ty),
                TokenView::Gt,
                TokenView::PathSep,
            ],
            (None, None) => Seq::empty(),
        }
    }

    /// `.await`, where the positional function is asynchronous.
    pub open spec fn call_suffix(self) -> Seq<TokenView> {
        if self.sig.asyncness {
            seq![TokenView::Dot, TokenView::Ident(call_site_ident("await"@))]
        } else {
            Seq::empty()
        }
    }

    /// The call of the positional function.
    pub open spec fn call_tokens(self, ctx: BuilderGenCtxView) -> Seq<TokenView> {
        self.call_prefix(ctx) + seq![
            TokenView::Ident(self.sig.ident),
            TokenView::PathSep,
            TokenView::Lt,
        ] + generic_arg_tokens(self.sig.generics.params) + seq![
            TokenView::Gt,
            TokenView::OpenParen,
        ] + separated(ctx.member_vars) + seq![TokenView::CloseParen] + self.call_suffix()
    }
}

/// Puts a token behind the others.
fn put(tokens: &mut Vec<Token>, token: Token)
    ensures
        final(tokens).deep_view() == old(tokens).deep_view().push(token.deep_view()),
{
    let ghost before = tokens.deep_view();
    tokens.push(token);
    assert(tokens.deep_view() =~= before.push(token.deep_view()));
}

/// Puts the arguments for the generic parameters behind the other tokens.
fn put_generic_args(tokens: &mut Vec<Token>, params: &Vec<&GenericParam>)
    ensures
        final(tokens).deep_view() == old(tokens).deep_view() + generic_arg_tokens(
            params.deep_view(),
        ),
{
    let ghost start = tokens.deep_view();
    let ghost all = params.deep_view();
    assert(tokens.deep_view() =~= start + generic_arg_tokens(all.take(0)));
    for i in 0..params.len()
        invariant
            all == params.deep_view(),
            tokens.deep_view() == start + generic_arg_tokens(all.take(i as int)),
    {
        assert(all.take(i + 1).drop_last() =~= all.take(i as int));
        assert(all.take(i + 1).last() == params[i as int].deep_view());
        match params[i] {
            GenericParam::Lifetime(_) => {},
            GenericParam::Type(param) => {
                put(tokens, Token::Ident(param.ident.clone()));
                put(tokens, Token::Comma);
            },
            GenericParam::Const(param) => {
                put(tokens, Token::Ident(param.ident.clone()));
                put(tokens, Token::Comma);
            },
        }
        assert(tokens.deep_view() =~= start + generic_arg_tokens(all.take(i + 1)));
    }
    assert(all.take(all.len() as int) =~= all);
}

/// Puts the names, with commas between them, behind the other tokens.
fn put_separated(tokens: &mut Vec<Token>, names: &Vec<Ident>)
    ensures
        final(tokens).deep_view() == old(tokens).deep_view() + separated(names.deep_view()),
{
    let ghost start = tokens.deep_view();
    let ghost all = names.deep_view();
    assert(tokens.deep_view() =~= start + separated(all.take(0)));
    for i in 0..names.len()
        invariant
            all == names.deep_view(),
            tokens.deep_view() == start + separated(all.take(i as int)),
    {
        assert(all.take(i + 1).drop_last() =~= all.take(i as int));
        if i > 0 {
            put(tokens, Token::Comma);
        }
        put(tokens, Token::Ident(names[i].clone()));
        assert(tokens.deep_view() =~= start + separated(all.take(i + 1)));
    }
    assert(all.take(all.len() as int) =~= all);
}

impl FnCallBody {
    /// The call of the positional function, in terms of the variables of the members.
    ///
    /// No argument is given for a lifetime parameter: it is not needed, and it cannot always be
    /// named where the function is called.
    pub fn generate(&self, ctx: &BuilderGenCtx) -> (tokens: Vec<Token>)
        ensures
            tokens.deep_view() == self.deep_view().call_tokens(ctx.deep_view()),
    {
        let mut tokens: Vec<Token> = Vec::new();
        assert(tokens.deep_view() =~= Seq::empty());
        match (&ctx.receiver_field, &self.impl_ctx) {
            (Some(field), _) => {
                put(&mut tokens, Token::Ident(Ident::new("self", None)));
                put(&mut tokens, Token::Dot);
                put(&mut tokens, Token::Ident(field.clone()));
                put(&mut tokens, Token::Dot);
            },
            (None, Some(impl_ctx)) => {
                put(&mut tokens, Token::Lt);
                put(&mut tokens, Token::Type(impl_ctx.self_ty.clone()));
                put(&mut tokens, Token::Gt);
                put(&mut tokens, Token::PathSep);
            },
            (None, None) => {},
        }
        assert(tokens.deep_view() =~= self.deep_view().call_prefix(ctx.deep_view()));
        put(&mut tokens, Token::Ident(self.sig.ident.clone()));
        put(&mut tokens, Token::PathSep);
        put(&mut tokens, Token::Lt);
        let params = borrowed_params(&self.sig.generics.params);
        put_generic_args(&mut tokens, &params);
        put(&mut tokens, Token::Gt);
        put(&mut tokens, Token::OpenParen);
        put_separated(&mut tokens, &ctx.member_vars);
        put(&mut tokens, Token::CloseParen);
        if self.sig.asyncness {
            put(&mut tokens, Token::Dot);
            put(&mut tokens, Token::Ident(Ident::new("await", None)));
        }
        assert(tokens.deep_view() =~= self.deep_view().call_tokens(ctx.deep_view()));
        tokens
    }
}

/// No argument is given for a lifetime: a call is the same without the lifetime parameters.
pub proof fn law_lifetimes_get_no_argument(params: Seq<GenericParamView>)
    ensures
        generic_arg_tokens(params) == generic_arg_tokens(params.filter(lifetime_is(false))),
    decreases params.len(),
{
    reveal(Seq::filter);
    if params.len() > 0 {
        law_lifetimes_get_no_argument(params.drop_last());
        let kept = params.drop_last().filter(lifetime_is(false));
        if !(params.last() is Lifetime) {
            assert(kept.push(params.last()).drop_last() =~= kept);
        }
    }
}

/// A call passes the variables of the members in order, with a comma between any two.
pub proof fn law_arguments_in_order(names: Seq<IdentView>)
    ensures
        separated(names).len() == (if names.len() == 0 {
            0
        } else {
            2 * names.len() - 1
        }),
        forall|i: int|
            0 <= i < names.len() ==> {
                &&& separated(names)[2 * i] == TokenView::Ident(#[trigger] names[i])
                &&& i > 0 ==> separated(names)[2 * i - 1] == TokenView::Comma
            },
    decreases names.len(),
{
    if names.len() > 1 {
        let before = names.drop_last();
        law_arguments_in_order(before);
        assert forall|i: int| 0 <= i < names.len() implies {
            &&& separated(names)[2 * i] == TokenView::Ident(#[trigger] names[i])
            &&& i > 0 ==> separated(names)[2 * i - 1] == TokenView::Comma
        } by {
            if i < before.len() {
                assert(before[i] == names[i]);
            }
        }
    }
}

/// A method with a receiver is called on the receiver that the builder keeps, a function of an
/// impl block through the `Self` type, and a free function directly.
pub proof fn law_call_starts(body: FnCallBodyView, ctx: BuilderGenCtxView)
    ensures
        ctx.receiver_field matches Some(field) ==> body.call_tokens(ctx)[2] == TokenView::Ident(
            field,
        ),
        ctx.receiver_field is None ==> (body.impl_ctx matches Some(impl_ctx) ==> body.call_tokens(
            ctx,
        )[1] == TokenView::Type(impl_ctx.self_ty)),
        ctx.receiver_field is None && body.impl_ctx is None ==> body.call_tokens(ctx)[0]
            == TokenView::Ident(body.sig.ident),
{
}

/// The outcome of a call is awaited exactly where the function is asynchronous.
pub proof fn law_call_awaits(body: FnCallBodyView, ctx: BuilderGenCtxView)
    ensures
        body.sig.asyncness ==> body.call_tokens(ctx).last() == TokenView::Ident(
            call_site_ident("await"@),
        ),
        !body.sig.asyncness ==> body.call_tokens(ctx).last() == TokenView::CloseParen,
{
}

/// There is exactly one argument for each parameter that is not a lifetime, in order, with a comma
/// behind it.
pub proof fn law_one_argument_per_parameter(params: Seq<GenericParamView>)
    ensures
        ({
            let kept = params.filter(|param: GenericParamView| !(param is Lifetime));
            let args = generic_arg_tokens(params);
            &&& args.len() == 2 * kept.len()
            &&& forall|i: int|
                0 <= i < kept.len() ==> {
                    &&& args[2 * i] == match #[trigger] kept[i] {
                        GenericParamView::Type(param) => TokenView::Ident(param.ident),
                        GenericParamView::Const(param) => TokenView::Ident(param.ident),
                        GenericParamView::Lifetime(_) => TokenView::Comma,
                    }
                    &&& args[2 * i + 1] == TokenView::Comma
                    &&& !(kept[i] is Lifetime)
                }
        }),
    decreases params.len(),
{
    let pred = |param: GenericParamView| !(param is Lifetime);
    let kept = params.filter(pred);
    let args = generic_arg_tokens(params);
    lemma_filter_items(params, pred);
    if params.len() == 0 {
        reveal(Seq::filter);
    } else {
        let rest = params.drop_last();
        law_one_argument_per_parameter(rest);
        rest.lemma_filter_push(params.last(), pred);
        assert(rest.push(params.last()) =~= params);
        let before = rest.filter(pred);
        assert forall|i: int| 0 <= i < kept.len() implies {
            &&& args[2 * i] == match #[trigger] kept[i] {
                GenericParamView::Type(param) => TokenView::Ident(param.ident),
                GenericParamView::Const(param) => TokenView::Ident(param.ident),
                GenericParamView::Lifetime(_) => TokenView::Comma,
            }
            &&& args[2 * i + 1] == TokenView::Comma
        } by {
            if i < before.len() {
                assert(before[i] == kept[i]);
            }
        }
    }
}

/// A call is what the function is reached through, its name, the arguments for its generic
/// parameters between `::<` and `>`, the variables of the members in parentheses, and `.await` for
/// an asynchronous function.
pub proof fn law_call_parts(body: FnCallBodyView, ctx: BuilderGenCtxView)
    ensures
        body.call_tokens(ctx) == (match (ctx.receiver_field, body.impl_ctx) {
            (Some(field), _) => seq![
                TokenView::Ident(IdentView { text: "self"@, span: None }),
                TokenView::Dot,
                TokenView::Ident(field),
                TokenView::Dot,
            ],
            (None, Some(impl_ctx)) => seq![
                TokenView::Lt,
                TokenView::Type(impl_ctx.self_ty),
                TokenView::Gt,
                TokenView::PathSep,
            ],
            (None, None) => Seq::empty(),
        }) + seq![TokenView::Ident(body.sig.ident), TokenView::PathSep, TokenView::Lt]
            + generic_arg_tokens(body.sig.generics.params) + seq![
            TokenView::Gt,
            TokenView::OpenParen,
        ] + separated(ctx.member_vars) + seq![TokenView::CloseParen] + (if body.sig.asyncness {
            seq![
                TokenView::Dot,
                TokenView::Ident(IdentView { text: "await"@, span: None }),
            ]
        } else {
            Seq::empty()
        }),
{
}

/// The tokens of a call stand for themselves, and what a call is made of for all of its parts.
pub proof fn law_call_views(ident: Ident, ty: Type, ctx: BuilderGenCtx, body: FnCallBody)
    ensures
        Token::Ident(ident).deep_view() == TokenView::Ident(ident.deep_view()),
        Token::Type(ty).deep_view() == TokenView::Type(ty.deep_view()),
        Token::PathSep.deep_view() is PathSep,
        Token::Dot.deep_view() is Dot,
        Token::Comma.deep_view() is Comma,
        Token::Lt.deep_view() is Lt,
        Token::Gt.deep_view() is Gt,
        Token::OpenParen.deep_view() is OpenParen,
        Token::CloseParen.deep_view() is CloseParen,
        ctx.deep_view().receiver_field == ctx.receiver_field.deep_view(),
        ctx.deep_view().member_vars == ctx.member_vars.deep_view(),
        body.deep_view().sig == body.sig.deep_view(),
        body.deep_view().impl_ctx == body.impl_ctx.deep_view(),
{
}

/// In a generated call the name of the i-th parameter that is not a lifetime is the i-th argument
/// between `::<` and `>`, and the variable of the i-th member the i-th argument in parentheses.
pub proof fn law_generated_arguments(body: FnCallBody, ctx: BuilderGenCtx, tokens: Vec<Token>)
    requires
        call_ensures(FnCallBody::generate, (&body, &ctx), tokens),
    ensures
        ({
            let kept = body.deep_view().sig.generics.params.filter(
                |param: GenericParamView| !(param is Lifetime),
            );
            let start: int = if ctx.receiver_field is Some || body.impl_ctx is Some {
                7
            } else {
                3
            };
            let vars = start + 2 * kept.len() + 2;
            let tokens = tokens.deep_view();
            &&& tokens[start - 3] == TokenView::Ident(body.sig.ident.deep_view())
            &&& forall|i: int|
                0 <= i < kept.len() ==> {
                    &&& tokens[start + 2 * i] == match #[trigger] kept[i] {
                        GenericParamView::Type(param) => TokenView::Ident(param.ident),
                        GenericParamView::Const(param) => TokenView::Ident(param.ident),
                        GenericParamView::Lifetime(_) => TokenView::Comma,
                    }
                    &&& tokens[start + 2 * i + 1] == TokenView::Comma
                }
            &&& tokens[vars - 2] == TokenView::Gt
            &&& tokens[vars - 1] == TokenView::OpenParen
            &&& forall|i: int|
                0 <= i < ctx.member_vars@.len() ==> tokens[vars + 2 * i] == TokenView::Ident(
                    #[trigger] ctx.member_vars@[i].deep_view(),
                )
        }),
{
    let (called, vars) = (body.deep_view(), ctx.deep_view());
    law_one_argument_per_parameter(called.sig.generics.params);
    law_arguments_in_order(vars.member_vars);
    law_call_parts(called, vars);
    let kept = called.sig.generics.params.filter(|param: GenericParamView| !(param is Lifetime));
    let start: int = if ctx.receiver_field is Some || body.impl_ctx is Some {
        7
    } else {
        3
    };
    let args = generic_arg_tokens(called.sig.generics.params);
    let names = separated(vars.member_vars);
    let all = tokens.deep_view();
    assert(called.call_prefix(vars).len() == start - 3);
    assert forall|i: int| 0 <= i < args.len() implies all[start + i] == #[trigger] args[i] by {}
    let behind = start + args.len() + 2;
    assert forall|i: int| 0 <= i < names.len() implies all[behind + i] == #[trigger] names[i] by {}
    assert forall|i: int| 0 <= i < kept.len() implies {
        &&& all[start + 2 * i] == match #[trigger] kept[i] {
            GenericParamView::Type(param) => TokenView::Ident(param.ident),
            GenericParamView::Const(param) => TokenView::Ident(param.ident),
            GenericParamView::Lifetime(_) => TokenView::Comma,
        }
        &&& all[start + 2 * i + 1] == TokenView::Comma
    } by {
        assert(all[start + 2 * i] == args[2 * i]);
        assert(all[start + (2 * i + 1)] == args[2 * i + 1]);
    }
    assert forall|i: int| 0 <= i < ctx.member_vars@.len() implies all[behind + 2 * i]
        == TokenView::Ident(#[trigger] ctx.member_vars@[i].deep_view()) by {
        assert(vars.member_vars[i] == ctx.member_vars@[i].deep_view());
        assert(all[behind + 2 * i] == names[2 * i]);
    }
}

} // verus!
