use fn_builder::attrs::{AttrStyle, Attribute, Delimiter, Expr, Meta, Path};
use fn_builder::builder_params::{BuilderGenCtxParams, RawMember, SyntaxVariant};
use fn_builder::call::{BuilderGenCtx, FnCallBody, Token};
use fn_builder::config::{ItemSigConfig, TopLevelConfig};
use fn_builder::error::Error;
use fn_builder::generics::{join_where, merge_generic_params, Generics};
use fn_builder::input_fn::{FnInputCtx, FnInputCtxParams, ImplCtx};
use fn_builder::item::{
    FnArg, GenericParam, ItemFn, ItemGenerics, NamedParam, Pat, Receiver, Signature, Type,
    TypedArg, Visibility, WhereClause,
};
use fn_builder::tokens::{Ident, Tokens};
use std::rc::Rc;
use syn::punctuated::Punctuated;
use syn::token::Comma;

fn txt(text: &str) -> Tokens {
    Tokens::Text(text.to_string())
}

fn text(tokens: &Tokens) -> String {
    match tokens {
        Tokens::Source(stream) => stream.to_string(),
        Tokens::Text(text) => text.clone(),
    }
}

fn ident(text: &str) -> Ident {
    Ident::new(text, None)
}

fn ty(name: &str) -> Type {
    Type::Path { path: Path::from_ident(name), written: txt(name) }
}

fn show_ty(ty: &Type) -> String {
    match ty {
        Type::Path { path, .. } => {
            let names: Vec<&str> = path.segments.iter().map(|s| s.ident.text.as_str()).collect();
            names.join("::")
        }
        Type::Other(tokens) => text(tokens),
    }
}

fn attr(name: &str) -> Attribute {
    Attribute { style: AttrStyle::Outer, meta: Meta::Path(Path::from_ident(name)) }
}

fn list(name: &str, tokens: &str) -> Attribute {
    let meta = Meta::List {
        path: Path::from_ident(name),
        delimiter: Delimiter::Paren,
        tokens: txt(tokens),
    };
    Attribute { style: AttrStyle::Outer, meta }
}

fn doc(value: &str) -> Attribute {
    let meta = Meta::NameValue { path: Path::from_ident("doc"), value: Expr::Str(value.to_string()) };
    Attribute { style: AttrStyle::Outer, meta }
}

fn attr_name(attr: &Attribute) -> String {
    let path = attr.meta.path();
    let names: Vec<&str> = path.segments.iter().map(|s| s.ident.text.as_str()).collect();
    names.join("::")
}

fn attr_names(attrs: &[Attribute]) -> Vec<String> {
    attrs.iter().map(attr_name).collect()
}

fn doc_texts(attrs: &[Attribute]) -> Vec<String> {
    let mut out = Vec::new();
    for attr in attrs {
        if let Some(Expr::Str(value)) = attr.as_doc() {
            out.push(value.clone());
        }
    }
    out
}

fn param(name: &str) -> GenericParam {
    if name.starts_with('\'') {
        GenericParam::Lifetime(txt(name))
    } else if let Some(name) = name.strip_prefix("const ") {
        GenericParam::Const(NamedParam { attrs: vec![], ident: ident(name), rest: txt(": usize") })
    } else {
        GenericParam::Type(NamedParam { attrs: vec![], ident: ident(name), rest: txt("") })
    }
}

fn params(names: &[&str]) -> Punctuated<GenericParam, Comma> {
    let mut out = Punctuated::new();
    for name in names {
        out.push(param(name));
    }
    out
}

fn param_names(params: &[GenericParam]) -> Vec<String> {
    let name = |p: &GenericParam| match p {
        GenericParam::Lifetime(tokens) => text(tokens),
        GenericParam::Type(param) => param.ident.text.clone(),
        GenericParam::Const(param) => format!("const {}", param.ident.text),
    };
    params.iter().map(name).collect()
}

fn clause(conditions: &[&str]) -> WhereClause {
    let mut predicates = Punctuated::new();
    for condition in conditions {
        predicates.push(txt(condition));
    }
    WhereClause { predicates }
}

fn conditions(clause: &Option<WhereClause>) -> Option<Vec<String>> {
    clause.as_ref().map(|c| c.predicates.iter().map(text).collect())
}

fn typed(name: &str, ty_name: &str, attrs: Vec<Attribute>) -> FnArg {
    let pat = Pat::Ident { by_ref: false, mutability: false, ident: ident(name), subpat: None };
    FnArg::Typed(TypedArg { attrs, pat, ty: ty(ty_name) })
}

fn receiver(attrs: Vec<Attribute>) -> FnArg {
    FnArg::Receiver(Receiver { attrs, written: txt("&self"), ty: Type::Other(txt("&Self")) })
}

fn function(name: &str, attrs: Vec<Attribute>, inputs: Vec<FnArg>) -> ItemFn {
    let sig = Signature {
        constness: false,
        asyncness: false,
        unsafety: false,
        abi: None,
        ident: ident(name),
        generics: ItemGenerics { params: Punctuated::new(), where_clause: None },
        inputs,
        variadic: None,
        output: txt("-> u32"),
    };
    ItemFn { attrs, vis: Visibility::Public, sig, block: txt("{ 0 }") }
}

fn same(item: ItemFn) -> SyntaxVariant<ItemFn> {
    SyntaxVariant { norm: item.clone(), orig: item }
}

fn nothing() -> ItemSigConfig {
    ItemSigConfig { name: None, vis: None, docs: None }
}

fn named(name: &str) -> ItemSigConfig {
    ItemSigConfig { name: Some(ident(name)), vis: None, docs: None }
}

fn config() -> TopLevelConfig {
    TopLevelConfig {
        bon: Path::from_ident("bon"),
        start_fn: nothing(),
        finish_fn: nothing(),
        builder_type: nothing(),
        state_mod: nothing(),
        derive: txt(""),
        const_: None,
        on: vec![],
    }
}

fn impl_ctx(name: &str) -> Option<Rc<ImplCtx>> {
    let generics = ItemGenerics {
        params: params(&["'s", "S"]),
        where_clause: Some(clause(&["S: Copy"])),
    };
    Some(Rc::new(ImplCtx { self_ty: ty(name), generics, allow_attrs: vec![list("allow", "impl")] }))
}

fn ctx(
    fn_item: SyntaxVariant<ItemFn>,
    impl_ctx: Option<Rc<ImplCtx>>,
    config: TopLevelConfig,
) -> FnInputCtx<'static, u32> {
    FnInputCtx::settle(FnInputCtxParams { namespace: &7, fn_item, impl_ctx, config })
}

fn normalize(self_ty: &Type, ty: &Type) -> Type {
    Type::Other(Tokens::Text(show_ty(ty).replace("Self", &show_ty(self_ty))))
}

fn privatize(name: &Ident) -> Ident {
    ident(&format!("private_{}", name.text))
}

fn member_names(_: &TopLevelConfig, raw: Vec<RawMember>) -> Result<Vec<String>, Error> {
    Ok(raw.into_iter().map(|member| member.ident.text).collect())
}

fn build(ctx: FnInputCtx<'static, u32>) -> Result<BuilderGenCtxParams<'static, u32, String>, Error> {
    ctx.into_builder_gen_ctx(normalize, privatize, member_names)
}

fn failed<T>(res: Result<T, Error>) -> Error {
    match res {
        Ok(_) => panic!("an error was expected"),
        Err(error) => error,
    }
}

fn done<T>(res: Result<T, Error>) -> T {
    match res {
        Ok(value) => value,
        Err(error) => panic!("{}", error.message()),
    }
}

fn code(tokens: &[Token]) -> String {
    let one = |token: &Token| match token {
        Token::Ident(ident) => ident.text.clone(),
        Token::PathSep => "::".to_string(),
        Token::Dot => ".".to_string(),
        Token::Comma => ",".to_string(),
        Token::Lt => "<".to_string(),
        Token::Gt => ">".to_string(),
        Token::OpenParen => "(".to_string(),
        Token::CloseParen => ")".to_string(),
        Token::Type(ty) => show_ty(ty),
    };
    tokens.iter().map(one).collect()
}

#[test]
fn merged_lifetimes_come_first() {
    let merged = merge_generic_params(
        &params(&["'a", "A", "const N"]),
        &params(&["'b", "'c", "B"]),
    );
    assert_eq!(param_names(&merged), ["'a", "'b", "'c", "A", "const N", "B"]);
}

#[test]
fn merging_with_nothing_keeps_the_list() {
    let merged = merge_generic_params(&params(&["'a", "A"]), &params(&[]));
    assert_eq!(param_names(&merged), ["'a", "A"]);
    let merged = merge_generic_params(&params(&[]), &params(&["'a", "A"]));
    assert_eq!(param_names(&merged), ["'a", "A"]);
    let merged = merge_generic_params(&params(&["A", "'a"]), &params(&[]));
    assert_eq!(param_names(&merged), ["'a", "A"]);
}

#[test]
fn conditions_are_joined() {
    let both = join_where(Some(clause(&["A: X", "B: Y"])), Some(clause(&["C: Z"])));
    assert_eq!(conditions(&both).unwrap(), ["A: X", "B: Y", "C: Z"]);
    let first = join_where(Some(clause(&["A: X"])), None);
    assert_eq!(conditions(&first).unwrap(), ["A: X"]);
    let second = join_where(None, Some(clause(&["C: Z"])));
    assert_eq!(conditions(&second).unwrap(), ["C: Z"]);
    assert!(join_where(None, None).is_none());
}

#[test]
fn declared_generics_are_cloned_whole() {
    let generics = ItemGenerics { params: params(&["'a", "T"]), where_clause: Some(clause(&["T: X"])) };
    let copy = generics.clone();
    let names: Vec<GenericParam> = copy.params.iter().cloned().collect();
    assert_eq!(param_names(&names), ["'a", "T"]);
    assert_eq!(conditions(&copy.where_clause).unwrap(), ["T: X"]);
}

#[test]
fn generics_of_impl_block_and_function() {
    let mut item = function("sum", vec![], vec![]);
    item.sig.generics.params = params(&["'f", "F"]);
    item.sig.generics.where_clause = Some(clause(&["F: Clone"]));
    let inside = ctx(same(item.clone()), impl_ctx("Counter"), config()).generics();
    assert_eq!(param_names(&inside.params), ["'s", "'f", "S", "F"]);
    assert_eq!(conditions(&inside.where_clause).unwrap(), ["F: Clone", "S: Copy"]);
    let free: Generics = ctx(same(item), None, config()).generics();
    assert_eq!(param_names(&free.params), ["'f", "F"]);
    assert_eq!(conditions(&free.where_clause).unwrap(), ["F: Clone"]);
}

#[test]
fn the_starting_function_is_settled() {
    let mut item = function("new", vec![doc(" Adds."), attr("inline")], vec![]);
    item.sig.generics.params = params(&["F"]);
    let settled = ctx(same(item), impl_ctx("Counter"), config());
    assert_eq!(settled.start_fn.ident.text, "builder");
    assert_eq!(doc_texts(&settled.start_fn.docs), [" Adds."]);
    assert_eq!(param_names(&settled.start_fn.generics.as_ref().unwrap().params), ["F"]);
    assert_eq!(settled.self_ty_prefix.as_deref(), Some("Counter"));
    assert!(settled.start_fn.vis.is_none());
}

#[test]
fn chosen_docs_replace_those_of_the_function() {
    let mut config = config();
    config.start_fn.docs = Some(vec![doc(" Chosen.")]);
    config.start_fn.vis = Some(Visibility::Public);
    let settled = ctx(same(function("sum", vec![doc(" Own.")], vec![])), None, config);
    assert_eq!(doc_texts(&settled.start_fn.docs), [" Chosen."]);
    assert!(matches!(settled.start_fn.vis, Some(Visibility::Public)));
    assert!(settled.self_ty_prefix.is_none());
}

#[test]
fn the_prefix_is_the_last_name_of_a_path() {
    let item = || same(function("sum", vec![], vec![]));
    let with = |self_ty: Type| {
        let generics = ItemGenerics { params: Punctuated::new(), where_clause: None };
        let impl_ctx = ImplCtx { self_ty, generics, allow_attrs: vec![] };
        ctx(item(), Some(Rc::new(impl_ctx)), config()).self_ty_prefix
    };
    let path = Type::Path {
        path: Path::from_ident("a").join("Counter"),
        written: txt("a::Counter"),
    };
    assert_eq!(with(path).as_deref(), Some("Counter"));
    assert_eq!(with(Type::Other(txt("&str"))), None);
}

#[test]
fn validation_decides_on_the_context() {
    let params = || FnInputCtxParams {
        namespace: &7u32,
        fn_item: same(function("sum", vec![], vec![])),
        impl_ctx: None,
        config: config(),
    };
    let good = FnInputCtx::new(params(), |ctx| {
        assert_eq!(ctx.start_fn.ident.text, "sum");
        Ok(())
    });
    assert_eq!(done(good).start_fn.ident.text, "sum");
    let bad = FnInputCtx::new(params(), |_| {
        Err(Error::Reported { message: "no".to_string(), at: txt("sum") })
    });
    assert_eq!(failed(bad).message(), "no");
}

#[test]
fn the_function_is_hidden_by_default() {
    let item = function(
        "sum",
        vec![doc(" Adds."), attr("builder"), attr("inline")],
        vec![typed("a", "u32", vec![doc(" First."), attr("builder"), attr("cfg")])],
    );
    let adapted = done(ctx(same(item), None, config()).adapted_fn());
    assert!(matches!(adapted.vis, Visibility::Inherited));
    assert_eq!(attr_names(&adapted.attrs), ["inline", "doc", "bon::__::__privatize", "allow"]);
    assert!(matches!(&adapted.sig.inputs[0], FnArg::Typed(arg) if attr_names(&arg.attrs) == ["cfg"]));
    assert_eq!(adapted.sig.ident.text, "sum");
}

#[test]
fn a_chosen_starting_name_exposes_the_function() {
    let mut config = config();
    config.start_fn = named("sum_builder");
    let item = function("sum", vec![doc(" Adds."), attr("builder")], vec![]);
    let adapted = done(ctx(same(item), None, config).adapted_fn());
    assert!(matches!(adapted.vis, Visibility::Public));
    assert_eq!(attr_names(&adapted.attrs), ["doc", "allow"]);
    assert_eq!(doc_texts(&adapted.attrs), [" Adds."]);
}

#[test]
fn the_starting_name_must_differ() {
    let mut config = config();
    config.start_fn = named("sum");
    let error = failed(ctx(same(function("sum", vec![], vec![])), None, config).adapted_fn());
    assert!(matches!(&error, Error::StartFnName { name } if name.text == "sum"));
    assert_eq!(
        error.message(),
        "the starting function name must be different from the name \
         of the positional function under the #[builder] attribute"
    );
}

#[test]
fn arguments_become_members() {
    let norm = function(
        "sum",
        vec![],
        vec![receiver(vec![]), typed("a", "Norm", vec![doc(" A.")]), typed("b", "B", vec![])],
    );
    let orig = function(
        "sum",
        vec![],
        vec![receiver(vec![]), typed("a", "Orig", vec![]), typed("b", "B", vec![])],
    );
    let raw = done(ctx(SyntaxVariant { norm, orig }, impl_ctx("T"), config()).raw_members());
    assert_eq!(raw.len(), 2);
    assert_eq!(raw[0].ident.text, "a");
    assert_eq!(show_ty(&raw[0].ty.norm), "Norm");
    assert_eq!(show_ty(&raw[0].ty.orig), "Orig");
    assert_eq!(doc_texts(&raw[0].attrs), [" A."]);
    assert_eq!(raw[1].ident.text, "b");
}

#[test]
fn a_pattern_in_an_argument_is_refused() {
    let split = |text: &str| {
        FnArg::Typed(TypedArg { attrs: vec![], pat: Pat::Other(txt(text)), ty: ty("P") })
    };
    let item = |first: &str| {
        function("sum", vec![], vec![typed("a", "A", vec![]), split(first), split("[z]")])
    };
    let both = SyntaxVariant { norm: item("(x, y)"), orig: item("(x , y)") };
    let error = failed(ctx(both, None, config()).raw_members());
    assert!(matches!(&error, Error::ArgumentPattern { pat: Pat::Other(t) } if text(t) == "(x , y)"));
    assert_eq!(
        error.message(),
        "use a simple `identifier: type` syntax for the function argument; \
         destructuring patterns in arguments aren't supported by the `#[builder]`"
    );
}

#[test]
fn the_receiver_is_kept_with_and_without_self() {
    let item = function("get", vec![], vec![receiver(vec![attr("cfg")])]);
    let assoc = done(ctx(same(item), impl_ctx("Counter"), config()).assoc_method_ctx(normalize));
    let assoc = assoc.unwrap();
    assert_eq!(show_ty(&assoc.self_ty), "Counter");
    let receiver = assoc.receiver.unwrap();
    assert_eq!(show_ty(&receiver.with_self_keyword.ty), "&Self");
    assert_eq!(text(&receiver.with_self_keyword.written), "&self");
    assert_eq!(show_ty(&receiver.without_self_keyword), "&Counter");
}

#[test]
fn no_receiver_and_no_impl_block() {
    let item = || same(function("get", vec![], vec![typed("a", "A", vec![])]));
    let inside = done(ctx(item(), impl_ctx("Counter"), config()).assoc_method_ctx(normalize));
    assert!(inside.unwrap().receiver.is_none());
    assert!(done(ctx(item(), None, config()).assoc_method_ctx(normalize)).is_none());
}

#[test]
fn builder_attributes_on_the_receiver_are_refused() {
    let marked = || {
        let attrs = vec![attr("cfg"), list("builder", "1"), list("builder", "2")];
        same(function("get", vec![], vec![receiver(attrs)]))
    };
    let inside = ctx(marked(), impl_ctx("Counter"), config());
    let error = failed(inside.assoc_method_ctx(normalize));
    assert_eq!(error.message(), "#[builder] attributes on the receiver are not supported");
    let first = match &error {
        Error::BuilderAttrOnReceiver { attr: Attribute { meta: Meta::List { tokens, .. }, .. } } => {
            text(tokens)
        }
        _ => panic!("another error was expected"),
    };
    assert_eq!(first, "1");
    let free = ctx(marked(), None, config());
    assert!(done(free.assoc_method_ctx(normalize)).is_none());
    let error = failed(free.assoc_method_receiver_ctx_params(normalize));
    assert!(matches!(error, Error::BuilderAttrOnReceiver { .. }));
}

#[test]
fn a_method_becomes_a_builder() {
    let mut item = function(
        "add_all",
        vec![doc(" Adds."), attr("must_use"), list("expect", "unused")],
        vec![receiver(vec![]), typed("a", "u32", vec![]), typed("b", "u32", vec![])],
    );
    item.sig.asyncness = true;
    item.sig.generics.params = params(&["'f", "F", "const N"]);
    let built = done(build(ctx(same(item), impl_ctx("Counter"), config())));
    assert_eq!(*built.namespace, 7);
    assert_eq!(built.members, ["a", "b"]);
    assert_eq!(attr_names(&built.allow_attrs), ["allow", "allow"]);
    assert_eq!(param_names(&built.generics.params), ["'s", "'f", "S", "F", "const N"]);
    assert_eq!(built.builder_type.ident.text, "CounterAddAllBuilder");
    assert_eq!(built.start_fn.ident.text, "add_all");
    assert!(matches!(built.orig_item_vis, Visibility::Public));
    let finish = &built.finish_fn;
    assert_eq!(finish.ident.text, "call");
    assert!(finish.asyncness && !finish.unsafety);
    assert_eq!(attr_names(&finish.special_attrs), ["must_use"]);
    assert_eq!(doc_texts(&finish.attrs), [" Finishes building and performs the requested action."]);
    assert_eq!(text(&finish.output), "-> u32");
    assert_eq!(finish.body.sig.ident.text, "private_add_all");
    let vars = BuilderGenCtx {
        receiver_field: Some(ident("__receiver")),
        member_vars: vec![ident("a"), ident("b")],
    };
    assert_eq!(
        code(&finish.body.generate(&vars)),
        "self.__receiver.private_add_all::<F,N,>(a,b).await"
    );
}

#[test]
fn new_becomes_a_builder_like_that_of_a_struct() {
    let item = function("new", vec![], vec![typed("a", "u32", vec![])]);
    let built = done(build(ctx(same(item), impl_ctx("Counter"), config())));
    assert_eq!(built.start_fn.ident.text, "builder");
    assert_eq!(built.finish_fn.ident.text, "build");
    assert_eq!(built.builder_type.ident.text, "CounterBuilder");
    let vars = BuilderGenCtx { receiver_field: None, member_vars: vec![ident("a")] };
    assert_eq!(code(&built.finish_fn.body.generate(&vars)), "<Counter>::private_new::<>(a)");
}

#[test]
fn an_exposed_function_is_called_by_its_name() {
    let mut config = config();
    config.start_fn = named("start");
    config.finish_fn = named("finish");
    config.builder_type = named("Sums");
    config.finish_fn.docs = Some(vec![doc(" Done.")]);
    let built = done(build(ctx(same(function("sum", vec![], vec![])), None, config)));
    assert_eq!(built.start_fn.ident.text, "start");
    assert_eq!(built.finish_fn.ident.text, "finish");
    assert_eq!(built.builder_type.ident.text, "Sums");
    assert_eq!(doc_texts(&built.finish_fn.attrs), [" Done."]);
    assert!(built.assoc_method_ctx.is_none());
    let vars = BuilderGenCtx { receiver_field: None, member_vars: vec![] };
    assert_eq!(code(&built.finish_fn.body.generate(&vars)), "sum::<>()");
}

#[test]
fn complaints_come_in_order() {
    let bad_pattern = || FnArg::Typed(TypedArg {
        attrs: vec![],
        pat: Pat::Other(txt("_")),
        ty: ty("P"),
    });
    let twice = || vec![attr("must_use"), attr("must_use")];
    let own_name = || {
        let mut config = config();
        config.start_fn = named("get");
        config
    };
    let refuse = |_: &TopLevelConfig, _: Vec<RawMember>| -> Result<Vec<u8>, Error> {
        Err(Error::Reported { message: "members".to_string(), at: txt("get") })
    };
    let accept = |_: &TopLevelConfig, _: Vec<RawMember>| -> Result<Vec<u8>, Error> { Ok(vec![]) };

    let inputs = vec![receiver(vec![attr("builder")]), bad_pattern()];
    let all = ctx(same(function("get", twice(), inputs)), impl_ctx("T"), own_name());
    let error = failed(all.into_builder_gen_ctx(normalize, privatize, refuse));
    assert!(matches!(error, Error::BuilderAttrOnReceiver { .. }));

    let pattern = ctx(same(function("get", twice(), vec![bad_pattern()])), None, own_name());
    let error = failed(pattern.into_builder_gen_ctx(normalize, privatize, refuse));
    assert!(matches!(error, Error::ArgumentPattern { .. }));

    let members = ctx(same(function("get", twice(), vec![])), None, own_name());
    let error = failed(members.into_builder_gen_ctx(normalize, privatize, refuse));
    assert_eq!(error.message(), "members");

    let name = ctx(same(function("get", twice(), vec![])), None, own_name());
    let error = failed(name.into_builder_gen_ctx(normalize, privatize, accept));
    assert!(matches!(error, Error::StartFnName { .. }));

    let attrs = ctx(same(function("get", twice(), vec![])), None, config());
    let error = failed(attrs.into_builder_gen_ctx(normalize, privatize, accept));
    assert!(matches!(error, Error::RepeatedAttr { .. }));
}

#[test]
fn a_call_passes_no_lifetimes() {
    let mut item = function("sum", vec![], vec![]);
    item.sig.generics.params = params(&["'a", "A", "'b", "const N"]);
    let body = FnCallBody { sig: item.sig, impl_ctx: None };
    let vars = BuilderGenCtx {
        receiver_field: None,
        member_vars: vec![ident("x"), ident("y"), ident("z")],
    };
    assert_eq!(code(&body.generate(&vars)), "sum::<A,N,>(x,y,z)");
}
