use fn_builder::adapted::adapt_item;
use fn_builder::attrs::{
    docs_of, extend_allows, without_builder, without_docs, without_docs_and_builder, AttrStyle,
    Attribute, Delimiter, Expr, Meta, Path, PathSegment,
};
use fn_builder::error::Error;
use fn_builder::item::{
    FnArg, ItemFn, ItemGenerics, Pat, Signature, Type, TypedArg, Visibility,
};
use fn_builder::propagated::{find_propagated_attr, get_propagated_attrs};
use fn_builder::tokens::{Ident, Tokens};
use proc_macro2::TokenStream;
use syn::punctuated::Punctuated;

fn text(tokens: &Tokens) -> String {
    match tokens {
        Tokens::Source(stream) => stream.to_string(),
        Tokens::Text(text) => text.clone(),
    }
}

fn show_path(path: &Path) -> String {
    let mut out = String::new();
    for (i, segment) in path.segments.iter().enumerate() {
        if i > 0 || path.leading_colon {
            out += "::";
        }
        out += &segment.ident.text;
        if let Some(arguments) = &segment.arguments {
            out += &text(arguments);
        }
    }
    out
}

fn show(attr: &Attribute) -> String {
    let open = if attr.style == AttrStyle::Inner { "#![" } else { "#[" };
    let body = match &attr.meta {
        Meta::Path(path) => show_path(path),
        Meta::List { path, tokens, .. } => format!("{}({})", show_path(path), text(tokens)),
        Meta::NameValue { path, value } => match value {
            Expr::Str(value) => format!("{} = {:?}", show_path(path), value),
            Expr::Other(value) => format!("{} = {}", show_path(path), text(value)),
        },
    };
    format!("{open}{body}]")
}

fn show_all(attrs: &[Attribute]) -> Vec<String> {
    attrs.iter().map(show).collect()
}

fn word(name: &str) -> Attribute {
    Attribute { style: AttrStyle::Outer, meta: Meta::Path(Path::from_ident(name)) }
}

fn list(name: &str, tokens: &str) -> Attribute {
    let meta = Meta::List {
        path: Path::from_ident(name),
        delimiter: Delimiter::Paren,
        tokens: Tokens::Text(tokens.to_string()),
    };
    Attribute { style: AttrStyle::Outer, meta }
}

fn doc(value: &str) -> Attribute {
    let meta = Meta::NameValue { path: Path::from_ident("doc"), value: Expr::Str(value.to_string()) };
    Attribute { style: AttrStyle::Outer, meta }
}

fn inner(attr: Attribute) -> Attribute {
    Attribute { style: AttrStyle::Inner, meta: attr.meta }
}

fn mixed() -> Vec<Attribute> {
    vec![doc(" one"), word("inline"), list("builder", "x"), list("doc", "hidden"), doc(" two")]
}

#[test]
fn a_path_is_an_ident_only_without_anything_else() {
    let plain = Path::from_ident("doc");
    assert!(plain.is_ident("doc"));
    assert!(!plain.is_ident("docs"));
    let colon = Path { leading_colon: true, segments: Path::from_ident("doc").segments };
    assert!(!colon.is_ident("doc"));
    assert!(!Path::from_ident("a").join("doc").is_ident("doc"));
    let segment = PathSegment {
        ident: Ident::new("doc", None),
        arguments: Some(Tokens::Text("<T>".to_string())),
    };
    assert!(!Path { leading_colon: false, segments: vec![segment] }.is_ident("doc"));
    assert!(!Path { leading_colon: false, segments: vec![] }.is_ident("doc"));
}

#[test]
fn a_doc_comment_has_the_name_doc_and_a_value() {
    assert!(doc("x").is_doc());
    assert!(matches!(doc("x").as_doc(), Some(Expr::Str(value)) if value == "x"));
    assert!(!list("doc", "hidden").is_doc());
    assert!(list("doc", "hidden").as_doc().is_none());
    assert!(!word("doc").is_doc());
    let path = Attribute {
        style: AttrStyle::Outer,
        meta: Meta::NameValue { path: Path::from_ident("path"), value: Expr::Str("x".to_string()) },
    };
    assert!(!path.is_doc());
}

#[test]
fn attributes_are_filtered_in_order() {
    assert_eq!(show_all(&docs_of(&mixed())), ["#[doc = \" one\"]", "#[doc = \" two\"]"]);
    assert_eq!(show_all(&without_docs(&mixed())), ["#[inline]", "#[builder(x)]", "#[doc(hidden)]"]);
    assert_eq!(
        show_all(&without_builder(&mixed())),
        ["#[doc = \" one\"]", "#[inline]", "#[doc(hidden)]", "#[doc = \" two\"]"]
    );
    assert_eq!(show_all(&without_docs_and_builder(&mixed())), ["#[inline]", "#[doc(hidden)]"]);
}

#[test]
fn lint_suppressions_become_allows() {
    let inherited = vec![list("allow", "a")];
    let attrs = vec![list("expect", "b"), word("inline"), inner(list("allow", "c")), list("deny", "d")];
    let allows = extend_allows(inherited, &attrs);
    assert_eq!(show_all(&allows), ["#[allow(a)]", "#[allow(b)]", "#![allow(c)]"]);
    assert_eq!(show_all(&extend_allows(vec![], &allows)), show_all(&allows));
    assert!(word("inline").to_allow().is_none());
}

#[test]
fn an_attribute_that_is_passed_on_is_found() {
    let attrs = vec![doc("x"), list("must_use", "m")];
    let found = find_propagated_attr(&attrs, "must_use").ok().unwrap().unwrap();
    assert_eq!(show(&found), "#[must_use(m)]");
    assert!(find_propagated_attr(&attrs, "track_caller").ok().unwrap().is_none());
}

#[test]
fn attributes_are_passed_on_in_a_fixed_order() {
    let attrs = vec![word("track_caller"), word("inline"), word("must_use")];
    let found = get_propagated_attrs(&attrs).ok().unwrap();
    assert_eq!(show_all(&found), ["#[must_use]", "#[track_caller]"]);
    let again = get_propagated_attrs(&found).ok().unwrap();
    assert_eq!(show_all(&again), show_all(&found));
    assert!(get_propagated_attrs(&vec![]).ok().unwrap().is_empty());
}

#[test]
fn a_repeated_attribute_is_refused() {
    let attrs = vec![word("must_use"), list("must_use", "2"), list("must_use", "3")];
    let error = get_propagated_attrs(&attrs).err().unwrap();
    assert_eq!(
        error.message(),
        "found multiple #[must_use], but bon only works with exactly one or zero."
    );
    assert!(matches!(&error, Error::RepeatedAttr { second, .. } if show(second) == "#[must_use(2)]"));
}

#[test]
fn a_repeated_attribute_is_refused_before_an_inner_one() {
    let attrs = vec![inner(word("must_use")), word("must_use")];
    let error = get_propagated_attrs(&attrs).err().unwrap();
    assert!(matches!(error, Error::RepeatedAttr { .. }));
}

#[test]
fn an_inner_attribute_is_refused() {
    let attrs = vec![inner(word("track_caller"))];
    let error = get_propagated_attrs(&attrs).err().unwrap();
    assert_eq!(
        error.message(),
        "#[track_caller] attribute must be placed on the function itself, not inside it."
    );
    assert!(matches!(&error, Error::InnerAttr { attr, .. } if show(attr) == "#![track_caller]"));
}

#[test]
fn the_first_name_decides_on_the_complaint() {
    let attrs = vec![inner(word("track_caller")), inner(word("must_use"))];
    let error = get_propagated_attrs(&attrs).err().unwrap();
    assert!(matches!(&error, Error::InnerAttr { needle, .. } if needle == "must_use"));
}

#[test]
fn source_tokens_are_cloned_whole() {
    let stream: TokenStream = "a :: b < 'c >".parse().unwrap();
    let tokens = Tokens::Source(stream.clone());
    assert_eq!(text(&tokens.clone()), stream.to_string());
}

fn item() -> ItemFn {
    let generics = ItemGenerics { params: Punctuated::new(), where_clause: None };
    let sig = Signature {
        constness: false,
        asyncness: false,
        unsafety: false,
        abi: None,
        ident: Ident::new("sum", None),
        generics,
        inputs: vec![],
        variadic: None,
        output: Tokens::Text(String::new()),
    };
    ItemFn { attrs: mixed(), vis: Visibility::Public, sig, block: Tokens::Text("{ 1 }".to_string()) }
}

#[test]
fn a_hidden_function_loses_its_docs_and_visibility() {
    let adapted = adapt_item(&item(), false, &Path::from_ident("bon"));
    assert!(matches!(adapted.vis, Visibility::Inherited));
    assert_eq!(
        show_all(&adapted.attrs),
        [
            "#[inline]",
            "#[doc(hidden)]",
            "#[doc(hidden)]",
            "#[bon::__::__privatize]",
            "#[allow(clippy::too_many_arguments, clippy::fn_params_excessive_bools,)]",
        ]
    );
    assert_eq!(adapted.sig.ident.text, "sum");
    assert_eq!(text(&adapted.block), "{ 1 }");
}

#[test]
fn an_exposed_function_keeps_its_docs_and_visibility() {
    let adapted = adapt_item(&item(), true, &Path::from_ident("bon"));
    assert!(matches!(adapted.vis, Visibility::Public));
    assert_eq!(
        show_all(&adapted.attrs),
        [
            "#[doc = \" one\"]",
            "#[inline]",
            "#[doc(hidden)]",
            "#[doc = \" two\"]",
            "#[allow(clippy::too_many_arguments, clippy::fn_params_excessive_bools,)]",
        ]
    );
}

#[test]
fn adapting_the_arguments_again_changes_nothing() {
    let mut function = item();
    let pat = Pat::Other(Tokens::Text("_".to_string()));
    let ty = Type::Other(Tokens::Text("u8".to_string()));
    function.sig.inputs = vec![FnArg::Typed(TypedArg { attrs: mixed(), pat, ty })];
    let arg_attrs = |function: &ItemFn| match &function.sig.inputs[0] {
        FnArg::Typed(arg) => show_all(&arg.attrs),
        FnArg::Receiver(_) => vec![],
    };
    let once = adapt_item(&function, false, &Path::from_ident("bon"));
    assert_eq!(arg_attrs(&once), ["#[inline]", "#[doc(hidden)]"]);
    let twice = adapt_item(&once, false, &Path::from_ident("bon"));
    assert_eq!(arg_attrs(&twice), arg_attrs(&once));
}
