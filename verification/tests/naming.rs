use fn_builder::naming::{
    builder_type_ident, finish_fn_ident, snake_to_pascal_case, special_builder_method,
    start_fn_ident,
};
use fn_builder::tokens::Ident;

fn ident(text: &str) -> Ident {
    Ident::new(text, None)
}

fn pascal(text: &str) -> String {
    snake_to_pascal_case(&ident(text))
}

fn name_of_type(text: &str, in_impl: bool, prefix: Option<&str>) -> String {
    builder_type_ident(None, &ident(text), in_impl, prefix.map(|p| p.to_string())).text
}

#[test]
fn snake_case_becomes_pascal_case() {
    assert_eq!(pascal("greet"), "Greet");
    assert_eq!(pascal("get_user_2fa"), "GetUser2fa");
    assert_eq!(pascal("_private__fn_"), "PrivateFn");
    assert_eq!(pascal("r#type"), "Type");
    assert_eq!(pascal("r"), "R");
    assert_eq!(pascal("aBC"), "ABC");
    assert_eq!(pascal("__"), "");
}

#[test]
fn new_is_started_by_builder_in_an_impl_block_only() {
    assert_eq!(start_fn_ident(None, &ident("new"), true).text, "builder");
    assert_eq!(start_fn_ident(None, &ident("new"), false).text, "new");
    assert_eq!(start_fn_ident(None, &ident("builder"), true).text, "builder");
    assert_eq!(start_fn_ident(None, &ident("sum"), true).text, "sum");
}

#[test]
fn new_and_builder_are_finished_by_build() {
    assert_eq!(finish_fn_ident(None, &ident("new"), true).text, "build");
    assert_eq!(finish_fn_ident(None, &ident("builder"), true).text, "build");
    assert_eq!(finish_fn_ident(None, &ident("sum"), true).text, "call");
    assert_eq!(finish_fn_ident(None, &ident("new"), false).text, "call");
    assert!(special_builder_method(&ident("new"), true));
    assert!(!special_builder_method(&ident("r#new"), true));
}

#[test]
fn the_builder_type_is_called_after_type_and_function() {
    assert_eq!(name_of_type("new", true, Some("Counter")), "CounterBuilder");
    assert_eq!(name_of_type("builder", true, Some("Counter")), "CounterBuilder");
    assert_eq!(name_of_type("add_one", true, Some("Counter")), "CounterAddOneBuilder");
    assert_eq!(name_of_type("add_one", false, None), "AddOneBuilder");
    assert_eq!(name_of_type("new", false, None), "NewBuilder");
    assert_eq!(name_of_type("new", true, None), "Builder");
}

#[test]
fn chosen_names_win() {
    assert_eq!(start_fn_ident(Some(ident("begin")), &ident("new"), true).text, "begin");
    assert_eq!(finish_fn_ident(Some(ident("end")), &ident("new"), true).text, "end");
    let name = builder_type_ident(Some(ident("B")), &ident("new"), true, Some("T".to_string()));
    assert_eq!(name.text, "B");
}
