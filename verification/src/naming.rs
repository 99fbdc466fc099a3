//! The names of the things that are generated for a function.

use crate::tokens::{call_site_ident, Ident, IdentView};
use vstd::prelude::*;
use vstd::string::{StrSliceExecFns, StringExecFns};

verus! {

/// `String::push`: puts the character behind the string.
pub assume_specification[ String::push ](text: &mut String, c: char)
    ensures
        final(text)@ == old(text)@.push(c),
;

/// The text of an identifier without the `r#` of a raw one.
pub open spec fn raw_name(text: Seq<char>) -> Seq<char> {
    if text.len() >= 2 && text[0] == 'r' && text[1] == '#' {
        text.skip(2)
    } else {
        text
    }
}

/// The capital of an ASCII letter. Other characters are left as they are.
pub open spec fn capital(c: char) -> char {
    if 'a' <= c <= 'z' {
        ((c as u8) - 32) as char
    } else {
        c
    }
}

/// `text` with the underscores taken out, and with a capital where a word began: at the start and
/// behind an underscore.
pub open spec fn words_joined(text: Seq<char>) -> Seq<char>
    decreases text.len(),
{
    if text.len() == 0 {
        Seq::empty()
    } else {
        let before = text.drop_last();
        if text.last() == '_' {
            words_joined(before)
        } else if before.len() == 0 || before.last() == '_' {
            words_joined(before).push(capital(text.last()))
        } else {
            words_joined(before).push(text.last())
        }
    }
}

/// A name in `snake_case`, written in `PascalCase`.
pub open spec fn pascal_case(text: Seq<char>) -> Seq<char> {
    words_joined(raw_name(text))
}

/// Whether a function plays the part of the builder that can be derived for a struct: a method
/// called `new` or `builder`.
pub open spec fn is_special_builder_method(fn_ident: IdentView, in_impl: bool) -> bool {
    in_impl && (fn_ident.text == "new"@ || fn_ident.text == "builder"@)
}

/// The name of the function that starts the building. A method called `new` is started by
/// `builder`, any other function goes by its own name, unless a name was chosen.
pub open spec fn start_fn_name(
    chosen: Option<IdentView>,
    fn_ident: IdentView,
    in_impl: bool,
) -> IdentView {
    match chosen {
        Some(name) => name,
        None => if in_impl && fn_ident.text == "new"@ {
            IdentView { text: "builder"@, span: fn_ident.span }
        } else {
            fn_ident
        },
    }
}

/// The name of the function that finishes the building.
pub open spec fn finish_fn_name(
    chosen: Option<IdentView>,
    fn_ident: IdentView,
    in_impl: bool,
) -> IdentView {
    match chosen {
        Some(name) => name,
        None => if is_special_builder_method(fn_ident, in_impl) {
            call_site_ident("build"@)
        } else {
            call_site_ident("call"@)
        },
    }
}

/// The name of the builder type: the name of the `Self` type and of the function in front of
/// `Builder`. The function's name is left out for a method called `new` or `builder`.
pub open spec fn builder_type_name(
    chosen: Option<IdentView>,
    fn_ident: IdentView,
    in_impl: bool,
    self_ty_prefix: Option<Seq<char>>,
) -> IdentView {
    match chosen {
        Some(name) => name,
        None => {
            let prefix = match self_ty_prefix {
                Some(prefix) => prefix,
                None => Seq::empty(),
            };
            if is_special_builder_method(fn_ident, in_impl) {
                call_site_ident(prefix + "Builder"@)
            } else {
                call_site_ident(prefix + pascal_case(fn_ident.text) + "Builder"@)
            }
        },
    }
}

/// A name in `snake_case`, written in `PascalCase`.
pub fn snake_to_pascal_case(ident: &Ident) -> (text: String)
    ensures
        text@ == pascal_case(ident.deep_view().text),
{
    let source = ident.text.as_str();
    let len: usize = source.unicode_len();
    let raw = len >= 2 && source.get_char(0) == 'r' && source.get_char(1) == '#';
    let start: usize = if raw { 2 } else { 0 };
    let ghost name = raw_name(source@);
    assert(name =~= source@.skip(start as int));
    let mut text = String::new();
    let mut capitalize = true;
    assert(text@ =~= words_joined(name.take(0)));
    for i in start..len
        invariant
            start <= len == source@.len(),
            name == source@.skip(start as int),
            text@ == words_joined(name.take(i - start)),
            capitalize == (i == start || name[i - start - 1] == '_'),
    {
        let c = source.get_char(i);
        assert(name.take(i - start + 1).drop_last() =~= name.take(i - start));
        assert(name.take(i - start + 1).last() == c);
        if c == '_' {
            capitalize = true;
        } else if capitalize {
            text.push(to_capital(c));
            capitalize = false;
        } else {
            text.push(c);
        }
    }
    assert(name.take(len - start) =~= name);
    text
}

fn to_capital(c: char) -> (res: char)
    ensures
        res == capital(c),
{
    if 'a' <= c && c <= 'z' {
        (c as u8 - 32) as char
    } else {
        c
    }
}

/// Whether a function plays the part of the builder that can be derived for a struct.
pub fn special_builder_method(fn_ident: &Ident, in_impl: bool) -> (special: bool)
    ensures
        special == is_special_builder_method(fn_ident.deep_view(), in_impl),
{
    in_impl && (fn_ident.is("new") || fn_ident.is("builder"))
}

/// The name of the function that starts the building.
pub fn start_fn_ident(chosen: Option<Ident>, fn_ident: &Ident, in_impl: bool) -> (ident: Ident)
    ensures
        ident.deep_view() == start_fn_name(chosen.deep_view(), fn_ident.deep_view(), in_impl),
{
    match chosen {
        Some(name) => name,
        None => {
            if in_impl && fn_ident.is("new") {
                Ident::new("builder", fn_ident.span)
            } else {
                fn_ident.clone()
            }
        },
    }
}

/// The name of the function that finishes the building.
pub fn finish_fn_ident(chosen: Option<Ident>, fn_ident: &Ident, in_impl: bool) -> (ident: Ident)
    ensures
        ident.deep_view() == finish_fn_name(chosen.deep_view(), fn_ident.deep_view(), in_impl),
{
    match chosen {
        Some(name) => name,
        None => {
            if special_builder_method(fn_ident, in_impl) {
                Ident::new("build", None)
            } else {
                Ident::new("call", None)
            }
        },
    }
}

/// The name of the builder type.
pub fn builder_type_ident(
    chosen: Option<Ident>,
    fn_ident: &Ident,
    in_impl: bool,
    self_ty_prefix: Option<String>,
) -> (ident: Ident)
    ensures
        ident.deep_view() == builder_type_name(
            chosen.deep_view(),
            fn_ident.deep_view(),
            in_impl,
            self_ty_prefix.deep_view(),
        ),
{
    if let Some(name) = chosen {
        return name;
    }
    let mut text = match self_ty_prefix {
        Some(prefix) => prefix,
        None => String::new(),
    };
    if !special_builder_method(fn_ident, in_impl) {
        text.append(snake_to_pascal_case(fn_ident).as_str());
    }
    text.append("Builder");
    Ident { text, span: None }
}

/// A method called `new` gets a builder with the names that are usual for a struct: it is started
/// by `builder`, finished by `build`, and called after the `Self` type.
pub proof fn law_new_is_like_a_struct(fn_ident: IdentView, prefix: Seq<char>)
    requires
        fn_ident.text == "new"@,
    ensures
        start_fn_name(None, fn_ident, true).text == "builder"@,
        finish_fn_name(None, fn_ident, true).text == "build"@,
        builder_type_name(None, fn_ident, true, Some(prefix)).text == prefix + "Builder"@,
{
}

/// The methods `new` and `builder` get builders with the same names.
pub proof fn law_new_is_like_builder(
    new: IdentView,
    builder: IdentView,
    self_ty_prefix: Option<Seq<char>>,
)
    requires
        new.text == "new"@,
        builder.text == "builder"@,
    ensures
        start_fn_name(None, new, true).text == start_fn_name(None, builder, true).text,
        finish_fn_name(None, new, true) == finish_fn_name(None, builder, true),
        builder_type_name(None, new, true, self_ty_prefix) == builder_type_name(
            None,
            builder,
            true,
            self_ty_prefix,
        ),
{
    lemma_new_is_not_builder();
}

proof fn lemma_new_is_not_builder()
    ensures
        "new"@ != "builder"@,
{
    reveal_strlit("new");
    reveal_strlit("builder");
    assert("new"@.len() != "builder"@.len());
}

/// Outside of an impl block no name is special: a function is started by its own name and finished
/// by `call`.
pub proof fn law_free_function_names(fn_ident: IdentView)
    ensures
        start_fn_name(None, fn_ident, false) == fn_ident,
        finish_fn_name(None, fn_ident, false).text == "call"@,
        builder_type_name(None, fn_ident, false, None).text == pascal_case(fn_ident.text)
            + "Builder"@,
{
    assert(Seq::<char>::empty() + pascal_case(fn_ident.text) =~= pascal_case(fn_ident.text));
}

/// A name that was chosen is used as it is.
pub proof fn law_chosen_names(
    chosen: IdentView,
    fn_ident: IdentView,
    in_impl: bool,
    self_ty_prefix: Option<Seq<char>>,
)
    ensures
        start_fn_name(Some(chosen), fn_ident, in_impl) == chosen,
        finish_fn_name(Some(chosen), fn_ident, in_impl) == chosen,
        builder_type_name(Some(chosen), fn_ident, in_impl, self_ty_prefix) == chosen,
{
}

/// A name in `PascalCase` has no underscores.
pub proof fn law_pascal_case_has_no_underscores(text: Seq<char>)
    ensures
        !pascal_case(text).contains('_'),
{
    lemma_words_joined(raw_name(text));
}

proof fn lemma_words_joined(text: Seq<char>)
    ensures
        !words_joined(text).contains('_'),
        forall|i: int|
            0 <= i < words_joined(text).len() ==> #[trigger] words_joined(text)[i] != '_',
    decreases text.len(),
{
    if text.len() > 0 {
        lemma_words_joined(text.drop_last());
        let last = text.last();
        assert(last != '_' ==> capital(last) != '_');
    }
}

/// The capital of a lower case ASCII letter stands the fixed distance of the two alphabets before
/// it; every other character is its own capital.
pub proof fn law_capital(c: char)
    ensures
        'a' <= c <= 'z' ==> capital(c) as int - 'A' as int == c as int - 'a' as int,
        !('a' <= c <= 'z') ==> capital(c) == c,
{
}

/// Words are joined one by one: what stands before an underscore and what stands behind it do not
/// matter to each other.
pub proof fn law_words_one_by_one(first: Seq<char>, second: Seq<char>)
    ensures
        words_joined(Seq::empty()) == Seq::<char>::empty(),
        words_joined(first.push('_') + second) == words_joined(first) + words_joined(second),
    decreases second.len(),
{
    let both = first.push('_') + second;
    if second.len() == 0 {
        assert(both =~= first.push('_'));
        assert(both.drop_last() =~= first);
        assert(words_joined(first) + words_joined(second) =~= words_joined(first));
    } else {
        let before = second.drop_last();
        law_words_one_by_one(first, before);
        assert(both.drop_last() =~= first.push('_') + before);
        assert(both.last() == second.last());
        if before.len() == 0 {
            assert(both.drop_last() =~= first.push('_'));
            assert(both.drop_last().last() == '_');
        } else {
            assert(both.drop_last().last() == before.last());
        }
        assert(words_joined(both) =~= words_joined(first) + words_joined(second));
    }
}

/// A word, which has no underscore, is only changed in its first letter.
pub proof fn law_single_word(word: Seq<char>)
    requires
        word.len() > 0,
        !word.contains('_'),
    ensures
        words_joined(word) == seq![capital(word[0])] + word.skip(1),
    decreases word.len(),
{
    let before = word.drop_last();
    assert(word[word.len() - 1] != '_');
    if before.len() == 0 {
        assert(words_joined(before) =~= Seq::empty());
        assert(words_joined(word) =~= seq![capital(word[0])] + word.skip(1));
    } else {
        assert forall|i: int| 0 <= i < before.len() implies before[i] != '_' by {
            assert(word[i] != '_');
        }
        assert(word[before.len() - 1] != '_');
        law_single_word(before);
        assert(words_joined(word) =~= seq![capital(word[0])] + word.skip(1));
    }
}

/// The mark of a raw identifier does not count, and nothing but that mark is left out.
pub proof fn law_pascal_case_of_raw(text: Seq<char>)
    ensures
        pascal_case(seq!['r', '#'] + text) == words_joined(text),
        !(seq!['r', '#'].is_prefix_of(text)) ==> pascal_case(text) == words_joined(text),
{
    let raw = seq!['r', '#'] + text;
    assert(raw.skip(2) =~= text);
    if text.len() >= 2 && text[0] == 'r' && text[1] == '#' {
        assert(seq!['r', '#'] =~= text.subrange(0, 2));
    }
}

/// The names for a method called `new`, or `builder`. They do not depend on its name but for the
/// place of the starting function's name.
pub proof fn law_special_names(fn_ident: IdentView, self_ty_prefix: Option<Seq<char>>)
    requires
        fn_ident.text == "new"@ || fn_ident.text == "builder"@,
    ensures
        is_special_builder_method(fn_ident, true),
        start_fn_name(None, fn_ident, true) == (IdentView {
            text: "builder"@,
            span: fn_ident.span,
        }),
        finish_fn_name(None, fn_ident, true) == (IdentView { text: "build"@, span: None }),
        self_ty_prefix matches Some(prefix) ==> builder_type_name(
            None,
            fn_ident,
            true,
            self_ty_prefix,
        ) == (IdentView { text: prefix + "Builder"@, span: None }),
        self_ty_prefix is None ==> builder_type_name(None, fn_ident, true, self_ty_prefix) == (
        IdentView { text: "Builder"@, span: None }),
{
    lemma_new_is_not_builder();
    assert(Seq::<char>::empty() + "Builder"@ =~= "Builder"@);
}

/// The names for any other function, and for a function outside of an impl block whatever it is
/// called.
pub proof fn law_ordinary_names(
    fn_ident: IdentView,
    in_impl: bool,
    self_ty_prefix: Option<Seq<char>>,
)
    requires
        !in_impl || (fn_ident.text != "new"@ && fn_ident.text != "builder"@),
    ensures
        !is_special_builder_method(fn_ident, in_impl),
        start_fn_name(None, fn_ident, in_impl) == fn_ident,
        finish_fn_name(None, fn_ident, in_impl) == (IdentView { text: "call"@, span: None }),
        self_ty_prefix matches Some(prefix) ==> builder_type_name(
            None,
            fn_ident,
            in_impl,
            self_ty_prefix,
        ) == (IdentView { text: prefix + pascal_case(fn_ident.text) + "Builder"@, span: None }),
        self_ty_prefix is None ==> builder_type_name(None, fn_ident, in_impl, self_ty_prefix) == (
        IdentView { text: pascal_case(fn_ident.text) + "Builder"@, span: None }),
{
    assert(Seq::<char>::empty() + pascal_case(fn_ident.text) =~= pascal_case(fn_ident.text));
}

} // verus!
