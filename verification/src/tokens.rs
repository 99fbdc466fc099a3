//! Names, and pieces of source text that are carried along without being looked into.

use proc_macro2::Span;
use proc_macro2::TokenStream;
use vstd::prelude::*;

verus! {

/// `proc_macro2::TokenStream`, a sequence of tokens with their places in the source.
#[verifier::external_type_specification]
#[verifier::external_body]
pub struct ExTokenStream(proc_macro2::TokenStream);

/// `proc_macro2::Span`, a region of source code.
#[verifier::external_type_specification]
#[verifier::external_body]
pub struct ExSpan(proc_macro2::Span);

/// `TokenStream::clone`: the copy is the same stream.
pub assume_specification[ <TokenStream as Clone>::clone ](stream: &TokenStream) -> (copy: TokenStream)
    ensures
        copy == *stream,
;

/// Tokens that nothing here reads: either a part of the source, or code written out as text.
pub enum Tokens {
    Source(TokenStream),
    Text(String),
}

/// What [`Tokens`] stand for.
pub enum TokensView {
    Source(TokenStream),
    Text(Seq<char>),
}

impl DeepView for Tokens {
    type V = TokensView;

    open spec fn deep_view(&self) -> TokensView {
        match self {
            Tokens::Source(stream) => TokensView::Source(*stream),
            Tokens::Text(text) => TokensView::Text(text@),
        }
    }
}

impl Clone for Tokens {
    fn clone(&self) -> (copy: Self)
        ensures
            copy.deep_view() == self.deep_view(),
    {
        match self {
            Tokens::Source(stream) => Tokens::Source(stream.clone()),
            Tokens::Text(text) => Tokens::Text(text.clone()),
        }
    }
}

/// A name together with the place it was written at. A raw identifier keeps its `r#`.
///
/// Without a span the name belongs to the place where the macro is called.
pub struct Ident {
    pub text: String,
    pub span: Option<Span>,
}

/// What an [`Ident`] stands for.
#[verifier::ext_equal]
pub struct IdentView {
    pub text: Seq<char>,
    pub span: Option<Span>,
}

/// The identifier `text` at the place where the macro is called.
pub open spec fn call_site_ident(text: Seq<char>) -> IdentView {
    IdentView { text, span: None }
}

impl DeepView for Ident {
    type V = IdentView;

    open spec fn deep_view(&self) -> IdentView {
        IdentView { text: self.text@, span: self.span }
    }
}

impl Clone for Ident {
    fn clone(&self) -> (copy: Self)
        ensures
            copy.deep_view() == self.deep_view(),
    {
        Ident { text: self.text.clone(), span: self.span }
    }
}

impl Ident {
    /// The name `text`, written at `span`.
    pub fn new(text: &str, span: Option<Span>) -> (ident: Self)
        ensures
            ident.deep_view() == (IdentView { text: text@, span }),
    {
        Ident { text: text.to_string(), span }
    }

    /// Whether this is the name `text`, wherever it was written.
    pub fn is(&self, text: &str) -> (same: bool)
        ensures
            same == (self.deep_view().text == text@),
    {
        self.text == text.to_string()
    }

    /// Whether both are the same name, wherever they were written.
    pub fn same_name(&self, other: &Ident) -> (same: bool)
        ensures
            same == (self.deep_view().text == other.deep_view().text),
    {
        self.text == other.text
    }
}

/// A name stands for its text, mark of a raw identifier included, and its place. Tokens stand for
/// themselves.
pub proof fn law_token_views(ident: Ident, stream: TokenStream, text: String, name: Seq<char>)
    ensures
        ident.deep_view().text == ident.text@,
        ident.deep_view().span == ident.span,
        Tokens::Source(stream).deep_view() == TokensView::Source(stream),
        Tokens::Text(text).deep_view() == TokensView::Text(text@),
        call_site_ident(name).text == name,
        call_site_ident(name).span is None,
{
}

} // verus!
