//! What can be wrong with a function that a builder is asked for.

use crate::attrs::{Attribute, AttributeView};
use crate::item::{Pat, PatView};
use crate::tokens::{Ident, IdentView, Tokens, TokensView};
use vstd::prelude::*;
use vstd::string::StringExecFns;

verus! {

/// A complaint, together with the part of the source it points at.
pub enum Error {
    /// The `self` argument carries a `builder` attribute.
    BuilderAttrOnReceiver { attr: Attribute },
    /// The starting function was given the name of the function itself.
    StartFnName { name: Ident },
    /// An argument is taken apart by a pattern.
    ArgumentPattern { pat: Pat },
    /// An attribute that is passed on occurs more than once.
    RepeatedAttr { second: Attribute, needle: String },
    /// An attribute that is passed on stands inside the function.
    InnerAttr { attr: Attribute, needle: String },
    /// A complaint of a later stage.
    Reported { message: String, at: Tokens },
}

/// What an [`Error`] stands for.
pub enum ErrorView {
    BuilderAttrOnReceiver { attr: AttributeView },
    StartFnName { name: IdentView },
    ArgumentPattern { pat: PatView },
    RepeatedAttr { second: AttributeView, needle: Seq<char> },
    InnerAttr { attr: AttributeView, needle: Seq<char> },
    Reported { message: Seq<char>, at: TokensView },
}

impl DeepView for Error {
    type V = ErrorView;

    open spec fn deep_view(&self) -> ErrorView {
        match self {
            Error::BuilderAttrOnReceiver { attr } => ErrorView::BuilderAttrOnReceiver {
                attr: attr.deep_view(),
            },
            Error::StartFnName { name } => ErrorView::StartFnName { name: name.deep_view() },
            Error::ArgumentPattern { pat } => ErrorView::ArgumentPattern { pat: pat.deep_view() },
            Error::RepeatedAttr { second, needle } => ErrorView::RepeatedAttr {
                second: second.deep_view(),
                needle: needle@,
            },
            Error::InnerAttr { attr, needle } => ErrorView::InnerAttr {
                attr: attr.deep_view(),
                needle: needle@,
            },
            Error::Reported { message, at } => ErrorView::Reported {
                message: message@,
                at: at.deep_view(),
            },
        }
    }
}

/// What the outcome of a step stands for.
pub open spec fn outcome<T: DeepView>(result: Result<T, Error>) -> Result<T::V, ErrorView> {
    match result {
        Ok(value) => Ok(value.deep_view()),
        Err(error) => Err(error.deep_view()),
    }
}

impl ErrorView {
    /// The text that is shown.
    pub open spec fn message(self) -> Seq<char> {
        match self {
            ErrorView::BuilderAttrOnReceiver { .. } =>
                "#[builder] attributes on the receiver are not supported"@,
            ErrorView::StartFnName { .. } =>
                "the starting function name must be different from the name of the positional function under the #[builder] attribute"@,
            ErrorView::ArgumentPattern { .. } =>
                "use a simple `identifier: type` syntax for the function argument; destructuring patterns in arguments aren't supported by the `#[builder]`"@,
            ErrorView::RepeatedAttr { needle, .. } => "found multiple #["@ + needle
                + "], but bon only works with exactly one or zero."@,
            ErrorView::InnerAttr { needle, .. } => "#["@ + needle
                + "] attribute must be placed on the function itself, not inside it."@,
            ErrorView::Reported { message, .. } => message,
        }
    }
}

impl Error {
    /// The text that is shown.
    pub fn message(&self) -> (text: String)
        ensures
            text@ == self.deep_view().message(),
    {
        match self {
            Error::BuilderAttrOnReceiver { .. } =>
                "#[builder] attributes on the receiver are not supported".to_string(),
            Error::StartFnName { .. } =>
                "the starting function name must be different from the name of the positional function under the #[builder] attribute".to_string(),
            Error::ArgumentPattern { .. } =>
                "use a simple `identifier: type` syntax for the function argument; destructuring patterns in arguments aren't supported by the `#[builder]`".to_string(),
            Error::RepeatedAttr { needle, .. } => {
                let mut text = "found multiple #[".to_string();
                text.append(needle.as_str());
                text.append("], but bon only works with exactly one or zero.");
                text
            },
            Error::InnerAttr { needle, .. } => {
                let mut text = "#[".to_string();
                text.append(needle.as_str());
                text.append("] attribute must be placed on the function itself, not inside it.");
                text
            },
            Error::Reported { message, .. } => message.clone(),
        }
    }
}

/// The outcome of a step shows the value or the complaint that the step gave.
pub proof fn law_outcome<T: DeepView>(value: T, error: Error)
    ensures
        outcome::<T>(Ok(value)) == Ok::<T::V, ErrorView>(value.deep_view()),
        outcome::<T>(Err(error)) == Err::<T::V, ErrorView>(error.deep_view()),
{
}

/// The text that is shown does not depend on the place that it is about, and names the attribute
/// it is about.
pub proof fn law_messages(
    attr: AttributeView,
    name: IdentView,
    pat: PatView,
    needle: Seq<char>,
    message: Seq<char>,
    at: TokensView,
)
    ensures
        (ErrorView::BuilderAttrOnReceiver { attr }).message()
            == "#[builder] attributes on the receiver are not supported"@,
        (ErrorView::StartFnName { name }).message()
            == "the starting function name must be different from the name of the positional function under the #[builder] attribute"@,
        (ErrorView::ArgumentPattern { pat }).message()
            == "use a simple `identifier: type` syntax for the function argument; destructuring patterns in arguments aren't supported by the `#[builder]`"@,
        (ErrorView::RepeatedAttr { second: attr, needle }).message() == "found multiple #["@ + needle
            + "], but bon only works with exactly one or zero."@,
        (ErrorView::InnerAttr { attr, needle }).message() == "#["@ + needle
            + "] attribute must be placed on the function itself, not inside it."@,
        (ErrorView::Reported { message, at }).message() == message,
{
}

/// A complaint stands for what it is about.
pub proof fn law_error_views(attr: Attribute, name: Ident, pat: Pat, text: String, at: Tokens)
    ensures
        (Error::BuilderAttrOnReceiver { attr }).deep_view() == (ErrorView::BuilderAttrOnReceiver {
            attr: attr.deep_view(),
        }),
        (Error::StartFnName { name }).deep_view() == (ErrorView::StartFnName {
            name: name.deep_view(),
        }),
        (Error::ArgumentPattern { pat }).deep_view() == (ErrorView::ArgumentPattern {
            pat: pat.deep_view(),
        }),
        (Error::RepeatedAttr { second: attr, needle: text }).deep_view() == (
        ErrorView::RepeatedAttr { second: attr.deep_view(), needle: text@ }),
        (Error::InnerAttr { attr, needle: text }).deep_view() == (ErrorView::InnerAttr {
            attr: attr.deep_view(),
            needle: text@,
        }),
        (Error::Reported { message: text, at }).deep_view() == (ErrorView::Reported {
            message: text@,
            at: at.deep_view(),
        }),
{
}

/// The returned text is the one that is shown for what the complaint stands for.
pub proof fn law_returned_message(error: Error, text: String)
    requires
        call_ensures(Error::message, (&error,), text),
    ensures
        error is BuilderAttrOnReceiver ==> text@
            == "#[builder] attributes on the receiver are not supported"@,
        error is StartFnName ==> text@
            == "the starting function name must be different from the name of the positional function under the #[builder] attribute"@,
        error is ArgumentPattern ==> text@
            == "use a simple `identifier: type` syntax for the function argument; destructuring patterns in arguments aren't supported by the `#[builder]`"@,
        error matches Error::RepeatedAttr { needle, .. } ==> text@ == "found multiple #["@ + needle@
            + "], but bon only works with exactly one or zero."@,
        error matches Error::InnerAttr { needle, .. } ==> text@ == "#["@ + needle@
            + "] attribute must be placed on the function itself, not inside it."@,
        error matches Error::Reported { message, .. } ==> text@ == message@,
{
}

} // verus!
