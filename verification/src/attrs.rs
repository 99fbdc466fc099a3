//! Attributes, and what is asked of them.

use crate::seqs::lemma_filter_map_concat;
use crate::tokens::{call_site_ident, Ident, IdentView, Tokens, TokensView};
use vstd::prelude::*;

verus! {

/// One segment of a path. The arguments, if it has any, are the bracketed part behind the name.
pub struct PathSegment {
    pub ident: Ident,
    pub arguments: Option<Tokens>,
}

/// What a [`PathSegment`] stands for.
#[verifier::ext_equal]
pub struct PathSegmentView {
    pub ident: IdentView,
    pub arguments: Option<TokensView>,
}

/// A path such as `::bon::builder`.
pub struct Path {
    pub leading_colon: bool,
    pub segments: Vec<PathSegment>,
}

/// What a [`Path`] stands for.
#[verifier::ext_equal]
pub struct PathView {
    pub leading_colon: bool,
    pub segments: Seq<PathSegmentView>,
}

/// Where an attribute stands: `#[outer]` in front of an item, `#![inner]` inside it.
#[derive(Clone, Copy, Debug, PartialEq, Eq, Structural)]
pub enum AttrStyle {
    Outer,
    Inner,
}

/// The brackets around the arguments of an attribute.
#[derive(Clone, Copy, Debug, PartialEq, Eq, Structural)]
pub enum Delimiter {
    Paren,
    Brace,
    Bracket,
}

/// The value of an attribute such as `#[doc = "text"]`.
pub enum Expr {
    /// A string literal with the given contents.
    Str(String),
    /// Any expression, as it is written.
    Other(Tokens),
}

/// What an [`Expr`] stands for.
pub enum ExprView {
    Str(Seq<char>),
    Other(TokensView),
}

/// What stands between the brackets of an attribute.
pub enum Meta {
    /// `#[path]`
    Path(Path),
    /// `#[path(tokens)]`
    List { path: Path, delimiter: Delimiter, tokens: Tokens },
    /// `#[path = value]`
    NameValue { path: Path, value: Expr },
}

/// What a [`Meta`] stands for.
pub enum MetaView {
    Path(PathView),
    List { path: PathView, delimiter: Delimiter, tokens: TokensView },
    NameValue { path: PathView, value: ExprView },
}

/// An attribute. A doc comment is the attribute `#[doc = "text"]`.
pub struct Attribute {
    pub style: AttrStyle,
    pub meta: Meta,
}

/// What an [`Attribute`] stands for.
#[verifier::ext_equal]
pub struct AttributeView {
    pub style: AttrStyle,
    pub meta: MetaView,
}

impl DeepView for PathSegment {
    type V = PathSegmentView;

    open spec fn deep_view(&self) -> PathSegmentView {
        PathSegmentView { ident: self.ident.deep_view(), arguments: self.arguments.deep_view() }
    }
}

impl DeepView for Path {
    type V = PathView;

    open spec fn deep_view(&self) -> PathView {
        PathView { leading_colon: self.leading_colon, segments: self.segments.deep_view() }
    }
}

impl DeepView for Expr {
    type V = ExprView;

    open spec fn deep_view(&self) -> ExprView {
        match self {
            Expr::Str(text) => ExprView::Str(text@),
            Expr::Other(tokens) => ExprView::Other(tokens.deep_view()),
        }
    }
}

impl DeepView for Meta {
    type V = MetaView;

    open spec fn deep_view(&self) -> MetaView {
        match self {
            Meta::Path(path) => MetaView::Path(path.deep_view()),
            Meta::List { path, delimiter, tokens } => MetaView::List {
                path: path.deep_view(),
                delimiter: *delimiter,
                tokens: tokens.deep_view(),
            },
            Meta::NameValue { path, value } => MetaView::NameValue {
                path: path.deep_view(),
                value: value.deep_view(),
            },
        }
    }
}

impl DeepView for Attribute {
    type V = AttributeView;

    open spec fn deep_view(&self) -> AttributeView {
        AttributeView { style: self.style, meta: self.meta.deep_view() }
    }
}

impl Clone for PathSegment {
    fn clone(&self) -> (copy: Self)
        ensures
            copy.deep_view() == self.deep_view(),
    {
        PathSegment { ident: self.ident.clone(), arguments: self.arguments.clone() }
    }
}

impl Clone for Path {
    fn clone(&self) -> (copy: Self)
        ensures
            copy.deep_view() == self.deep_view(),
    {
        Path { leading_colon: self.leading_colon, segments: self.segments.clone() }
    }
}

impl Clone for Expr {
    fn clone(&self) -> (copy: Self)
        ensures
            copy.deep_view() == self.deep_view(),
    {
        match self {
            Expr::Str(text) => Expr::Str(text.clone()),
            Expr::Other(tokens) => Expr::Other(tokens.clone()),
        }
    }
}

impl Clone for Meta {
    fn clone(&self) -> (copy: Self)
        ensures
            copy.deep_view() == self.deep_view(),
    {
        match self {
            Meta::Path(path) => Meta::Path(path.clone()),
            Meta::List { path, delimiter, tokens } => Meta::List {
                path: path.clone(),
                delimiter: *delimiter,
                tokens: tokens.clone(),
            },
            Meta::NameValue { path, value } => Meta::NameValue {
                path: path.clone(),
                value: value.clone(),
            },
        }
    }
}

impl Clone for Attribute {
    fn clone(&self) -> (copy: Self)
        ensures
            copy.deep_view() == self.deep_view(),
    {
        Attribute { style: self.style, meta: self.meta.clone() }
    }
}

impl PathView {
    /// Whether the path is nothing but the identifier `name`.
    pub open spec fn is_ident(self, name: Seq<char>) -> bool {
        &&& !self.leading_colon
        &&& self.segments.len() == 1
        &&& self.segments[0].arguments is None
        &&& self.segments[0].ident.text == name
    }
}

/// The segment `ident`, without arguments.
pub open spec fn plain_segment(ident: IdentView) -> PathSegmentView {
    PathSegmentView { ident, arguments: None }
}

/// The path that is nothing but `name`, at the place where the macro is called.
pub open spec fn ident_path(name: Seq<char>) -> PathView {
    PathView { leading_colon: false, segments: seq![plain_segment(call_site_ident(name))] }
}

impl Path {
    /// The path that is nothing but `name`, at the place where the macro is called.
    pub fn from_ident(name: &str) -> (path: Self)
        ensures
            path.deep_view() == ident_path(name@),
    {
        let mut segments: Vec<PathSegment> = Vec::new();
        segments.push(PathSegment { ident: Ident::new(name, None), arguments: None });
        let path = Path { leading_colon: false, segments };
        assert(path.deep_view().segments =~= ident_path(name@).segments);
        path
    }

    /// The path with `name` behind it, as its last segment.
    pub fn join(self, name: &str) -> (path: Self)
        ensures
            path.deep_view() == (PathView {
                leading_colon: self.deep_view().leading_colon,
                segments: self.deep_view().segments.push(plain_segment(call_site_ident(name@))),
            }),
    {
        let leading_colon = self.leading_colon;
        let mut segments = self.segments;
        let ghost before = segments.deep_view();
        segments.push(PathSegment { ident: Ident::new(name, None), arguments: None });
        assert(segments.deep_view() =~= before.push(plain_segment(call_site_ident(name@))));
        Path { leading_colon, segments }
    }

    /// Whether the path is nothing but the identifier `name`.
    pub fn is_ident(&self, name: &str) -> (same: bool)
        ensures
            same == self.deep_view().is_ident(name@),
    {
        if self.leading_colon || self.segments.len() != 1 {
            return false;
        }
        let segment = &self.segments[0];
        assert(self.deep_view().segments[0] == segment.deep_view());
        segment.arguments.is_none() && segment.ident.is(name)
    }
}

impl MetaView {
    /// The path that the attribute begins with.
    pub open spec fn path(self) -> PathView {
        match self {
            MetaView::Path(path) => path,
            MetaView::List { path, .. } => path,
            MetaView::NameValue { path, .. } => path,
        }
    }
}

impl AttributeView {
    /// Whether the attribute is called `name`.
    pub open spec fn is_named(self, name: Seq<char>) -> bool {
        self.meta.path().is_ident(name)
    }

    /// The text of a doc comment, for an attribute that is one.
    pub open spec fn as_doc(self) -> Option<ExprView> {
        match self.meta {
            MetaView::NameValue { path, value } => if path.is_ident("doc"@) {
                Some(value)
            } else {
                None
            },
            _ => None,
        }
    }

    /// Whether the attribute is a doc comment.
    pub open spec fn is_doc(self) -> bool {
        self.as_doc() is Some
    }

    /// The lint suppression that generated items inherit from the attribute, if it is one:
    /// an `allow` as it stands, an `expect` with its name replaced by `allow`.
    pub open spec fn to_allow(self) -> Option<AttributeView> {
        if self.is_named("allow"@) {
            Some(self)
        } else if self.is_named("expect"@) {
            let path = ident_path("allow"@);
            let meta = match self.meta {
                MetaView::Path(_) => MetaView::Path(path),
                MetaView::List { delimiter, tokens, .. } => MetaView::List {
                    path,
                    delimiter,
                    tokens,
                },
                MetaView::NameValue { value, .. } => MetaView::NameValue { path, value },
            };
            Some(AttributeView { style: self.style, meta })
        } else {
            None
        }
    }
}

impl Meta {
    /// The path that the attribute begins with.
    pub fn path(&self) -> (path: &Path)
        ensures
            path.deep_view() == self.deep_view().path(),
    {
        match self {
            Meta::Path(path) => path,
            Meta::List { path, .. } => path,
            Meta::NameValue { path, .. } => path,
        }
    }
}

impl Attribute {
    /// Whether the attribute is called `name`.
    pub fn is_named(&self, name: &str) -> (same: bool)
        ensures
            same == self.deep_view().is_named(name@),
    {
        self.meta.path().is_ident(name)
    }

    /// Whether the attribute is a doc comment.
    pub fn is_doc(&self) -> (doc: bool)
        ensures
            doc == self.deep_view().is_doc(),
    {
        self.as_doc().is_some()
    }

    /// The text of a doc comment, for an attribute that is one.
    pub fn as_doc(&self) -> (value: Option<&Expr>)
        ensures
            value.deep_view() == self.deep_view().as_doc(),
    {
        match &self.meta {
            Meta::NameValue { path, value } => {
                if path.is_ident("doc") {
                    Some(value)
                } else {
                    None
                }
            },
            _ => None,
        }
    }

    /// The lint suppression that generated items inherit from the attribute, if it is one:
    /// an `allow` as it stands, an `expect` with its name replaced by `allow`.
    pub fn to_allow(&self) -> (allow: Option<Attribute>)
        ensures
            allow.deep_view() == self.deep_view().to_allow(),
    {
        if self.is_named("allow") {
            return Some(self.clone());
        }
        if !self.is_named("expect") {
            return None;
        }
        let path = Path::from_ident("allow");
        let meta = match &self.meta {
            Meta::Path(_) => Meta::Path(path),
            Meta::List { delimiter, tokens, .. } => Meta::List {
                path,
                delimiter: *delimiter,
                tokens: tokens.clone(),
            },
            Meta::NameValue { value, .. } => Meta::NameValue { path, value: value.clone() },
        };
        Some(Attribute { style: self.style, meta })
    }
}

/// Whether an attribute is a doc comment.
pub open spec fn doc() -> spec_fn(AttributeView) -> bool {
    |attr: AttributeView| attr.is_doc()
}

/// Whether an attribute is anything but a doc comment.
pub open spec fn not_doc() -> spec_fn(AttributeView) -> bool {
    |attr: AttributeView| !attr.is_doc()
}

/// Whether an attribute is anything but a `builder` attribute.
pub open spec fn not_builder() -> spec_fn(AttributeView) -> bool {
    |attr: AttributeView| !attr.is_named("builder"@)
}

/// Whether an attribute is neither a doc comment nor a `builder` attribute.
pub open spec fn not_doc_nor_builder() -> spec_fn(AttributeView) -> bool {
    |attr: AttributeView| !attr.is_doc() && !attr.is_named("builder"@)
}

/// The lint suppressions among the attributes, as `allow` attributes.
pub open spec fn allows_of(attrs: Seq<AttributeView>) -> Seq<AttributeView> {
    attrs.filter_map(|attr: AttributeView| attr.to_allow())
}

/// The attributes that `keep` accepts, in their order.
fn kept<F: Fn(&Attribute) -> bool>(
    attrs: &Vec<Attribute>,
    keep: F,
    Ghost(pred): Ghost<spec_fn(AttributeView) -> bool>,
) -> (res: Vec<Attribute>)
    requires
        forall|attr: &Attribute| call_requires(keep, (attr,)),
        forall|attr: &Attribute, b: bool|
            call_ensures(keep, (attr,), b) ==> b == pred(attr.deep_view()),
    ensures
        res.deep_view() == attrs.deep_view().filter(pred),
{
    let mut res: Vec<Attribute> = Vec::new();
    let ghost all = attrs.deep_view();
    proof {
        reveal(Seq::filter);
        assert(all.take(0).filter(pred) =~= Seq::empty());
        assert(res.deep_view() =~= Seq::empty());
    }
    for i in 0..attrs.len()
        invariant
            all == attrs.deep_view(),
            forall|attr: &Attribute| call_requires(keep, (attr,)),
            forall|attr: &Attribute, b: bool|
                call_ensures(keep, (attr,), b) ==> b == pred(attr.deep_view()),
            res.deep_view() == all.take(i as int).filter(pred),
    {
        let ghost before = res.deep_view();
        proof {
            all.take(i as int).lemma_filter_push(all[i as int], pred);
            assert(all.take(i + 1) =~= all.take(i as int).push(all[i as int]));
        }
        if keep(&attrs[i]) {
            res.push(attrs[i].clone());
            assert(res.deep_view() =~= before.push(all[i as int]));
        }
    }
    assert(all.take(all.len() as int) =~= all);
    res
}

/// The attributes that are doc comments.
pub fn docs_of(attrs: &Vec<Attribute>) -> (res: Vec<Attribute>)
    ensures
        res.deep_view() == attrs.deep_view().filter(doc()),
{
    let keep = |attr: &Attribute| -> (b: bool)
        ensures
            b == attr.deep_view().is_doc(),
        { attr.is_doc() };
    kept(attrs, keep, Ghost(doc()))
}

/// The attributes without the doc comments.
pub fn without_docs(attrs: &Vec<Attribute>) -> (res: Vec<Attribute>)
    ensures
        res.deep_view() == attrs.deep_view().filter(not_doc()),
{
    let keep = |attr: &Attribute| -> (b: bool)
        ensures
            b == !attr.deep_view().is_doc(),
        { !attr.is_doc() };
    kept(attrs, keep, Ghost(not_doc()))
}

/// The attributes without those called `builder`.
pub fn without_builder(attrs: &Vec<Attribute>) -> (res: Vec<Attribute>)
    ensures
        res.deep_view() == attrs.deep_view().filter(not_builder()),
{
    let keep = |attr: &Attribute| -> (b: bool)
        ensures
            b == !attr.deep_view().is_named("builder"@),
        { !attr.is_named("builder") };
    kept(attrs, keep, Ghost(not_builder()))
}

/// The attributes that are neither doc comments nor called `builder`.
pub fn without_docs_and_builder(attrs: &Vec<Attribute>) -> (res: Vec<Attribute>)
    ensures
        res.deep_view() == attrs.deep_view().filter(not_doc_nor_builder()),
{
    let keep = |attr: &Attribute| -> (b: bool)
        ensures
            b == (!attr.deep_view().is_doc() && !attr.deep_view().is_named("builder"@)),
        { !attr.is_doc() && !attr.is_named("builder") };
    kept(attrs, keep, Ghost(not_doc_nor_builder()))
}

/// The lint suppressions among the attributes, as `allow` attributes, behind those in `inherited`.
pub fn extend_allows(inherited: Vec<Attribute>, attrs: &Vec<Attribute>) -> (res: Vec<Attribute>)
    ensures
        res.deep_view() == inherited.deep_view() + allows_of(attrs.deep_view()),
{
    let mut res = inherited;
    let ghost all = attrs.deep_view();
    let ghost to_allow = |attr: AttributeView| attr.to_allow();
    assert(all.take(0).filter_map(to_allow) =~= Seq::empty());
    assert(res.deep_view() =~= inherited.deep_view() + all.take(0).filter_map(to_allow));
    for i in 0..attrs.len()
        invariant
            all == attrs.deep_view(),
            to_allow == (|attr: AttributeView| attr.to_allow()),
            res.deep_view() == inherited.deep_view() + all.take(i as int).filter_map(to_allow),
    {
        let ghost before = res.deep_view();
        assert(all.take(i + 1).drop_last() =~= all.take(i as int));
        let allow = attrs[i].to_allow();
        assert(allow.deep_view() == to_allow(all.take(i + 1).last()));
        if let Some(attr) = allow {
            res.push(attr);
            assert(res.deep_view() =~= before.push(attr.deep_view()));
        }
        assert(res.deep_view() =~= inherited.deep_view() + all.take(i + 1).filter_map(to_allow));
    }
    assert(all.take(all.len() as int) =~= all);
    res
}

/// What is inherited from a lint suppression is an `allow`, in the same place, and is inherited on
/// unchanged.
pub proof fn law_to_allow(attr: AttributeView)
    ensures
        attr.to_allow() matches Some(allow) ==> allow.is_named("allow"@) && allow.style
            == attr.style && allow.to_allow() == Some(allow),
        attr.to_allow() is Some <==> attr.is_named("allow"@) || attr.is_named("expect"@),
{
}

/// All that is inherited from a list of attributes are `allow` attributes, which are inherited on
/// unchanged.
pub proof fn law_allows_of(attrs: Seq<AttributeView>)
    ensures
        forall|i: int|
            0 <= i < allows_of(attrs).len() ==> (#[trigger] allows_of(attrs)[i]).is_named("allow"@),
        allows_of(allows_of(attrs)) == allows_of(attrs),
    decreases attrs.len(),
{
    if attrs.len() > 0 {
        let rest = attrs.drop_last();
        law_allows_of(rest);
        law_to_allow(attrs.last());
        if let Some(allow) = attrs.last().to_allow() {
            assert(allows_of(attrs) =~= allows_of(rest).push(allow));
            assert(allows_of(attrs).drop_last() =~= allows_of(rest));
            assert(allows_of(allows_of(attrs)) =~= allows_of(allows_of(rest)).push(allow));
        }
    }
}

/// An attribute is a doc comment exactly if it is called `doc` and has a value.
pub proof fn law_doc(attr: AttributeView)
    ensures
        attr.is_doc() <==> attr.is_named("doc"@) && attr.meta is NameValue,
        attr.as_doc() matches Some(value) ==> attr.meta == (MetaView::NameValue {
            path: attr.meta.path(),
            value,
        }),
{
}

/// A path is the identifier `name` exactly if it is the path of one segment with that name and
/// nothing else, at some place.
pub proof fn law_is_ident(path: PathView, name: Seq<char>)
    ensures
        path.is_ident(name) <==> path == (PathView {
            leading_colon: false,
            segments: seq![
                PathSegmentView {
                    ident: IdentView { text: name, span: path.segments[0].ident.span },
                    arguments: None,
                },
            ],
        }),
{
    let one = PathView {
        leading_colon: false,
        segments: seq![
            PathSegmentView {
                ident: IdentView { text: name, span: path.segments[0].ident.span },
                arguments: None,
            },
        ],
    };
    if path.is_ident(name) {
        assert(path.segments =~= one.segments);
    }
    if path == one {
        assert(one.segments.len() == 1);
        assert(path.segments[0] == one.segments[0]);
    }
}

/// A path that is made of a name is that identifier and no other, at the place where the macro is
/// called.
pub proof fn law_ident_path(name: Seq<char>, other: Seq<char>)
    ensures
        ident_path(name).is_ident(other) <==> name == other,
        ident_path(name) == (PathView {
            leading_colon: false,
            segments: seq![
                PathSegmentView {
                    ident: IdentView { text: name, span: None },
                    arguments: None,
                },
            ],
        }),
{
}

/// An attribute goes by the path that it begins with, whatever stands behind the path and wherever
/// the attribute is placed.
pub proof fn law_attribute_names(
    style: AttrStyle,
    path: PathView,
    delimiter: Delimiter,
    tokens: TokensView,
    value: ExprView,
    name: Seq<char>,
)
    ensures
        (AttributeView { style, meta: MetaView::Path(path) }).is_named(name) == path.is_ident(name),
        (AttributeView { style, meta: MetaView::List { path, delimiter, tokens } }).is_named(name)
            == path.is_ident(name),
        (AttributeView { style, meta: MetaView::NameValue { path, value } }).is_named(name)
            == path.is_ident(name),
        MetaView::Path(path).path() == path,
        (MetaView::List { path, delimiter, tokens }).path() == path,
        (MetaView::NameValue { path, value }).path() == path,
{
}

/// The doc comments are the attributes `doc = value`, and no others, and the value is their text.
pub proof fn law_doc_values(
    style: AttrStyle,
    path: PathView,
    delimiter: Delimiter,
    tokens: TokensView,
    value: ExprView,
)
    ensures
        (AttributeView { style, meta: MetaView::NameValue { path, value } }).as_doc() == (
        if path.is_ident("doc"@) {
            Some(value)
        } else {
            None
        }),
        (AttributeView { style, meta: MetaView::Path(path) }).as_doc() is None,
        (AttributeView { style, meta: MetaView::List { path, delimiter, tokens } }).as_doc() is None,
        (AttributeView { style, meta: MetaView::NameValue { path, value } }).is_doc()
            <==> path.is_ident("doc"@),
        !(AttributeView { style, meta: MetaView::Path(path) }).is_doc(),
        !(AttributeView { style, meta: MetaView::List { path, delimiter, tokens } }).is_doc(),
{
}

/// An `allow` is inherited as it stands. From an `expect` an `allow` with the same arguments is
/// inherited. Nothing else is.
pub proof fn law_to_allow_keeps_arguments(attr: AttributeView)
    ensures
        attr.is_named("allow"@) ==> attr.to_allow() == Some(attr),
        attr.is_named("expect"@) ==> (attr.to_allow() matches Some(allow) && {
            &&& allow.style == attr.style
            &&& match (attr.meta, allow.meta) {
                (MetaView::Path(_), MetaView::Path(path)) => path.is_ident("allow"@),
                (
                    MetaView::List { delimiter, tokens, .. },
                    MetaView::List { path, delimiter: delimiter_after, tokens: tokens_after },
                ) => path.is_ident("allow"@) && delimiter_after == delimiter && tokens_after
                    == tokens,
                (
                    MetaView::NameValue { value, .. },
                    MetaView::NameValue { path, value: value_after },
                ) => path.is_ident("allow"@) && value_after == value,
                _ => false,
            }
        }),
        !attr.is_named("allow"@) && !attr.is_named("expect"@) ==> attr.to_allow() is None,
{
    reveal_strlit("allow");
    reveal_strlit("expect");
    assert("allow"@.len() != "expect"@.len());
}

/// Lint suppressions are inherited attribute by attribute, in order.
pub proof fn law_allows_one_by_one(
    first: Seq<AttributeView>,
    second: Seq<AttributeView>,
    attr: AttributeView,
)
    ensures
        allows_of(Seq::empty()) == Seq::<AttributeView>::empty(),
        attr.to_allow() matches Some(allow) ==> allows_of(seq![attr]) == seq![allow],
        attr.to_allow() is None ==> allows_of(seq![attr]) == Seq::<AttributeView>::empty(),
        allows_of(first + second) == allows_of(first) + allows_of(second),
{
    let f = |attr: AttributeView| attr.to_allow();
    lemma_filter_map_concat(first, second, f);
    assert(seq![attr].drop_last() =~= Seq::empty());
    assert(Seq::<AttributeView>::empty().filter_map(f) =~= Seq::empty());
    assert(seq![attr].last() == attr);
    assert(seq![attr].filter_map(f) =~= match attr.to_allow() {
        Some(allow) => seq![allow],
        None => Seq::empty(),
    });
}

/// Each filter takes one more attribute in, behind what it took before, exactly if the attribute is
/// what it looks for.
pub proof fn law_filters_one_by_one(attrs: Seq<AttributeView>, attr: AttributeView)
    ensures
        attrs.push(attr).filter(doc()) == (if attr.meta is NameValue && attr.is_named("doc"@) {
            attrs.filter(doc()).push(attr)
        } else {
            attrs.filter(doc())
        }),
        attrs.push(attr).filter(not_doc()) == (if attr.meta is NameValue && attr.is_named("doc"@) {
            attrs.filter(not_doc())
        } else {
            attrs.filter(not_doc()).push(attr)
        }),
        attrs.push(attr).filter(not_builder()) == (if attr.is_named("builder"@) {
            attrs.filter(not_builder())
        } else {
            attrs.filter(not_builder()).push(attr)
        }),
        attrs.push(attr).filter(not_doc_nor_builder()) == (if attr.is_named("builder"@) || (
        attr.meta is NameValue && attr.is_named("doc"@)) {
            attrs.filter(not_doc_nor_builder())
        } else {
            attrs.filter(not_doc_nor_builder()).push(attr)
        }),
{
    law_doc(attr);
    attrs.lemma_filter_push(attr, doc());
    attrs.lemma_filter_push(attr, not_doc());
    attrs.lemma_filter_push(attr, not_builder());
    attrs.lemma_filter_push(attr, not_doc_nor_builder());
}

/// An attribute stands for all of its parts.
pub proof fn law_attribute_views(
    segment: PathSegment,
    path: Path,
    delimiter: Delimiter,
    tokens: Tokens,
    text: String,
    value: Expr,
    attr: Attribute,
)
    ensures
        segment.deep_view().ident == segment.ident.deep_view(),
        segment.deep_view().arguments == segment.arguments.deep_view(),
        path.deep_view().leading_colon == path.leading_colon,
        path.deep_view().segments == path.segments.deep_view(),
        Expr::Str(text).deep_view() == ExprView::Str(text@),
        Expr::Other(tokens).deep_view() == ExprView::Other(tokens.deep_view()),
        Meta::Path(path).deep_view() == MetaView::Path(path.deep_view()),
        (Meta::List { path, delimiter, tokens }).deep_view() == (MetaView::List {
            path: path.deep_view(),
            delimiter,
            tokens: tokens.deep_view(),
        }),
        (Meta::NameValue { path, value }).deep_view() == (MetaView::NameValue {
            path: path.deep_view(),
            value: value.deep_view(),
        }),
        attr.deep_view().style == attr.style,
        attr.deep_view().meta == attr.meta.deep_view(),
{
}

} // verus!
