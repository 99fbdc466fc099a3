//! What the user asked for in the arguments of the attribute.

use crate::attrs::{Attribute, AttributeView, Path, PathView};
use crate::item::{Visibility, VisibilityView};
use crate::tokens::{Ident, IdentView, Tokens, TokensView};
use vstd::prelude::*;

verus! {

/// What was chosen for one generated item. What is left out gets a default.
pub struct ItemSigConfig {
    pub name: Option<Ident>,
    pub vis: Option<Visibility>,
    pub docs: Option<Vec<Attribute>>,
}

/// What an [`ItemSigConfig`] stands for.
#[verifier::ext_equal]
pub struct ItemSigConfigView {
    pub name: Option<IdentView>,
    pub vis: Option<VisibilityView>,
    pub docs: Option<Seq<AttributeView>>,
}

impl DeepView for ItemSigConfig {
    type V = ItemSigConfigView;

    open spec fn deep_view(&self) -> ItemSigConfigView {
        ItemSigConfigView {
            name: self.name.deep_view(),
            vis: self.vis.deep_view(),
            docs: self.docs.deep_view(),
        }
    }
}

impl Clone for ItemSigConfig {
    fn clone(&self) -> (copy: Self)
        ensures
            copy.deep_view() == self.deep_view(),
    {
        let docs = match &self.docs {
            Some(docs) => Some(docs.clone()),
            None => None,
        };
        ItemSigConfig { name: self.name.clone(), vis: self.vis.clone(), docs }
    }
}

/// The arguments of the attribute on a function.
pub struct TopLevelConfig {
    /// The path by which generated code reaches the library it needs at run time.
    pub bon: Path,
    pub start_fn: ItemSigConfig,
    pub finish_fn: ItemSigConfig,
    pub builder_type: ItemSigConfig,
    pub state_mod: ItemSigConfig,
    pub derive: Tokens,
    pub const_: Option<Tokens>,
    pub on: Vec<Tokens>,
}

/// What a [`TopLevelConfig`] stands for.
#[verifier::ext_equal]
pub struct TopLevelConfigView {
    pub bon: PathView,
    pub start_fn: ItemSigConfigView,
    pub finish_fn: ItemSigConfigView,
    pub builder_type: ItemSigConfigView,
    pub state_mod: ItemSigConfigView,
    pub derive: TokensView,
    pub const_: Option<TokensView>,
    pub on: Seq<TokensView>,
}

impl DeepView for TopLevelConfig {
    type V = TopLevelConfigView;

    open spec fn deep_view(&self) -> TopLevelConfigView {
        TopLevelConfigView {
            bon: self.bon.deep_view(),
            start_fn: self.start_fn.deep_view(),
            finish_fn: self.finish_fn.deep_view(),
            builder_type: self.builder_type.deep_view(),
            state_mod: self.state_mod.deep_view(),
            derive: self.derive.deep_view(),
            const_: self.const_.deep_view(),
            on: self.on.deep_view(),
        }
    }
}

/// What the user asked for stands for all of its parts.
pub proof fn law_config_views(chosen: ItemSigConfig, config: TopLevelConfig)
    ensures
        chosen.deep_view().name == chosen.name.deep_view(),
        chosen.deep_view().vis == chosen.vis.deep_view(),
        chosen.deep_view().docs == chosen.docs.deep_view(),
        config.deep_view().bon == config.bon.deep_view(),
        config.deep_view().start_fn == config.start_fn.deep_view(),
        config.deep_view().finish_fn == config.finish_fn.deep_view(),
        config.deep_view().builder_type == config.builder_type.deep_view(),
        config.deep_view().state_mod == config.state_mod.deep_view(),
        config.deep_view().derive == config.derive.deep_view(),
        config.deep_view().const_ == config.const_.deep_view(),
        config.deep_view().on == config.on.deep_view(),
{
}

} // verus!
