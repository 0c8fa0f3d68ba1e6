//! The asset description document.

use vstd::prelude::*;

verus! {

/// One asset description, as its file holds it.
#[derive(Debug, Clone, PartialEq, Eq)]
pub struct AssetDescription {
    pub name: String,
    pub description: String,
    /// Where the asset lives, as a URL.
    pub link: String,
    /// The engine versions the asset is known to work with.
    pub bevy_versions: Option<Vec<String>>,
    /// The licenses the asset is offered under.
    pub licenses: Option<Vec<String>>,
}

/// What an [`AssetDescription`] says, as plain sequences of characters.
pub struct AssetView {
    pub name: Seq<char>,
    pub description: Seq<char>,
    pub link: Seq<char>,
    pub bevy_versions: Option<Seq<Seq<char>>>,
    pub licenses: Option<Seq<Seq<char>>>,
}

impl View for AssetDescription {
    type V = AssetView;

    open spec fn view(&self) -> AssetView {
        AssetView {
            name: self.name@,
            description: self.description@,
            link: self.link@,
            bevy_versions: self.bevy_versions.deep_view(),
            licenses: self.licenses.deep_view(),
        }
    }
}

impl DeepView for AssetDescription {
    type V = AssetView;

    open spec fn deep_view(&self) -> AssetView {
        self@
    }
}

} // verus!
