//! The package manifest of a linked repository: what it declares, and what
//! an asset description takes from it.

use crate::nesting::{nesting, nesting_of};
use crate::outcome::FatalError;
use crate::text::{
    comes_before, lemma_precedes_is_transitive, precedes, same_text, split, split_text,
    starts_with, trim, trimmed,
};
use vstd::prelude::*;

verus! {

/// The table form of a dependency declaration, as far as a version can be
/// read off it.
#[derive(Debug, Clone, PartialEq, Eq)]
pub struct DependencyDetail {
    pub version: Option<String>,
    /// The repository the dependency is taken from.
    pub git: Option<String>,
    /// The branch of that repository.
    pub branch: Option<String>,
}

/// How a manifest declares one dependency.
#[derive(Debug, Clone, PartialEq, Eq)]
pub enum Dependency {
    /// A bare version requirement.
    Simple(String),
    /// A declaration that takes everything from the workspace.
    Inherited,
    /// A table of settings.
    Detailed(DependencyDetail),
}

/// One entry of a manifest's dependency table.
#[derive(Debug, Clone, PartialEq, Eq)]
pub struct DependencyEntry {
    pub name: String,
    pub declaration: Dependency,
}

/// What the update reads of a manifest.
#[derive(Debug, Clone, PartialEq, Eq)]
pub struct Manifest {
    /// The package's license expression, where it sets one itself.
    pub license: Option<String>,
    /// The entries of the dependency table. Where several fit, the first
    /// one counts.
    pub dependencies: Vec<DependencyEntry>,
}

/// The deepest nesting of a manifest text that is read.
pub const MAX_NESTING: usize = 40;

/// What a [`DependencyDetail`] says.
pub struct DetailView {
    pub version: Option<Seq<char>>,
    pub git: Option<Seq<char>>,
    pub branch: Option<Seq<char>>,
}

/// What a [`Dependency`] says.
pub enum DependencyView {
    Simple(Seq<char>),
    Inherited,
    Detailed(DetailView),
}

/// What a [`DependencyEntry`] says.
pub struct EntryView {
    pub name: Seq<char>,
    pub declaration: DependencyView,
}

/// What a [`Manifest`] says.
pub struct ManifestView {
    pub license: Option<Seq<char>>,
    pub dependencies: Seq<EntryView>,
}

impl View for DependencyDetail {
    type V = DetailView;

    open spec fn view(&self) -> DetailView {
        DetailView {
            version: self.version.deep_view(),
            git: self.git.deep_view(),
            branch: self.branch.deep_view(),
        }
    }
}

impl View for Dependency {
    type V = DependencyView;

    open spec fn view(&self) -> DependencyView {
        match self {
            Dependency::Simple(version) => DependencyView::Simple(version@),
            Dependency::Inherited => DependencyView::Inherited,
            Dependency::Detailed(detail) => DependencyView::Detailed(detail@),
        }
    }
}

impl View for DependencyEntry {
    type V = EntryView;

    open spec fn view(&self) -> EntryView {
        EntryView { name: self.name@, declaration: self.declaration@ }
    }
}

/// What the entries of a dependency table say, entry by entry.
pub open spec fn table_view(entries: Seq<DependencyEntry>) -> Seq<EntryView> {
    entries.map_values(|entry: DependencyEntry| entry@)
}

impl View for Manifest {
    type V = ManifestView;

    open spec fn view(&self) -> ManifestView {
        ManifestView {
            license: self.license.deep_view(),
            dependencies: table_view(self.dependencies@),
        }
    }
}

/// Whether the names of a dependency table ascend. No name then occurs
/// twice.
pub open spec fn ascending(table: Seq<EntryView>) -> bool {
    forall|i: int, j: int|
        0 <= i < j < table.len() ==> precedes(#[trigger] table[i].name, #[trigger] table[j].name)
}

impl Manifest {
    /// Whether the manifest is as a manifest text gives it: the dependency
    /// table is in the order of its names.
    pub open spec fn well_formed(&self) -> bool {
        ascending(self@.dependencies)
    }

    /// Tells whether the manifest is well formed.
    pub fn is_well_formed(&self) -> (r: bool)
        ensures
            r == self.well_formed(),
    {
        let ghost table = table_view(self.dependencies@);
        if self.dependencies.len() == 0 {
            return true;
        }
        let mut i: usize = 1;
        while i < self.dependencies.len()
            invariant
                1 <= i <= self.dependencies.len(),
                table == table_view(self.dependencies@),
                ascending(table.take(i as int)),
            decreases self.dependencies.len() - i,
        {
            let before = &self.dependencies[i - 1];
            let after = &self.dependencies[i];
            if !comes_before(before.name.as_str(), after.name.as_str()) {
                assert(!precedes(table[i - 1].name, table[i as int].name));
                return false;
            }
            assert forall|p: int, q: int| 0 <= p < q < i + 1 implies precedes(
                #[trigger] table.take(i + 1)[p].name,
                #[trigger] table.take(i + 1)[q].name,
            ) by {
                assert(table.take(i as int)[p] == table[p]);
                if q < i {
                    assert(table.take(i as int)[q] == table[q]);
                } else if p < i - 1 {
                    assert(table.take(i as int)[i - 1] == table[i - 1]);
                    lemma_precedes_is_transitive(
                        table[p].name,
                        table[i - 1].name,
                        table[i as int].name,
                    );
                }
            }
            i += 1;
        }
        assert(table.take(i as int) == table);
        true
    }
}

/// The version that a dependency declaration stands for: the requirement of
/// a bare declaration; the explicit version of a table; `main` for a table
/// without a version that names a repository and its branch `main`.
pub open spec fn declared_version(dep: DependencyView) -> Option<Seq<char>> {
    match dep {
        DependencyView::Simple(version) => Some(version),
        DependencyView::Inherited => None,
        DependencyView::Detailed(detail) => if detail.version is Some {
            detail.version
        } else if detail.git is Some && detail.branch == Some("main"@) {
            Some("main"@)
        } else {
            None
        },
    }
}

/// Derives a version from one dependency declaration.
pub fn get_version(dep: &Dependency) -> (r: Option<String>)
    ensures
        r.deep_view() == declared_version(dep@),
{
    match dep {
        Dependency::Simple(version) => Some(version.clone()),
        Dependency::Inherited => None,
        Dependency::Detailed(detail) => {
            if let Some(version) = &detail.version {
                Some(version.clone())
            } else if detail.git.is_some() && branch_is_main(&detail.branch) {
                Some("main".to_owned())
            } else {
                None
            }
        },
    }
}

fn branch_is_main(branch: &Option<String>) -> (r: bool)
    ensures
        r == (branch.deep_view() == Some("main"@)),
{
    match branch {
        Some(name) => same_text(name.as_str(), "main"),
        None => false,
    }
}

/// What `toml::from_str` reads out of `text` as a `cargo_toml::Manifest`: the
/// package's own license expression and the dependency table, or nothing
/// where it reports an error.
pub uninterp spec fn manifest_document(text: Seq<char>) -> Option<ManifestView>;

/// The error of `toml::from_str`, carried as it is.
#[verifier::external_type_specification]
#[verifier::external_body]
pub struct ExTomlError(toml::de::Error);

/// Calls `toml::from_str` to read `text` as a `cargo_toml::Manifest`, and
/// hands over the package's license expression, where the package sets it
/// itself, and the entries of the dependency table in the order in which the
/// table, a `BTreeMap` keyed by `String`, yields them: ascending by name.
/// The contract gives the outcome its name and claims that order; it claims
/// nothing else of it.
///
/// The parser descends one level for each array, inline table and part of a
/// dotted key that stands open, and has no bound of its own. The `requires`
/// keeps the nesting of the text, and with it that descent, within a fixed
/// bound.
#[verifier::external_body]
fn read_manifest(text: &str) -> (r: Result<Manifest, toml::de::Error>)
    requires
        nesting(text@) <= MAX_NESTING,
    ensures
        manifest_document(text@) == match r {
            Ok(manifest) => Some(manifest@),
            Err(_) => None,
        },
        r matches Ok(manifest) ==> manifest.well_formed(),
{
    let document = toml::from_str::<cargo_toml::Manifest>(text)?;
    let license = document.package.and_then(|package| package.license).and_then(Option::from);
    let mut dependencies = Vec::new();
    for (name, declared) in document.dependencies {
        let declaration = match declared {
            cargo_toml::Dependency::Simple(version) => Dependency::Simple(version),
            cargo_toml::Dependency::Inherited(_) => Dependency::Inherited,
            cargo_toml::Dependency::Detailed(detail) => Dependency::Detailed(
                DependencyDetail { version: detail.version, git: detail.git, branch: detail.branch },
            ),
        };
        dependencies.push(DependencyEntry { name, declaration });
    }
    Ok(Manifest { license, dependencies })
}

/// What is read out of the text of a manifest: what the text declares,
/// unless it nests deeper than [`MAX_NESTING`] or is no manifest.
pub open spec fn readable_manifest(text: Seq<char>) -> Option<ManifestView> {
    if nesting(text) <= MAX_NESTING {
        manifest_document(text)
    } else {
        None
    }
}

/// Reads the text of a package manifest. A text that nests deeper than
/// [`MAX_NESTING`] is turned down unread.
pub fn parse_manifest(text: &str) -> (r: Result<Manifest, FatalError>)
    ensures
        match r {
            Ok(manifest) => readable_manifest(text@) == Some(manifest@) && manifest.well_formed(),
            Err(error) => readable_manifest(text@) is None && error == FatalError::InvalidManifest,
        },
{
    if nesting_of(text) > MAX_NESTING {
        return Err(FatalError::InvalidManifest);
    }
    match read_manifest(text) {
        Ok(manifest) => Ok(manifest),
        Err(_) => Err(FatalError::InvalidManifest),
    }
}

/// The declaration of the first dependency whose name begins with `prefix`.
pub open spec fn first_prefixed(deps: Seq<EntryView>, prefix: Seq<char>) -> Option<DependencyView>
    decreases deps.len(),
{
    if deps.len() == 0 {
        None
    } else if prefix.is_prefix_of(deps.first().name) {
        Some(deps.first().declaration)
    } else {
        first_prefixed(deps.drop_first(), prefix)
    }
}

/// The version that a manifest stands for: the one derived from the first
/// dependency whose name begins with `bevy`, whether or not later ones would
/// give one.
pub open spec fn engine_version(manifest: ManifestView) -> Option<Seq<char>> {
    match first_prefixed(manifest.dependencies, "bevy"@) {
        Some(dep) => declared_version(dep),
        None => None,
    }
}

/// The licenses that a license expression names: its pieces between the
/// occurrences of `OR`, each without the whitespace around it.
pub open spec fn license_list(expr: Seq<char>) -> Seq<Seq<char>> {
    split(expr, "OR"@).map_values(|piece: Seq<char>| trim(piece))
}

/// Finds the first dependency whose name begins with `prefix`.
pub fn find_prefixed<'a>(deps: &'a Vec<DependencyEntry>, prefix: &str) -> (r: Option<
    &'a Dependency,
>)
    ensures
        match r {
            Some(dep) => first_prefixed(table_view(deps@), prefix@) == Some(dep@),
            None => first_prefixed(table_view(deps@), prefix@) is None,
        },
{
    let ghost all = table_view(deps@);
    let mut i: usize = 0;
    assert(all.skip(0) == all);
    while i < deps.len()
        invariant
            i <= deps.len(),
            all == table_view(deps@),
            first_prefixed(all, prefix@) == first_prefixed(all.skip(i as int), prefix@),
        decreases deps.len() - i,
    {
        assert(all.skip(i as int).first() == deps@[i as int]@);
        if starts_with(deps[i].name.as_str(), prefix) {
            return Some(&deps[i].declaration);
        }
        assert(all.skip(i as int).drop_first() == all.skip(i + 1));
        i += 1;
    }
    None
}

/// Derives the engine version that a manifest stands for.
pub fn derive_version(manifest: &Manifest) -> (r: Option<String>)
    ensures
        r.deep_view() == engine_version(manifest@),
{
    match find_prefixed(&manifest.dependencies, "bevy") {
        Some(dep) => get_version(dep),
        None => None,
    }
}

/// Splits a license expression into the licenses it names.
pub fn split_licenses(expr: &str) -> (r: Vec<String>)
    ensures
        r.deep_view() == license_list(expr@),
{
    let pieces = split_text(expr, "OR");
    let mut r: Vec<String> = Vec::new();
    let mut i: usize = 0;
    while i < pieces.len()
        invariant
            i <= pieces.len(),
            pieces.deep_view() == split(expr@, "OR"@),
            r.deep_view() == license_list(expr@).take(i as int),
        decreases pieces.len() - i,
    {
        let ghost before = r.deep_view();
        let piece = trimmed(pieces[i].as_str());
        assert(pieces.deep_view()[i as int] == pieces[i as int]@);
        r.push(piece);
        assert(r.deep_view() == before.push(piece@));
        assert(license_list(expr@).take(i + 1) == license_list(expr@).take(i as int).push(
            piece@,
        ));
        i += 1;
    }
    assert(license_list(expr@).take(pieces.len() as int) == license_list(expr@));
    r
}

/// In a dependency table whose names ascend, the first entry whose name
/// begins with `prefix` has the least name of all that do.
pub proof fn lemma_first_prefixed_is_least(table: Seq<EntryView>, prefix: Seq<char>, j: int)
    requires
        ascending(table),
        0 <= j < table.len(),
        prefix.is_prefix_of(table[j].name),
    ensures
        exists|i: int|
            0 <= i <= j && prefix.is_prefix_of(#[trigger] table[i].name) && first_prefixed(
                table,
                prefix,
            ) == Some(table[i].declaration) && (i == j || precedes(table[i].name, table[j].name)),
    decreases table.len(),
{
    if prefix.is_prefix_of(table.first().name) {
        assert(prefix.is_prefix_of(table[0].name));
    } else {
        let rest = table.drop_first();
        assert(forall|k: int| 0 <= k < rest.len() ==> rest[k] == table[k + 1]);
        assert(ascending(rest)) by {
            assert forall|a: int, b: int| 0 <= a < b < rest.len() implies precedes(
                #[trigger] rest[a].name,
                #[trigger] rest[b].name,
            ) by {
                assert(precedes(table[a + 1].name, table[b + 1].name));
            }
        }
        lemma_first_prefixed_is_least(rest, prefix, j - 1);
        let i = choose|i: int|
            0 <= i <= j - 1 && prefix.is_prefix_of(#[trigger] rest[i].name) && first_prefixed(
                rest,
                prefix,
            ) == Some(rest[i].declaration) && (i == j - 1 || precedes(
                rest[i].name,
                rest[j - 1].name,
            ));
        assert(prefix.is_prefix_of(table[i + 1].name));
    }
}

} // verus!
