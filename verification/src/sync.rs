//! The steps of a run, file by file: which entries are read, what is asked
//! of the host, and what is written back.
//!
//! The caller walks the directory and hands each entry to [`update_entry`],
//! together with the means to read the entry's file and to send a request,
//! and writes the document that comes back. A step that ends in
//! [`Step::Skip`] leaves the file as it is; one that ends in
//! [`Step::Abort`] ends the run.

use crate::asset::{AssetDescription, AssetView};
use crate::content::{decode_reply, reply_text, ContentReply, ContentView};
use crate::link::{classify_link, link_parts, link_target, repository_host, Repository, RepositoryView};
use crate::manifest::{
    derive_version, engine_version, license_list, parse_manifest, readable_manifest,
    split_licenses, Manifest, ManifestView,
};
use crate::outcome::{FatalError, SkipReason, Step};
use crate::request::{manifest_request, request_for, FetchRequest, RequestView};
use crate::text::same_text;
use vstd::prelude::*;

verus! {

/// Whether a directory entry holds an asset description: a file, not a
/// directory, whose extension is `toml`.
pub open spec fn is_asset_entry(is_dir: bool, extension: Option<Seq<char>>) -> bool {
    !is_dir && extension == Some("toml"@)
}

/// Tells whether a directory entry is to be read as an asset description.
pub fn is_asset_file(is_dir: bool, extension: Option<&str>) -> (r: bool)
    ensures
        r == is_asset_entry(is_dir, extension.deep_view()),
{
    match extension {
        Some(extension) => !is_dir && same_text(extension, "toml"),
        None => false,
    }
}

/// The asset description after it has taken what `manifest` offers: the
/// licenses of the manifest's license expression, where it has one, and the
/// manifest's engine version as the only version, where one can be derived.
/// Everything else stays.
pub open spec fn updated(asset: AssetView, manifest: ManifestView) -> AssetView {
    AssetView {
        licenses: match manifest.license {
            Some(expr) => Some(license_list(expr)),
            None => asset.licenses,
        },
        bevy_versions: match engine_version(manifest) {
            Some(version) => Some(seq![version]),
            None => asset.bevy_versions,
        },
        ..asset
    }
}

/// Brings an asset description up to date with a manifest.
pub fn apply_manifest(asset: &mut AssetDescription, manifest: &Manifest)
    ensures
        final(asset)@ == updated(old(asset)@, manifest@),
{
    if let Some(expr) = &manifest.license {
        asset.licenses = Some(split_licenses(expr.as_str()));
    }
    if let Some(version) = derive_version(manifest) {
        let versions = vec![version];
        assert(versions.deep_view() == seq![version@]);
        asset.bevy_versions = Some(versions);
    }
}

/// The request that a link target calls for. Without a token no request
/// can be made, and the run ends.
pub open spec fn request_step(target: Step<RepositoryView>, token: Option<Seq<char>>) -> Step<
    RequestView,
> {
    match target {
        Step::Skip(reason) => Step::Skip(reason),
        Step::Abort(error) => Step::Abort(error),
        Step::Proceed(repo) => match token {
            Some(token) => Step::Proceed(request_for(repo, token)),
            None => Step::Abort(FatalError::MissingToken),
        },
    }
}

/// What is to be fetched for an asset description. A description that could
/// not be parsed is passed over.
pub open spec fn fetch_plan(asset: Option<AssetView>, token: Option<Seq<char>>) -> Step<
    RequestView,
> {
    match asset {
        Some(asset) => request_step(link_target(asset.link), token),
        None => Step::Skip(SkipReason::MalformedAsset),
    }
}

/// Turns a link target into the request it calls for.
pub fn plan_request(target: Step<Repository>, token: Option<&str>) -> (r: Step<FetchRequest>)
    ensures
        r@ == request_step(target@, token.deep_view()),
{
    match target {
        Step::Skip(reason) => Step::Skip(reason),
        Step::Abort(error) => Step::Abort(error),
        Step::Proceed(repo) => match token {
            Some(token) => Step::Proceed(manifest_request(&repo, token)),
            None => Step::Abort(FatalError::MissingToken),
        },
    }
}

/// Decides what is to be fetched for an asset description, given what
/// parsing its file gave and the token for the host, if there is one.
pub fn plan_fetch(asset: Option<&AssetDescription>, token: Option<&str>) -> (r: Step<
    FetchRequest,
>)
    ensures
        r@ == fetch_plan(asset.deep_view(), token.deep_view()),
{
    match asset {
        Some(asset) => plan_request(classify_link(asset.link.as_str()), token),
        None => Step::Skip(SkipReason::MalformedAsset),
    }
}

/// What came of sending a request.
#[derive(Debug, Clone, PartialEq, Eq)]
pub enum FetchReply {
    /// The request failed in transit.
    Failed,
    /// A reply came, and could not be read.
    Unreadable,
    /// A reply came.
    Content(ContentReply),
}

/// What a [`FetchReply`] says.
pub enum FetchReplyView {
    Failed,
    Unreadable,
    Content(ContentView),
}

impl View for FetchReply {
    type V = FetchReplyView;

    open spec fn view(&self) -> FetchReplyView {
        match self {
            FetchReply::Failed => FetchReplyView::Failed,
            FetchReply::Unreadable => FetchReplyView::Unreadable,
            FetchReply::Content(content) => FetchReplyView::Content(content@),
        }
    }
}

/// What the text of a fetched manifest makes of an asset description. Text
/// that is no manifest, or nests too deep to be read, ends the run.
pub open spec fn merged(asset: AssetView, text: Step<Seq<char>>) -> Step<AssetView> {
    match text {
        Step::Skip(reason) => Step::Skip(reason),
        Step::Abort(error) => Step::Abort(error),
        Step::Proceed(text) => match readable_manifest(text) {
            Some(manifest) => Step::Proceed(updated(asset, manifest)),
            None => Step::Abort(FatalError::InvalidManifest),
        },
    }
}

/// What is to be written for an asset description once the host has been
/// asked. A request that failed and a reply that could not be read leave
/// the file as it is.
pub open spec fn settlement(asset: AssetView, reply: FetchReplyView) -> Step<AssetView> {
    match reply {
        FetchReplyView::Failed => Step::Skip(SkipReason::FetchFailed),
        FetchReplyView::Unreadable => Step::Skip(SkipReason::MalformedReply),
        FetchReplyView::Content(content) => merged(asset, reply_text(content)),
    }
}

/// Brings an asset description up to date with the text of a manifest.
pub fn merge_manifest(asset: AssetDescription, text: Step<String>) -> (r: Step<AssetDescription>)
    ensures
        r@ == merged(asset@, text@),
{
    match text {
        Step::Skip(reason) => Step::Skip(reason),
        Step::Abort(error) => Step::Abort(error),
        Step::Proceed(text) => match parse_manifest(text.as_str()) {
            Ok(manifest) => {
                let mut asset = asset;
                apply_manifest(&mut asset, &manifest);
                Step::Proceed(asset)
            },
            Err(_) => Step::Abort(FatalError::InvalidManifest),
        },
    }
}

/// Decides what is to be written for an asset description, given what came
/// of the request.
pub fn settle(asset: AssetDescription, reply: &FetchReply) -> (r: Step<AssetDescription>)
    ensures
        r@ == settlement(asset@, reply@),
{
    match reply {
        FetchReply::Failed => Step::Skip(SkipReason::FetchFailed),
        FetchReply::Unreadable => Step::Skip(SkipReason::MalformedReply),
        FetchReply::Content(content) => merge_manifest(asset, decode_reply(content)),
    }
}

/// Whether `r` is what the update of an asset description can come to, with
/// `fetch` to send the request: what the plan says where it asks for
/// nothing, and what is settled on a reply of `fetch` where it asks.
pub open spec fn is_update<F: FnOnce(&FetchRequest) -> FetchReply>(
    asset: Option<AssetView>,
    token: Option<Seq<char>>,
    fetch: F,
    r: Step<AssetView>,
) -> bool {
    match fetch_plan(asset, token) {
        Step::Skip(reason) => r == Step::<AssetView>::Skip(reason),
        Step::Abort(error) => r == Step::<AssetView>::Abort(error),
        Step::Proceed(planned) => exists|request: FetchRequest, reply: FetchReply|
            request@ == planned && call_ensures(fetch, (&request,), reply) && r == settlement(
                asset->0,
                reply@,
            ),
    }
}

/// Carries one asset description through a run: plans the request, has
/// `fetch` send it where one is called for, and settles on what `fetch`
/// brought back. Where no request is called for, `fetch` is not called.
pub fn update_asset<F: FnOnce(&FetchRequest) -> FetchReply>(
    asset: Option<AssetDescription>,
    token: Option<&str>,
    fetch: F,
) -> (r: Step<AssetDescription>)
    requires
        forall|request: FetchRequest| call_requires(fetch, (&request,)),
    ensures
        is_update(asset.deep_view(), token.deep_view(), fetch, r@),
{
    match asset {
        Some(asset) => match plan_request(classify_link(asset.link.as_str()), token) {
            Step::Skip(reason) => Step::Skip(reason),
            Step::Abort(error) => Step::Abort(error),
            Step::Proceed(request) => {
                let reply = fetch(&request);
                settle(asset, &reply)
            },
        },
        None => Step::Skip(SkipReason::MalformedAsset),
    }
}

/// What reading the file of an entry gave.
#[derive(Debug, Clone, PartialEq, Eq)]
pub enum Loaded {
    /// The file could not be read.
    Unreadable,
    /// The file was read and is no asset description.
    Malformed,
    /// The file holds this asset description.
    Parsed(AssetDescription),
}

/// What a [`Loaded`] says.
pub enum LoadedView {
    Unreadable,
    Malformed,
    Parsed(AssetView),
}

impl View for Loaded {
    type V = LoadedView;

    open spec fn view(&self) -> LoadedView {
        match self {
            Loaded::Unreadable => LoadedView::Unreadable,
            Loaded::Malformed => LoadedView::Malformed,
            Loaded::Parsed(asset) => LoadedView::Parsed(asset@),
        }
    }
}

/// Whether `r` is what a directory entry can come to, with `load` to read
/// its file and `fetch` to send a request. An entry that holds no asset
/// description is passed over; a file that cannot be read ends the run.
pub open spec fn is_entry_update<L: FnOnce() -> Loaded, F: FnOnce(&FetchRequest) -> FetchReply>(
    is_dir: bool,
    extension: Option<Seq<char>>,
    load: L,
    token: Option<Seq<char>>,
    fetch: F,
    r: Step<AssetView>,
) -> bool {
    if !is_asset_entry(is_dir, extension) {
        r == Step::<AssetView>::Skip(SkipReason::NotAnAsset)
    } else {
        exists|loaded: Loaded|
            call_ensures(load, (), loaded) && match loaded@ {
                LoadedView::Unreadable => r == Step::<AssetView>::Abort(
                    FatalError::UnreadableFile,
                ),
                LoadedView::Malformed => is_update(None, token, fetch, r),
                LoadedView::Parsed(asset) => is_update(Some(asset), token, fetch, r),
            }
    }
}

/// Carries one directory entry through a run: has `load` read and parse
/// its file where the entry holds an asset description, and goes on as
/// [`update_asset`] does. For any other entry neither `load` nor `fetch` is
/// called. What comes back as [`Step::Proceed`] is to be written to the
/// file; nothing else is.
pub fn update_entry<L: FnOnce() -> Loaded, F: FnOnce(&FetchRequest) -> FetchReply>(
    is_dir: bool,
    extension: Option<&str>,
    load: L,
    token: Option<&str>,
    fetch: F,
) -> (r: Step<AssetDescription>)
    requires
        call_requires(load, ()),
        forall|request: FetchRequest| call_requires(fetch, (&request,)),
    ensures
        is_entry_update(is_dir, extension.deep_view(), load, token.deep_view(), fetch, r@),
{
    if !is_asset_file(is_dir, extension) {
        return Step::Skip(SkipReason::NotAnAsset);
    }
    let loaded = load();
    match loaded {
        Loaded::Unreadable => Step::Abort(FatalError::UnreadableFile),
        Loaded::Malformed => update_asset(None, token, fetch),
        Loaded::Parsed(asset) => update_asset(Some(asset), token, fetch),
    }
}

/// An entry whose extension is not `toml` is passed over, whatever reading
/// its file or asking the host would give: it is not written, and the run
/// goes on.
pub proof fn lemma_other_extensions_are_passed_over<
    L: FnOnce() -> Loaded,
    F: FnOnce(&FetchRequest) -> FetchReply,
>(
    is_dir: bool,
    extension: Option<Seq<char>>,
    load: L,
    token: Option<Seq<char>>,
    fetch: F,
    r: Step<AssetView>,
)
    requires
        extension != Some("toml"@),
        is_entry_update(is_dir, extension, load, token, fetch, r),
    ensures
        !is_asset_entry(is_dir, extension),
        r == Step::<AssetView>::Skip(SkipReason::NotAnAsset),
{
}

/// For an asset description whose link has another host than the
/// repository host, no request is planned, and the update passes the file
/// over, whatever the token and whatever asking the host would give.
pub proof fn lemma_foreign_host_is_passed_over<F: FnOnce(&FetchRequest) -> FetchReply>(
    asset: AssetView,
    token: Option<Seq<char>>,
    fetch: F,
    r: Step<AssetView>,
)
    requires
        link_parts(asset.link) is Some,
        link_parts(asset.link)->0.host != Some(repository_host()),
        is_update(Some(asset), token, fetch, r),
    ensures
        fetch_plan(Some(asset), token) == Step::<RequestView>::Skip(SkipReason::ForeignHost),
        r == Step::<AssetView>::Skip(SkipReason::ForeignHost),
{
}

/// A request is made only for a link whose host is the repository host.
pub proof fn lemma_requests_go_to_host(asset: Option<AssetView>, token: Option<Seq<char>>)
    requires
        fetch_plan(asset, token) is Proceed,
    ensures
        asset is Some,
        link_parts(asset->0.link) is Some,
        link_parts(asset->0.link)->0.host == Some(repository_host()),
{
}

/// An asset description that could not be parsed asks for no request, and
/// the update passes the file over, whatever the token: the file is not
/// written, and the run goes on.
pub proof fn lemma_malformed_asset_is_passed_over<F: FnOnce(&FetchRequest) -> FetchReply>(
    token: Option<Seq<char>>,
    fetch: F,
    r: Step<AssetView>,
)
    requires
        is_update(None, token, fetch, r),
    ensures
        fetch_plan(None, token) == Step::<RequestView>::Skip(SkipReason::MalformedAsset),
        r == Step::<AssetView>::Skip(SkipReason::MalformedAsset),
{
}

} // verus!
