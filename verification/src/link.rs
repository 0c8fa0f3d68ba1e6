//! The link of an asset description: which repository it names, if any.

use crate::outcome::{FatalError, SkipReason, Step};
use crate::text::same_text;
use vstd::prelude::*;

verus! {

/// The parts of a URL that decide where a link leads.
#[derive(Debug, Clone, PartialEq, Eq)]
pub struct LinkParts {
    /// The host, in the form the URL holds it.
    pub host: Option<String>,
    /// The segments of the path; none where the URL has no hierarchical path.
    pub segments: Option<Vec<String>>,
}

/// A repository on the host.
#[derive(Debug, Clone, PartialEq, Eq)]
pub struct Repository {
    pub owner: String,
    pub name: String,
}

/// What [`LinkParts`] say.
pub struct LinkPartsView {
    pub host: Option<Seq<char>>,
    pub segments: Option<Seq<Seq<char>>>,
}

/// What a [`Repository`] says.
pub struct RepositoryView {
    pub owner: Seq<char>,
    pub name: Seq<char>,
}

impl View for LinkParts {
    type V = LinkPartsView;

    open spec fn view(&self) -> LinkPartsView {
        LinkPartsView { host: self.host.deep_view(), segments: self.segments.deep_view() }
    }
}

impl View for Repository {
    type V = RepositoryView;

    open spec fn view(&self) -> RepositoryView {
        RepositoryView { owner: self.owner@, name: self.name@ }
    }
}

/// The host and the path segments that `url::Url::parse` finds in `link`, or
/// nothing where it reports an error.
pub uninterp spec fn link_parts(link: Seq<char>) -> Option<LinkPartsView>;

/// The error of `url::Url::parse`, carried as it is.
#[verifier::external_type_specification]
#[verifier::external_body]
pub struct ExUrlParseError(url::ParseError);

/// Calls `url::Url::parse` on `link` and hands over what `host_str` and
/// `path_segments` give for the parsed URL. The contract gives the outcome
/// its name; it claims nothing else of it.
#[verifier::external_body]
fn read_link(link: &str) -> (r: Result<LinkParts, url::ParseError>)
    ensures
        link_parts(link@) == match r {
            Ok(parts) => Some(parts@),
            Err(_) => None,
        },
{
    let url = url::Url::parse(link)?;
    let host = url.host_str().map(String::from);
    let segments = url.path_segments().map(|parts| parts.map(String::from).collect());
    Ok(LinkParts { host, segments })
}

/// The host that holds the repositories.
pub open spec fn repository_host() -> Seq<char> {
    "github.com"@
}

/// Where the parts of a link lead: to the repository that the first two
/// path segments name, where the host is the repository host and the path
/// has two segments; nowhere otherwise.
pub open spec fn repository_of(parts: LinkPartsView) -> Step<RepositoryView> {
    if parts.host != Some(repository_host()) {
        Step::Skip(SkipReason::ForeignHost)
    } else if parts.segments is Some && parts.segments->0.len() >= 2 {
        Step::Proceed(RepositoryView { owner: parts.segments->0[0], name: parts.segments->0[1] })
    } else {
        Step::Skip(SkipReason::NoRepository)
    }
}

/// Where a link leads. A link that is no URL ends the run.
pub open spec fn link_target(link: Seq<char>) -> Step<RepositoryView> {
    match link_parts(link) {
        Some(parts) => repository_of(parts),
        None => Step::Abort(FatalError::InvalidLink),
    }
}

/// Decides where the parts of a link lead.
pub fn classify_parts(parts: &LinkParts) -> (r: Step<Repository>)
    ensures
        r@ == repository_of(parts@),
{
    let on_host = match &parts.host {
        Some(host) => same_text(host.as_str(), "github.com"),
        None => false,
    };
    if !on_host {
        return Step::Skip(SkipReason::ForeignHost);
    }
    match &parts.segments {
        Some(segments) => {
            if segments.len() >= 2 {
                assert(segments.deep_view()[0] == segments[0]@);
                assert(segments.deep_view()[1] == segments[1]@);
                Step::Proceed(Repository { owner: segments[0].clone(), name: segments[1].clone() })
            } else {
                Step::Skip(SkipReason::NoRepository)
            }
        },
        None => Step::Skip(SkipReason::NoRepository),
    }
}

/// Decides where a link leads.
pub fn classify_link(link: &str) -> (r: Step<Repository>)
    ensures
        r@ == link_target(link@),
{
    match read_link(link) {
        Ok(parts) => classify_parts(&parts),
        Err(_) => Step::Abort(FatalError::InvalidLink),
    }
}

} // verus!
