//! The request that asks the host for a repository's manifest.

use crate::link::{Repository, RepositoryView};
use vstd::prelude::*;
use vstd::string::StringExecFns;

verus! {

/// One request to the host, ready to be sent.
#[derive(Debug, Clone, PartialEq, Eq)]
pub struct FetchRequest {
    /// The address to get.
    pub url: String,
    /// The value of the `Accept` header.
    pub accept: String,
    /// The value of the `User-Agent` header.
    pub user_agent: String,
    /// The token of the `Authorization` header, sent as a bearer token.
    pub bearer_token: String,
}

/// What a [`FetchRequest`] says.
pub struct RequestView {
    pub url: Seq<char>,
    pub accept: Seq<char>,
    pub user_agent: Seq<char>,
    pub bearer_token: Seq<char>,
}

impl View for FetchRequest {
    type V = RequestView;

    open spec fn view(&self) -> RequestView {
        RequestView {
            url: self.url@,
            accept: self.accept@,
            user_agent: self.user_agent@,
            bearer_token: self.bearer_token@,
        }
    }
}

/// The address under which the host serves the manifest of `repo`.
pub open spec fn contents_url(repo: RepositoryView) -> Seq<char> {
    "https://api.github.com/repos/"@ + repo.owner + "/"@ + repo.name + "/contents/Cargo.toml"@
}

/// The request for the manifest of `repo`, made in the name of `token`.
pub open spec fn request_for(repo: RepositoryView, token: Seq<char>) -> RequestView {
    RequestView {
        url: contents_url(repo),
        accept: "application/json"@,
        user_agent: "bevy-tools"@,
        bearer_token: token,
    }
}

/// Builds the address under which the host serves the manifest of `repo`.
pub fn manifest_url(repo: &Repository) -> (r: String)
    ensures
        r@ == contents_url(repo@),
{
    let mut url = "https://api.github.com/repos/".to_owned();
    url.append(repo.owner.as_str());
    url.append("/");
    url.append(repo.name.as_str());
    url.append("/contents/Cargo.toml");
    url
}

/// Builds the request for the manifest of `repo`.
pub fn manifest_request(repo: &Repository, token: &str) -> (r: FetchRequest)
    ensures
        r@ == request_for(repo@, token@),
{
    FetchRequest {
        url: manifest_url(repo),
        accept: "application/json".to_owned(),
        user_agent: "bevy-tools".to_owned(),
        bearer_token: token.to_owned(),
    }
}

} // verus!
