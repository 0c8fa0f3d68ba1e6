//! How one step of a run can end.

use vstd::prelude::*;

verus! {

/// Why a file is left as it is while the run goes on.
#[derive(Debug, Clone, Copy, PartialEq, Eq)]
pub enum SkipReason {
    /// The entry is a directory, or a file of another kind.
    NotAnAsset,
    /// The asset description could not be read as a document.
    MalformedAsset,
    /// The link does not lead to the repository host.
    ForeignHost,
    /// The link does not name an owner and a repository.
    NoRepository,
    /// The request to the host failed in transit.
    FetchFailed,
    /// The host's reply could not be read.
    MalformedReply,
    /// The host's reply is not in base64.
    UnknownEncoding,
}

/// Why the whole run ends.
#[derive(Debug, Clone, Copy, PartialEq, Eq)]
pub enum FatalError {
    /// The file of an asset description could not be read.
    UnreadableFile,
    /// The link of an asset description is no URL.
    InvalidLink,
    /// The host's access token is not set.
    MissingToken,
    /// The host's reply is not valid base64.
    InvalidBase64,
    /// The decoded reply is not valid UTF-8.
    InvalidUtf8,
    /// The decoded reply is no package manifest.
    InvalidManifest,
}

impl SkipReason {
    /// The reason in words.
    pub open spec fn text(self) -> Seq<char> {
        match self {
            SkipReason::NotAnAsset => "entry is no asset description"@,
            SkipReason::MalformedAsset => "asset description is not a valid document"@,
            SkipReason::ForeignHost => "link does not lead to github.com"@,
            SkipReason::NoRepository => "link does not name an owner and a repository"@,
            SkipReason::FetchFailed => "request failed"@,
            SkipReason::MalformedReply => "reply could not be read"@,
            SkipReason::UnknownEncoding => "content is not in base64"@,
        }
    }

    /// Tells whether the reason is to be told to the operator when it
    /// comes up: the ones that no message of another kind goes with.
    pub fn is_reported(&self) -> (r: bool)
        ensures
            r == (self is NoRepository || self is UnknownEncoding),
    {
        match self {
            SkipReason::NoRepository | SkipReason::UnknownEncoding => true,
            _ => false,
        }
    }

    /// Says the reason in words.
    pub fn describe(&self) -> (r: String)
        ensures
            r@ == self.text(),
    {
        match self {
            SkipReason::NotAnAsset => "entry is no asset description".to_owned(),
            SkipReason::MalformedAsset => "asset description is not a valid document".to_owned(),
            SkipReason::ForeignHost => "link does not lead to github.com".to_owned(),
            SkipReason::NoRepository => "link does not name an owner and a repository".to_owned(),
            SkipReason::FetchFailed => "request failed".to_owned(),
            SkipReason::MalformedReply => "reply could not be read".to_owned(),
            SkipReason::UnknownEncoding => "content is not in base64".to_owned(),
        }
    }
}

impl FatalError {
    /// The error in words.
    pub open spec fn text(self) -> Seq<char> {
        match self {
            FatalError::UnreadableFile => "file could not be read"@,
            FatalError::InvalidLink => "link is not a valid URL"@,
            FatalError::MissingToken => "access token is not set"@,
            FatalError::InvalidBase64 => "content is not valid base64"@,
            FatalError::InvalidUtf8 => "content is not valid UTF-8"@,
            FatalError::InvalidManifest => "content is not a package manifest"@,
        }
    }

    /// Says the error in words.
    pub fn describe(&self) -> (r: String)
        ensures
            r@ == self.text(),
    {
        match self {
            FatalError::UnreadableFile => "file could not be read".to_owned(),
            FatalError::InvalidLink => "link is not a valid URL".to_owned(),
            FatalError::MissingToken => "access token is not set".to_owned(),
            FatalError::InvalidBase64 => "content is not valid base64".to_owned(),
            FatalError::InvalidUtf8 => "content is not valid UTF-8".to_owned(),
            FatalError::InvalidManifest => "content is not a package manifest".to_owned(),
        }
    }
}

/// What a step decides: to leave the file alone, to end the run, or to go on
/// with a value.
#[derive(Debug, Clone, PartialEq, Eq)]
pub enum Step<T> {
    Skip(SkipReason),
    Abort(FatalError),
    Proceed(T),
}

impl<T: View> View for Step<T> {
    type V = Step<T::V>;

    open spec fn view(&self) -> Step<T::V> {
        match self {
            Step::Skip(reason) => Step::Skip(*reason),
            Step::Abort(error) => Step::Abort(*error),
            Step::Proceed(value) => Step::Proceed(value@),
        }
    }
}

} // verus!
