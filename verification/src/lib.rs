//! Keeps asset description documents in step with the manifests of the
//! repositories they link to.
//!
//! The crate holds the decisions of one synchronisation run: which directory
//! entries are asset documents, which links lead to a repository host, what is
//! asked of the host, how its reply is decoded, and which fields of the
//! document change. Reading and writing files and talking to the network are
//! left to the caller.

pub mod asset;
pub mod content;
pub mod link;
pub mod manifest;
pub mod nesting;
pub mod outcome;
pub mod request;
pub mod sync;
pub mod text;
