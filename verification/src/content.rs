//! The host's reply to a request for a file: how its content is decoded.

use crate::outcome::{FatalError, SkipReason, Step};
use crate::text::{same_text, strip_newlines, trim, trimmed, without_newlines};
use vstd::prelude::*;
use vstd::utf8::{decode_utf8, encode_utf8, encode_utf8_decode_utf8, valid_utf8};

verus! {

/// The two fields that are read of the host's reply.
#[derive(Debug, Clone, PartialEq, Eq)]
pub struct ContentReply {
    /// How `content` is encoded.
    pub encoding: String,
    /// The file, encoded.
    pub content: String,
}

/// What a [`ContentReply`] says.
pub struct ContentView {
    pub encoding: Seq<char>,
    pub content: Seq<char>,
}

impl View for ContentReply {
    type V = ContentView;

    open spec fn view(&self) -> ContentView {
        ContentView { encoding: self.encoding@, content: self.content@ }
    }
}

/// The bytes that `base64::decode` reads out of `text`, or nothing where it
/// reports an error.
pub uninterp spec fn base64_payload(text: Seq<char>) -> Option<Seq<u8>>;

/// The error of `base64::decode`, carried as it is.
#[verifier::external_type_specification]
#[verifier::external_body]
pub struct ExDecodeError(base64::DecodeError);

/// The error of `String::from_utf8`, carried as it is.
#[verifier::external_type_specification]
#[verifier::external_body]
pub struct ExFromUtf8Error(std::string::FromUtf8Error);

/// Calls `base64::decode` on `text`. The contract gives the outcome its
/// name; it claims nothing else of it.
#[verifier::external_body]
fn decode_base64(text: &str) -> (r: Result<Vec<u8>, base64::DecodeError>)
    ensures
        base64_payload(text@) == match r {
            Ok(bytes) => Some(bytes@),
            Err(_) => None,
        },
{
    base64::decode(text)
}

/// `String::from_utf8` succeeds on the byte sequences that are valid UTF-8,
/// and the string it gives then holds exactly the bytes it was given.
pub assume_specification[ String::from_utf8 ](bytes: Vec<u8>) -> (r: Result<
    String,
    std::string::FromUtf8Error,
>)
    ensures
        r is Ok <==> valid_utf8(bytes@),
        r matches Ok(text) ==> encode_utf8(text@) == bytes@,
;

/// The encoding in which the host sends a file.
pub open spec fn expected_encoding() -> Seq<char> {
    "base64"@
}

/// What is handed to the base64 decoder: the content without its line feeds
/// and without the whitespace around it.
pub open spec fn payload_text(content: Seq<char>) -> Seq<char> {
    trim(strip_newlines(content))
}

/// The text that a byte sequence holds: its UTF-8 decoding, where it has
/// one. Bytes that are no UTF-8 end the run.
pub open spec fn text_in(bytes: Seq<u8>) -> Step<Seq<char>> {
    if valid_utf8(bytes) {
        Step::Proceed(decode_utf8(bytes))
    } else {
        Step::Abort(FatalError::InvalidUtf8)
    }
}

/// The text that a reply carries. A reply in another encoding than base64
/// is passed over; one whose content is not valid base64 ends the run.
pub open spec fn reply_text(reply: ContentView) -> Step<Seq<char>> {
    if reply.encoding != expected_encoding() {
        Step::Skip(SkipReason::UnknownEncoding)
    } else {
        match base64_payload(payload_text(reply.content)) {
            Some(bytes) => text_in(bytes),
            None => Step::Abort(FatalError::InvalidBase64),
        }
    }
}

/// Prepares the content of a reply for the base64 decoder.
pub fn clean_content(content: &str) -> (r: String)
    ensures
        r@ == payload_text(content@),
{
    let joined = without_newlines(content);
    trimmed(joined.as_str())
}

/// Reads decoded bytes as text.
pub fn text_of_bytes(bytes: Vec<u8>) -> (r: Step<String>)
    ensures
        r@ == text_in(bytes@),
{
    match String::from_utf8(bytes) {
        Ok(text) => {
            proof {
                encode_utf8_decode_utf8(text@);
            }
            Step::Proceed(text)
        },
        Err(_) => Step::Abort(FatalError::InvalidUtf8),
    }
}

/// Decodes the text that a reply carries.
pub fn decode_reply(reply: &ContentReply) -> (r: Step<String>)
    ensures
        r@ == reply_text(reply@),
{
    if !same_text(reply.encoding.as_str(), "base64") {
        return Step::Skip(SkipReason::UnknownEncoding);
    }
    let payload = clean_content(reply.content.as_str());
    match decode_base64(payload.as_str()) {
        Ok(bytes) => text_of_bytes(bytes),
        Err(_) => Step::Abort(FatalError::InvalidBase64),
    }
}

} // verus!
