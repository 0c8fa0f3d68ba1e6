use asset_sync::content::{clean_content, decode_reply, text_of_bytes, ContentReply};
use asset_sync::outcome::{FatalError, SkipReason, Step};

fn reply(encoding: &str, content: &str) -> ContentReply {
    ContentReply { encoding: encoding.to_string(), content: content.to_string() }
}

#[test]
fn content_is_cleaned_before_decoding() {
    assert_eq!(clean_content("aGVs\nbG8=\n"), "aGVsbG8=");
    assert_eq!(clean_content("  aGVsbG8=\n  "), "aGVsbG8=");
    assert_eq!(clean_content("aG Vs"), "aG Vs");
    assert_eq!(clean_content(""), "");
}

#[test]
fn base64_reply_is_decoded() {
    assert_eq!(decode_reply(&reply("base64", "aGVsbG8gd29ybGQ=")), Step::Proceed("hello world".to_string()));
    assert_eq!(decode_reply(&reply("base64", "aGVsbG8g\nd29ybGQ=\n")), Step::Proceed("hello world".to_string()));
    assert_eq!(decode_reply(&reply("base64", "")), Step::Proceed(String::new()));
    assert_eq!(decode_reply(&reply("base64", "w6k=")), Step::Proceed("é".to_string()));
}

#[test]
fn other_encodings_are_passed_over() {
    assert_eq!(decode_reply(&reply("utf-8", "aGVsbG8=")), Step::Skip(SkipReason::UnknownEncoding));
    assert_eq!(decode_reply(&reply("", "aGVsbG8=")), Step::Skip(SkipReason::UnknownEncoding));
    assert_eq!(decode_reply(&reply("Base64", "aGVsbG8=")), Step::Skip(SkipReason::UnknownEncoding));
    assert_eq!(decode_reply(&reply("none", "!!")), Step::Skip(SkipReason::UnknownEncoding));
}

#[test]
fn invalid_base64_is_fatal() {
    assert_eq!(decode_reply(&reply("base64", "!!!!")), Step::Abort(FatalError::InvalidBase64));
    assert_eq!(decode_reply(&reply("base64", "a")), Step::Abort(FatalError::InvalidBase64));
    assert_eq!(decode_reply(&reply("base64", "aGVsb*8=")), Step::Abort(FatalError::InvalidBase64));
    assert_eq!(decode_reply(&reply("base64", "aGVs bG8=")), Step::Abort(FatalError::InvalidBase64));
}

#[test]
fn bytes_that_are_no_text_are_fatal() {
    assert_eq!(decode_reply(&reply("base64", "/w==")), Step::Abort(FatalError::InvalidUtf8));
    assert_eq!(text_of_bytes(vec![0xC3, 0x28]), Step::Abort(FatalError::InvalidUtf8));
    assert_eq!(text_of_bytes(vec![0xED, 0xA0, 0x80]), Step::Abort(FatalError::InvalidUtf8));
}

#[test]
fn bytes_are_read_as_text() {
    assert_eq!(text_of_bytes(vec![0x68, 0x69]), Step::Proceed("hi".to_string()));
    assert_eq!(text_of_bytes(vec![0xE2, 0x82, 0xAC]), Step::Proceed("€".to_string()));
    assert_eq!(text_of_bytes(Vec::new()), Step::Proceed(String::new()));
}
