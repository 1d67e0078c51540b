//! Encodings, digests and the clock that the gateway takes from other crates:
//! Base64 (`base64`), SHA-256 (`sha2`), JSON string literals (`serde_json`),
//! dates (`chrono`), URL parsing (`reqwest::Url`), and the clock and UTF-8 of the
//! standard library.
//!
//! The functions marked `external_body` and the functions without a body are
//! trusted: Verus believes their contracts and does not read the code behind
//! them. `encode_bytes`, `encode_text` and `unix_time` are verified on top of them.

use base64::Engine;
use sha2::Digest;
use vstd::prelude::*;
use vstd::string::*;
use vstd::utf8::*;

verus! {

/// The standard Base64 text (RFC 4648 alphabet, padded) of `input`, as
/// `base64::engine::general_purpose::STANDARD` encodes it.
pub uninterp spec fn base64_encoding(input: Seq<u8>) -> Seq<char>;

/// The bytes that `base64::engine::general_purpose::STANDARD` decodes `text`
/// to, or `None` where it rejects `text`.
pub uninterp spec fn base64_decoding(text: Seq<char>) -> Option<Seq<u8>>;

/// Whether the padded Base64 text of `len` bytes has a length that fits in `usize`.
pub open spec fn base64_fits(len: nat) -> bool {
    4 * ((len + 2) / 3) <= usize::MAX
}

/// `Engine::encode` of `base64`, on the `STANDARD` engine.
///
/// Trusted: the result is the Base64 text of `input`, and the same engine
/// decodes that text back to `input`. The call panics where the length of the
/// text overflows `usize`, so such inputs are left out.
#[verifier::external_body]
pub(crate) fn base64_encode(input: &[u8]) -> (out: String)
    requires
        base64_fits(input@.len()),
    ensures
        out@ == base64_encoding(input@),
        base64_decoding(out@) == Some(input@),
{
    base64::engine::general_purpose::STANDARD.encode(input)
}

/// `Engine::decode` of `base64`, on the `STANDARD` engine.
///
/// Trusted: the result is what the engine decodes `text` to, `None` where it
/// returns an error.
#[verifier::external_body]
pub(crate) fn base64_decode(text: &str) -> (out: Option<Vec<u8>>)
    ensures
        match out {
            Some(bytes) => base64_decoding(text@) == Some(bytes@),
            None => base64_decoding(text@) is None,
        },
{
    base64::engine::general_purpose::STANDARD.decode(text).ok()
}

/// `String::from_utf8` of the standard library.
///
/// Trusted: the bytes are accepted exactly when they are valid UTF-8, and the
/// string then holds the characters they encode.
#[verifier::external_body]
pub(crate) fn utf8_text(bytes: Vec<u8>) -> (out: Option<String>)
    ensures
        match out {
            Some(s) => valid_utf8(bytes@) && s@ == decode_utf8(bytes@),
            None => !valid_utf8(bytes@),
        },
{
    String::from_utf8(bytes).ok()
}

/// The SHA-256 digest of `data`, as `sha2::Sha256` computes it.
pub uninterp spec fn sha256(data: Seq<u8>) -> Seq<u8>;

/// `Digest::digest` of `sha2::Sha256`.
///
/// Trusted: the result is the SHA-256 digest of `data`.
#[verifier::external_body]
pub(crate) fn sha256_digest(data: &[u8]) -> (out: Vec<u8>)
    ensures
        out@ == sha256(data@),
{
    sha2::Sha256::digest(data).to_vec()
}

/// The JSON string literal for `text`, quotes included, as `serde_json`
/// writes a `Value::String`.
pub uninterp spec fn json_string(text: Seq<char>) -> Seq<char>;

/// `to_string` of a `serde_json::Value::String`.
///
/// Trusted: the result is the JSON string literal for `text`.
#[verifier::external_body]
pub(crate) fn json_quote(text: &str) -> (out: String)
    ensures
        out@ == json_string(text@),
{
    serde_json::Value::String(text.to_string()).to_string()
}

/// The RFC 3339 text of the instant `seconds` and `nanos` nanoseconds after
/// the Unix epoch, in UTC, as `DateTime::to_rfc3339` of `chrono` writes it;
/// `None` where `DateTime::from_timestamp` has no date for the two numbers.
pub uninterp spec fn rfc3339_utc(seconds: int, nanos: int) -> Option<Seq<char>>;

/// `DateTime::from_timestamp` of `chrono`, written out by `to_rfc3339`.
///
/// Trusted: the result is the text of the instant that the two numbers name,
/// `None` where `chrono` has no date for them.
#[verifier::external_body]
pub(crate) fn rfc3339_text(seconds: i64, nanos: u32) -> (out: Option<String>)
    ensures
        match out {
            Some(text) => rfc3339_utc(seconds as int, nanos as int) == Some(text@),
            None => rfc3339_utc(seconds as int, nanos as int) is None,
        },
{
    chrono::DateTime::from_timestamp(seconds, nanos).map(|instant| instant.to_rfc3339())
}

/// `SystemTime` of the standard library: an instant that a clock read.
#[verifier::external_type_specification]
#[verifier::external_body]
pub struct ExSystemTime(std::time::SystemTime);

/// `SystemTime::now` of the standard library.
///
/// Trusted, with nothing claimed: the clock may read anything.
#[verifier::external_body]
pub(crate) fn system_now() -> (now: std::time::SystemTime) {
    std::time::SystemTime::now()
}

/// `SystemTime::duration_since` of the standard library, from the Unix epoch:
/// whole seconds and the nanoseconds beyond them.
///
/// Trusted, with nothing claimed: `None` stands for an instant before the epoch.
#[verifier::external_body]
pub(crate) fn since_epoch(instant: &std::time::SystemTime) -> (elapsed: Option<(u64, u32)>) {
    instant
        .duration_since(std::time::UNIX_EPOCH)
        .ok()
        .map(|elapsed| (elapsed.as_secs(), elapsed.subsec_nanos()))
}

/// Reads the clock: the time since the Unix epoch, if the clock is not before it.
pub(crate) fn unix_time() -> (now: Option<(u64, u32)>) {
    let instant = system_now();
    since_epoch(&instant)
}

/// `len` of a slice, of the standard library.
///
/// Trusted: beyond the length itself, that it is at most `isize::MAX`, as
/// the standard library documents of every slice.
#[verifier::external_body]
pub(crate) fn bounded_len(bytes: &[u8]) -> (n: usize)
    ensures
        n == bytes@.len(),
        n <= isize::MAX,
{
    bytes.len()
}

/// The Base64 text of the UTF-8 encoding of `text`.
pub open spec fn base64_text(text: Seq<char>) -> Seq<char> {
    base64_encoding(encode_utf8(text))
}

/// Encodes bytes in Base64.
pub fn encode_bytes(bytes: &[u8]) -> (out: String)
    ensures
        out@ == base64_encoding(bytes@),
        base64_decoding(out@) == Some(bytes@),
{
    let length = bounded_len(bytes);
    assert(base64_fits(length as nat)) by {
        assert(isize::MAX * 2 + 1 == usize::MAX);
    }
    base64_encode(bytes)
}

/// Encodes the UTF-8 bytes of `text` in Base64.
pub fn encode_text(text: &str) -> (out: String)
    ensures
        out@ == base64_text(text@),
        base64_decoding(out@) == Some(encode_utf8(text@)),
{
    encode_bytes(text.as_bytes())
}

/// What `Url::parse` objects to in `text`, as the error's message, or `None`
/// where it accepts `text` as an absolute URL.
pub uninterp spec fn url_parse_error(text: Seq<char>) -> Option<Seq<char>>;

/// `Url::parse` of `reqwest` (the crate `url`), kept for its verdict alone.
///
/// Trusted: the result is the message of the error that the parser returns
/// for `text`, or `None` where it returns a URL.
#[verifier::external_body]
pub(crate) fn url_error(text: &str) -> (out: Option<String>)
    ensures
        match out {
            Some(message) => url_parse_error(text@) == Some(message@),
            None => url_parse_error(text@) is None,
        },
{
    reqwest::Url::parse(text).err().map(|e| e.to_string())
}

} // verus!
