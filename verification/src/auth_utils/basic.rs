//! The Basic-Auth codec: `Basic base64(username:password)`, split at the first `:`.

use crate::encoding::{base64_decode, base64_decoding, base64_encoding, encode_text, utf8_text};
use crate::text::{
    chars_of, find_char, lemma_position, lemma_position_is, position, starts_with, string_of_range,
};
use vstd::prelude::*;
use vstd::string::*;
use vstd::utf8::*;

verus! {

/// The text `username:password` that Basic authentication encodes.
pub open spec fn credentials_text(username: Seq<char>, password: Seq<char>) -> Seq<char> {
    username + seq![':'] + password
}

/// The pair that a decoded credentials text stands for: what precedes its
/// first `:` and what follows it. A text without `:` stands for none.
pub open spec fn split_credentials_of(text: Seq<char>) -> Option<(Seq<char>, Seq<char>)> {
    let p = position(text, ':');
    if 0 <= p < text.len() {
        Some((text.take(p), text.skip(p + 1)))
    } else {
        None
    }
}

/// The credentials that the bytes of a decoded header stand for.
pub open spec fn credentials_of_bytes(bytes: Seq<u8>) -> Option<(Seq<char>, Seq<char>)> {
    if valid_utf8(bytes) {
        split_credentials_of(decode_utf8(bytes))
    } else {
        None
    }
}

/// The credentials that an `Authorization` header value carries: the value
/// begins with exactly `Basic `, the rest is Base64 of UTF-8 text, and that
/// text holds a `:`.
pub open spec fn basic_credentials(header: Seq<char>) -> Option<(Seq<char>, Seq<char>)> {
    if "Basic "@.is_prefix_of(header) {
        match base64_decoding(header.skip(6)) {
            Some(bytes) => credentials_of_bytes(bytes),
            None => None,
        }
    } else {
        None
    }
}

/// The views of an optional pair of strings.
pub open spec fn pair_view(pair: Option<(String, String)>) -> Option<(Seq<char>, Seq<char>)> {
    match pair {
        Some((a, b)) => Some((a@, b@)),
        None => None,
    }
}

/// Splits `username:password` at its first `:`.
pub fn split_credentials(text: &str) -> (out: Option<(String, String)>)
    ensures
        pair_view(out) == split_credentials_of(text@),
{
    let chars = chars_of(text);
    match find_char(chars.as_slice(), ':') {
        Some(p) => {
            assert(p < chars.len());
            let username = string_of_range(chars.as_slice(), 0, p);
            let password = string_of_range(chars.as_slice(), p + 1, chars.len());
            assert(text@.take(p as int) == text@.subrange(0, p as int));
            assert(text@.skip(p + 1) == text@.subrange(p + 1, text@.len() as int));
            Some((username, password))
        },
        None => None,
    }
}

/// Reads credentials from the bytes that the Base64 part of a header decoded to.
pub fn credentials_from_bytes(bytes: Vec<u8>) -> (out: Option<(String, String)>)
    ensures
        pair_view(out) == credentials_of_bytes(bytes@),
{
    match utf8_text(bytes) {
        Some(text) => split_credentials(text.as_str()),
        None => None,
    }
}

/// Decodes the credentials of a Basic `Authorization` header value.
///
/// Nothing is returned for a value without the exact prefix `Basic `, with a
/// rest that is not Base64, with bytes that are not UTF-8, or without a `:`.
pub fn parse_basic_auth(auth_header: &str) -> (out: Option<(String, String)>)
    ensures
        pair_view(out) == basic_credentials(auth_header@),
{
    let chars = chars_of(auth_header);
    let prefix = chars_of("Basic ");
    proof {
        reveal_strlit("Basic ");
    }
    if !starts_with(chars.as_slice(), prefix.as_slice()) {
        return None;
    }
    let rest = string_of_range(chars.as_slice(), 6, chars.len());
    assert(auth_header@.skip(6) == auth_header@.subrange(6, auth_header@.len() as int));
    match base64_decode(rest.as_str()) {
        Some(bytes) => credentials_from_bytes(bytes),
        None => None,
    }
}

/// A header yields no credentials where it lacks the prefix `Basic `, where
/// what follows the prefix is not Base64, where the decoded bytes are not
/// UTF-8, and where the decoded text holds no `:`.
pub proof fn lemma_basic_credentials_rejects(header: Seq<char>)
    ensures
        !"Basic "@.is_prefix_of(header) ==> basic_credentials(header) is None,
        base64_decoding(header.skip(6)) is None ==> basic_credentials(header) is None,
        base64_decoding(header.skip(6)) matches Some(bytes) && !valid_utf8(bytes)
            ==> basic_credentials(header) is None,
        base64_decoding(header.skip(6)) matches Some(bytes) && valid_utf8(bytes) && !decode_utf8(
            bytes,
        ).contains(':') ==> basic_credentials(header) is None,
{
    if let Some(bytes) = base64_decoding(header.skip(6)) {
        lemma_position(decode_utf8(bytes), ':');
    }
}

/// Credentials that a header yields are the two sides of the first `:` of the
/// decoded text: the username holds no `:`, and the text is the username, a
/// `:` and the password.
pub proof fn lemma_split_at_first_colon(text: Seq<char>)
    ensures
        match split_credentials_of(text) {
            Some((username, password)) => !username.contains(':') && text == credentials_text(
                username,
                password,
            ),
            None => !text.contains(':'),
        },
{
    lemma_position(text, ':');
    let p = position(text, ':');
    if p < text.len() {
        assert(text =~= text.take(p) + seq![':'] + text.skip(p + 1));
        if text.take(p).contains(':') {
            let k = choose|k: int| 0 <= k < text.take(p).len() && text.take(p)[k] == ':';
            assert(text[k] == ':');
        }
    }
}

/// The header value `Basic base64(username:password)`.
pub open spec fn basic_auth_header(username: Seq<char>, password: Seq<char>) -> Seq<char> {
    "Basic "@ + base64_encoding(encode_utf8(credentials_text(username, password)))
}

/// The text `username:password`.
fn credentials_string(username: &str, password: &str) -> (out: String)
    ensures
        out@ == credentials_text(username@, password@),
{
    let mut text = username.to_string();
    text.append(":");
    text.append(password);
    proof {
        reveal_strlit(":");
        assert(":"@ == seq![':']);
    }
    text
}

/// Encodes credentials as a Basic `Authorization` header value.
///
/// A `:` in the username is not escaped. Where the username holds none, the
/// header decodes back to the same pair.
pub fn create_basic_auth(username: &str, password: &str) -> (out: String)
    ensures
        out@ == basic_auth_header(username@, password@),
        !username@.contains(':') ==> basic_credentials(out@) == Some((username@, password@)),
{
    let text = credentials_string(username, password);
    let encoded = encode_text(text.as_str());
    let mut out = "Basic ".to_string();
    out.append(encoded.as_str());
    proof {
        reveal_strlit("Basic ");
        let t = credentials_text(username@, password@);
        let bytes = encode_utf8(t);
        assert("Basic "@.is_prefix_of(out@));
        assert(out@.skip(6) == encoded@);
        encode_utf8_valid_utf8(t);
        encode_utf8_decode_utf8(t);
        if !username@.contains(':') {
            lemma_position_is(t, ':', username@.len() as int);
            assert(t.take(username@.len() as int) == username@);
            assert(t.skip(username@.len() as int + 1) == password@);
        }
    }
    out
}

} // verus!
