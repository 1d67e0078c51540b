//! Answers to requests that the gateway does not serve.

use crate::handlers::reply::{make_reply, reply_with_header, Reply};
use crate::text::{chars_of, find_char, position, string_of_range};
use vstd::prelude::*;
use vstd::string::*;

verus! {

/// Rejects a request for a path that the gateway does not know.
pub fn handle_invalid_request() -> (reply: Reply)
    ensures
        reply@ == reply_with_header(
            403,
            "Content-Type"@,
            "text/plain; charset=utf-8"@,
            "非法访问路径"@,
        ),
{
    make_reply(
        403,
        "Content-Type",
        "text/plain; charset=utf-8".to_string(),
        "非法访问路径".to_string(),
    )
}

/// The HTTPS address of a request: the host without its port, then the URI.
pub open spec fn https_location(host: Seq<char>, uri: Seq<char>) -> Seq<char> {
    "https://"@ + host.take(position(host, ':')) + uri
}

/// Sends a client from HTTP to the same address under HTTPS.
pub fn redirect_to_https(host: &str, uri: &str) -> (reply: Reply)
    ensures
        reply@ == reply_with_header(
            301,
            "Location"@,
            https_location(host@, uri@),
            Seq::empty(),
        ),
{
    let chars = chars_of(host);
    let end = match find_char(chars.as_slice(), ':') {
        Some(p) => p,
        None => chars.len(),
    };
    let name = string_of_range(chars.as_slice(), 0, end);
    assert(host@.take(end as int) == host@.subrange(0, end as int));
    let mut location = "https://".to_string();
    location.append(name.as_str());
    location.append(uri);
    make_reply(301, "Location", location, String::new())
}

} // verus!
