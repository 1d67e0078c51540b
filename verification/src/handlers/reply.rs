//! The values that handlers take from a request and give back as a response.

use crate::text::text_of;
use vstd::prelude::*;

verus! {

/// A response that the gateway makes up itself: status, headers in order, text body.
#[derive(Debug)]
pub struct Reply {
    pub status: u16,
    pub headers: Vec<(String, String)>,
    pub body: String,
}

/// The texts of a `Reply`.
pub struct ReplyView {
    pub status: u16,
    pub headers: Seq<(Seq<char>, Seq<char>)>,
    pub body: Seq<char>,
}

/// The texts of a list of headers.
pub open spec fn headers_view(headers: Seq<(String, String)>) -> Seq<(Seq<char>, Seq<char>)> {
    Seq::new(headers.len(), |i: int| (headers[i].0@, headers[i].1@))
}

impl View for Reply {
    type V = ReplyView;

    open spec fn view(&self) -> ReplyView {
        ReplyView { status: self.status, headers: headers_view(self.headers@), body: self.body@ }
    }
}

/// A reply without headers.
pub open spec fn plain_reply(status: u16, body: Seq<char>) -> ReplyView {
    ReplyView { status, headers: Seq::empty(), body }
}

/// A reply with one header.
pub open spec fn reply_with_header(
    status: u16,
    name: Seq<char>,
    value: Seq<char>,
    body: Seq<char>,
) -> ReplyView {
    ReplyView { status, headers: seq![(name, value)], body }
}

/// Makes a reply without headers.
pub fn make_plain_reply(status: u16, body: String) -> (reply: Reply)
    ensures
        reply@ == plain_reply(status, body@),
{
    let reply = Reply { status, headers: Vec::new(), body };
    assert(headers_view(reply.headers@) =~= Seq::empty());
    reply
}

/// Makes a reply with one header.
pub fn make_reply(status: u16, name: &str, value: String, body: String) -> (reply: Reply)
    ensures
        reply@ == reply_with_header(status, name@, value@, body@),
{
    let mut headers: Vec<(String, String)> = Vec::new();
    headers.push((name.to_string(), value));
    let reply = Reply { status, headers, body };
    assert(headers_view(reply.headers@) =~= seq![(name@, value@)]);
    reply
}

/// The `Authorization` header of a client's request.
#[derive(Debug)]
pub enum ClientAuthorization {
    /// The request has no such header.
    Missing,
    /// The header's value is not visible text.
    Unreadable,
    /// The header's value.
    Value(String),
}

/// The header's value, where the request has a readable one.
pub open spec fn readable_value(authorization: ClientAuthorization) -> Option<Seq<char>> {
    match authorization {
        ClientAuthorization::Value(value) => Some(value@),
        _ => None,
    }
}

/// The header's value, where the request has a readable one.
pub fn readable_header(authorization: &ClientAuthorization) -> (out: Option<String>)
    ensures
        text_of(out) == readable_value(*authorization),
{
    match authorization {
        ClientAuthorization::Value(value) => Some(value.clone()),
        _ => None,
    }
}

} // verus!
