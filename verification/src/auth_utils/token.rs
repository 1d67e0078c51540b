//! The local token issuer: scopes, claims and the token of three parts.

use crate::encoding::{
    base64_text, encode_text, json_quote, json_string, rfc3339_text, rfc3339_utc, sha256,
    sha256_digest, unix_time,
};
use crate::text::{
    chars_of, decimal_of, hex_of, split, split_on, string_of, texts_of, to_decimal, to_hex,
    views_of,
};
use vstd::prelude::*;
use vstd::string::*;
use vstd::utf8::*;

verus! {

/// Splits the `scope` query parameter at every space; empty pieces are kept.
pub fn parse_scope(scope: &str) -> (scopes: Vec<String>)
    ensures
        texts_of(scopes@) == split_on(scope@, ' '),
{
    let chars = chars_of(scope);
    let pieces = split(chars.as_slice(), ' ');
    let mut scopes: Vec<String> = Vec::new();
    let mut i: usize = 0;
    while i < pieces.len()
        invariant
            0 <= i <= pieces.len(),
            scopes@.len() == i,
            forall|j: int| 0 <= j < i ==> scopes@[j]@ == pieces@[j]@,
        decreases pieces.len() - i,
    {
        scopes.push(string_of(pieces[i].as_slice()));
        i += 1;
    }
    assert(texts_of(scopes@) =~= views_of(pieces@));
    scopes
}

/// What a token grants on one resource.
#[derive(Debug)]
pub struct AccessEntry {
    pub resource_type: String,
    pub name: String,
    pub actions: Vec<String>,
}

/// The texts of an `AccessEntry`.
pub struct AccessEntryView {
    pub resource_type: Seq<char>,
    pub name: Seq<char>,
    pub actions: Seq<Seq<char>>,
}

impl View for AccessEntry {
    type V = AccessEntryView;

    open spec fn view(&self) -> AccessEntryView {
        AccessEntryView {
            resource_type: self.resource_type@,
            name: self.name@,
            actions: texts_of(self.actions@),
        }
    }
}

/// The access that a scope string asks for. A scope of exactly three parts
/// `type:name:actions` names its type, its name and its comma-separated
/// actions; any other scope is taken as the name of a repository to pull.
pub open spec fn scope_access_of(scope: Seq<char>) -> AccessEntryView {
    let parts = split_on(scope, ':');
    if parts.len() == 3 {
        AccessEntryView {
            resource_type: parts[0],
            name: parts[1],
            actions: split_on(parts[2], ','),
        }
    } else {
        AccessEntryView { resource_type: "repository"@, name: scope, actions: seq!["pull"@] }
    }
}

/// Turns character vectors into strings.
fn strings_of(pieces: &Vec<Vec<char>>) -> (out: Vec<String>)
    ensures
        texts_of(out@) == views_of(pieces@),
{
    let mut out: Vec<String> = Vec::new();
    let mut i: usize = 0;
    while i < pieces.len()
        invariant
            0 <= i <= pieces.len(),
            out@.len() == i,
            forall|j: int| 0 <= j < i ==> out@[j]@ == pieces@[j]@,
        decreases pieces.len() - i,
    {
        out.push(string_of(pieces[i].as_slice()));
        i += 1;
    }
    assert(texts_of(out@) =~= views_of(pieces@));
    out
}

/// Reads one scope string into the access it asks for.
pub fn scope_access(scope: &str) -> (entry: AccessEntry)
    ensures
        entry@ == scope_access_of(scope@),
{
    let chars = chars_of(scope);
    let parts = split(chars.as_slice(), ':');
    if parts.len() == 3 {
        let ghost all = split_on(scope@, ':');
        assert(all[0] == parts@[0]@ && all[1] == parts@[1]@ && all[2] == parts@[2]@);
        let actions = split(parts[2].as_slice(), ',');
        AccessEntry {
            resource_type: string_of(parts[0].as_slice()),
            name: string_of(parts[1].as_slice()),
            actions: strings_of(&actions),
        }
    } else {
        let mut actions: Vec<String> = Vec::new();
        actions.push("pull".to_string());
        assert(texts_of(actions@) =~= seq!["pull"@]);
        AccessEntry {
            resource_type: "repository".to_string(),
            name: scope.to_string(),
            actions,
        }
    }
}

/// The items, with `,` between each two.
pub open spec fn comma_joined(items: Seq<Seq<char>>) -> Seq<char>
    decreases items.len(),
{
    if items.len() == 0 {
        Seq::empty()
    } else if items.len() == 1 {
        items[0]
    } else {
        comma_joined(items.drop_last()) + seq![','] + items.last()
    }
}

/// The JSON array that holds the given JSON texts.
pub open spec fn json_array(items: Seq<Seq<char>>) -> Seq<char> {
    seq!['['] + comma_joined(items) + seq![']']
}

/// Writes JSON texts as one JSON array.
pub fn write_json_array(items: &Vec<String>) -> (out: String)
    ensures
        out@ == json_array(texts_of(items@)),
{
    let mut out = "[".to_string();
    let ghost all = texts_of(items@);
    proof {
        reveal_strlit("[");
        reveal_strlit("]");
        reveal_strlit(",");
        assert("["@ == seq!['[']);
        assert(all.take(0) == Seq::<Seq<char>>::empty());
    }
    let mut i: usize = 0;
    while i < items.len()
        invariant
            0 <= i <= items.len(),
            all == texts_of(items@),
            ","@ == seq![','],
            out@ == seq!['['] + comma_joined(all.take(i as int)),
        decreases items.len() - i,
    {
        proof {
            let next = all.take(i + 1);
            assert(next.drop_last() == all.take(i as int));
            assert(next.last() == items@[i as int]@);
        }
        if i > 0 {
            out.append(",");
        }
        out.append(items[i].as_str());
        i += 1;
    }
    assert(all.take(items.len() as int) == all);
    out.append("]");
    assert("]"@ == seq![']']);
    out
}

/// The JSON object of an access entry whose parts are JSON texts already:
/// the array of its actions, its name and its type, keys in alphabetical order.
pub open spec fn access_object(
    actions: Seq<Seq<char>>,
    name: Seq<char>,
    resource_type: Seq<char>,
) -> Seq<char> {
    "{\"actions\":"@ + json_array(actions) + ",\"name\":"@ + name + ",\"type\":"@ + resource_type
        + "}"@
}

/// Writes the JSON object of an access entry from the JSON texts of its parts.
pub fn write_access_object(actions: &Vec<String>, name: &str, resource_type: &str) -> (out: String)
    ensures
        out@ == access_object(texts_of(actions@), name@, resource_type@),
{
    let mut out = "{\"actions\":".to_string();
    out.append(write_json_array(actions).as_str());
    out.append(",\"name\":");
    out.append(name);
    out.append(",\"type\":");
    out.append(resource_type);
    out.append("}");
    out
}

/// The JSON object of one access entry: every action, the name and the type
/// as JSON string literals.
pub open spec fn access_json(entry: AccessEntryView) -> Seq<char> {
    access_object(
        entry.actions.map_values(|a: Seq<char>| json_string(a)),
        json_string(entry.name),
        json_string(entry.resource_type),
    )
}

/// Writes one access entry as a JSON object.
pub fn write_access(entry: &AccessEntry) -> (out: String)
    ensures
        out@ == access_json(entry@),
{
    let mut quoted: Vec<String> = Vec::new();
    let mut i: usize = 0;
    while i < entry.actions.len()
        invariant
            0 <= i <= entry.actions.len(),
            quoted@.len() == i,
            forall|j: int| 0 <= j < i ==> quoted@[j]@ == json_string(entry.actions@[j]@),
        decreases entry.actions.len() - i,
    {
        quoted.push(json_quote(entry.actions[i].as_str()));
        i += 1;
    }
    assert(texts_of(quoted@) =~= entry@.actions.map_values(|a: Seq<char>| json_string(a)));
    write_access_object(
        &quoted,
        json_quote(entry.name.as_str()).as_str(),
        json_quote(entry.resource_type.as_str()).as_str(),
    )
}

/// The token that the gateway hands to its clients.
#[derive(Debug)]
pub struct TokenResponse {
    pub token: String,
    pub access_token: String,
    pub expires_in: u64,
    pub issued_at: String,
}

/// How many seconds a local token is valid for.
pub const TOKEN_LIFETIME: u64 = 3600;

/// The claims of a local token as a JSON object, keys in alphabetical order:
/// the access entries, the audience, the expiry one hour after `now`, the
/// time of issue, the issuer, the token id, the time from which the token
/// holds, and the subject. The entries, the id and the subject are JSON texts
/// already.
pub open spec fn claims_object(
    access: Seq<Seq<char>>,
    now: int,
    token_id: Seq<char>,
    subject: Seq<char>,
) -> Seq<char> {
    "{\"access\":"@ + json_array(access) + ",\"aud\":\"registry.docker.io\",\"exp\":"@
        + decimal_of(now + 3600) + ",\"iat\":"@ + decimal_of(now) + ",\"iss\":\"docxy\",\"jti\":"@
        + token_id + ",\"nbf\":"@ + decimal_of(now) + ",\"sub\":"@ + subject + "}"@
}

/// Writes the claims of a local token from the JSON texts of their parts.
pub fn write_claims_object(
    access: &Vec<String>,
    now: i64,
    token_id: &str,
    subject: &str,
) -> (out: String)
    requires
        now <= i64::MAX - 3600,
    ensures
        out@ == claims_object(texts_of(access@), now as int, token_id@, subject@),
{
    let mut out = "{\"access\":".to_string();
    out.append(write_json_array(access).as_str());
    out.append(",\"aud\":\"registry.docker.io\",\"exp\":");
    out.append(to_decimal(now + 3600).as_str());
    out.append(",\"iat\":");
    out.append(to_decimal(now).as_str());
    out.append(",\"iss\":\"docxy\",\"jti\":");
    out.append(token_id);
    out.append(",\"nbf\":");
    out.append(to_decimal(now).as_str());
    out.append(",\"sub\":");
    out.append(subject);
    out.append("}");
    out
}

/// The claims of the local token of `username` for `scopes` at the time
/// `now`: one access entry per scope, the hexadecimal SHA-256 digest of the
/// username as token id, and the username as subject.
pub open spec fn claims_json(username: Seq<char>, scopes: Seq<Seq<char>>, now: int) -> Seq<char> {
    claims_object(
        scopes.map_values(|scope: Seq<char>| access_json(scope_access_of(scope))),
        now,
        json_string(hex_of(sha256(encode_utf8(username)))),
        json_string(username),
    )
}

/// Writes the claims of a local token.
pub fn write_claims(username: &str, scopes: &[String], now: i64) -> (out: String)
    requires
        now <= i64::MAX - 3600,
    ensures
        out@ == claims_json(username@, texts_of(scopes@), now as int),
{
    let mut entries: Vec<String> = Vec::new();
    let mut i: usize = 0;
    while i < scopes.len()
        invariant
            0 <= i <= scopes.len(),
            entries@.len() == i,
            forall|j: int|
                0 <= j < i ==> entries@[j]@ == access_json(scope_access_of(scopes@[j]@)),
        decreases scopes.len() - i,
    {
        let entry = scope_access(scopes[i].as_str());
        entries.push(write_access(&entry));
        i += 1;
    }
    assert(texts_of(entries@) =~= texts_of(scopes@).map_values(
        |scope: Seq<char>| access_json(scope_access_of(scope)),
    ));
    let token_id = to_hex(sha256_digest(username.as_bytes()).as_slice());
    write_claims_object(
        &entries,
        now,
        json_quote(token_id.as_str()).as_str(),
        json_quote(username).as_str(),
    )
}

/// The last part of a token before its encoding: a fixed prefix, then the
/// digest of the token's body in hexadecimal.
pub open spec fn token_seal(digest: Seq<u8>) -> Seq<char> {
    "docxy-signature-"@ + hex_of(digest)
}

/// Writes the last part of a token from the digest of its body.
pub fn write_token_seal(digest: &[u8]) -> (out: String)
    ensures
        out@ == token_seal(digest@),
{
    let mut out = "docxy-signature-".to_string();
    out.append(to_hex(digest).as_str());
    out
}

/// Two texts with a `.` between them.
pub open spec fn dotted(left: Seq<char>, right: Seq<char>) -> Seq<char> {
    left + "."@ + right
}

/// Joins two parts of a token with a `.`.
pub fn join_parts(left: &str, right: &str) -> (out: String)
    ensures
        out@ == dotted(left@, right@),
{
    let mut out = left.to_string();
    out.append(".");
    out.append(right);
    out
}

/// The header and the payload of a local token, joined by a `.`: each the
/// Base64 text of a JSON object.
pub open spec fn token_body(username: Seq<char>, scopes: Seq<Seq<char>>, now: int) -> Seq<char> {
    dotted(
        base64_text("{\"alg\":\"HS256\",\"typ\":\"JWT\"}"@),
        base64_text(claims_json(username, scopes, now)),
    )
}

/// A local token: its body, a `.`, and the Base64 text of the seal over the
/// SHA-256 digest of the body.
///
/// The last part is a plain digest. It is no signature: whoever knows this
/// rule can produce it, so the token authorises nothing by itself.
pub open spec fn docker_token(username: Seq<char>, scopes: Seq<Seq<char>>, now: int) -> Seq<
    char,
> {
    dotted(
        token_body(username, scopes, now),
        base64_text(token_seal(sha256(encode_utf8(token_body(username, scopes, now))))),
    )
}

/// Issues the local token of `username` for the given scopes at the time `now`
/// (seconds since the Unix epoch), which `issued_at` spells out.
pub fn issue_docker_token(
    username: &str,
    scopes: &[String],
    now: i64,
    issued_at: String,
) -> (out: TokenResponse)
    requires
        now <= i64::MAX - 3600,
    ensures
        out.token@ == docker_token(username@, texts_of(scopes@), now as int),
        out.access_token@ == out.token@,
        out.expires_in == TOKEN_LIFETIME,
        out.issued_at == issued_at,
{
    let header = encode_text("{\"alg\":\"HS256\",\"typ\":\"JWT\"}");
    let payload = encode_text(write_claims(username, scopes, now).as_str());
    let body = join_parts(header.as_str(), payload.as_str());
    let seal = write_token_seal(sha256_digest(body.as_str().as_bytes()).as_slice());
    let token = join_parts(body.as_str(), encode_text(seal.as_str()).as_str());
    TokenResponse {
        token: token.clone(),
        access_token: token,
        expires_in: TOKEN_LIFETIME,
        issued_at,
    }
}

/// The texts of a `TokenResponse`.
pub struct TokenResponseView {
    pub token: Seq<char>,
    pub access_token: Seq<char>,
    pub expires_in: u64,
    pub issued_at: Seq<char>,
}

impl View for TokenResponse {
    type V = TokenResponseView;

    open spec fn view(&self) -> TokenResponseView {
        TokenResponseView {
            token: self.token@,
            access_token: self.access_token@,
            expires_in: self.expires_in,
            issued_at: self.issued_at@,
        }
    }
}

/// The view of an optional token response.
pub open spec fn response_view(response: Option<TokenResponse>) -> Option<TokenResponseView> {
    match response {
        Some(response) => Some(response@),
        None => None,
    }
}

/// The local token for what a clock read: `seconds` and `nanos` since the
/// Unix epoch. The token is that of the second; `issued_at` is the instant in
/// RFC 3339; both token fields hold the token, valid for an hour. There is no
/// token without a reading, for a second whose expiry does not fit in 64
/// bits, and for an instant that has no date.
pub open spec fn token_at(
    username: Seq<char>,
    scopes: Seq<Seq<char>>,
    clock: Option<(u64, u32)>,
) -> Option<TokenResponseView> {
    match clock {
        Some((seconds, nanos)) => if seconds <= i64::MAX - 3600 {
            match rfc3339_utc(seconds as int, nanos as int) {
                Some(issued_at) => Some(
                    TokenResponseView {
                        token: docker_token(username, scopes, seconds as int),
                        access_token: docker_token(username, scopes, seconds as int),
                        expires_in: TOKEN_LIFETIME,
                        issued_at,
                    },
                ),
                None => None,
            }
        } else {
            None
        },
        None => None,
    }
}

/// Issues the local token for a reading of the clock.
pub fn issue_token_at(
    username: &str,
    scopes: &[String],
    clock: Option<(u64, u32)>,
) -> (out: Option<TokenResponse>)
    ensures
        response_view(out) == token_at(username@, texts_of(scopes@), clock),
{
    match clock {
        Some((seconds, nanos)) => {
            if seconds > 0x7fff_ffff_ffff_ffff - 3600 {
                return None;
            }
            let now = seconds as i64;
            match rfc3339_text(now, nanos) {
                Some(issued_at) => Some(issue_docker_token(username, scopes, now, issued_at)),
                None => None,
            }
        },
        None => None,
    }
}

/// Issues a local token at the current time.
///
/// The result is what `token_at` describes for what the clock read; there is
/// none where the clock gave no usable reading.
pub fn generate_docker_token(username: &str, scopes: &[String]) -> (out: Option<TokenResponse>)
    ensures
        exists|clock: Option<(u64, u32)>| #[trigger]
            token_at(username@, texts_of(scopes@), clock) == response_view(out),
{
    let clock = unix_time();
    let out = issue_token_at(username, scopes, clock);
    assert(token_at(username@, texts_of(scopes@), clock) == response_view(out));
    out
}

} // verus!
