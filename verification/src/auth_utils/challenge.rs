//! Bearer challenges of upstream registries, as `WWW-Authenticate` carries them.

use crate::text::{
    chars_of, copy_range, find_char, find_from, lemma_position, lemma_trim_end, lemma_trim_start,
    position, same_chars, starts_with, string_of, text_of, trim, trim_matches, trim_matches_of,
    trim_of, views_of,
};
use vstd::prelude::*;
use vstd::string::*;

verus! {

/// A Bearer challenge of an upstream registry. It exists only where the
/// header named both a realm and a service.
#[derive(Debug)]
pub struct AuthChallenge {
    pub realm: String,
    pub service: String,
    pub scope: Option<String>,
}

/// The texts of an `AuthChallenge`.
pub struct AuthChallengeView {
    pub realm: Seq<char>,
    pub service: Seq<char>,
    pub scope: Option<Seq<char>>,
}

impl View for AuthChallenge {
    type V = AuthChallengeView;

    open spec fn view(&self) -> AuthChallengeView {
        AuthChallengeView { realm: self.realm@, service: self.service@, scope: text_of(self.scope) }
    }
}

/// The view of an optional challenge.
pub open spec fn challenge_view(c: Option<AuthChallenge>) -> Option<AuthChallengeView> {
    match c {
        Some(c) => Some(c@),
        None => None,
    }
}

/// Whether the text after the first character of `s` is inside double
/// quotes, given whether `s` begins inside them. A `"` inside quotes closes
/// them. A `"` outside quotes opens them only where another `"` follows: one
/// that is never closed is a character like any other.
pub open spec fn quoted_after(s: Seq<char>, quoted: bool) -> bool {
    if s[0] == '"' {
        !quoted && s.drop_first().contains('"')
    } else {
        quoted
    }
}

/// The index of the first `,` of `s` that stands outside double quotes, or
/// `s.len()` where there is none. `quoted` says whether `s` begins inside quotes.
pub open spec fn separator(s: Seq<char>, quoted: bool) -> int
    decreases s.len(),
{
    if s.len() == 0 || (s[0] == ',' && !quoted) {
        0
    } else {
        1 + separator(s.drop_first(), quoted_after(s, quoted))
    }
}

/// The parameters of a challenge: the pieces of `s` between the commas that
/// stand outside double quotes. A comma between an opening and a closing
/// quote belongs to its value; after a quote that is never closed, every
/// comma separates.
pub open spec fn split_parameters(s: Seq<char>) -> Seq<Seq<char>>
    decreases s.len(),
{
    let p = separator(s, false);
    if 0 <= p < s.len() {
        seq![s.take(p)] + split_parameters(s.skip(p + 1))
    } else {
        seq![s]
    }
}

/// The separator is an index of `s` that holds a `,`, or the length of `s`.
/// It is the length where `s` holds no `,`; and where `s` holds no `"`, it is
/// the first `,` for a text outside quotes and the length for one inside.
pub proof fn lemma_separator(s: Seq<char>, quoted: bool)
    ensures
        0 <= separator(s, quoted) <= s.len(),
        separator(s, quoted) < s.len() ==> s[separator(s, quoted)] == ',',
        !s.contains(',') ==> separator(s, quoted) == s.len(),
        !s.contains('"') && !quoted ==> separator(s, quoted) == position(s, ','),
        !s.contains('"') && quoted ==> separator(s, quoted) == s.len(),
    decreases s.len(),
{
    if s.len() == 0 || (s[0] == ',' && !quoted) {
    } else {
        let rest = s.drop_first();
        let next = quoted_after(s, quoted);
        lemma_separator(rest, next);
        if separator(s, quoted) < s.len() {
            assert(s[separator(s, quoted)] == rest[separator(rest, next)]);
        }
        if rest.contains(',') {
            let k = choose|k: int| 0 <= k < rest.len() && rest[k] == ',';
            assert(s[k + 1] == ',');
        }
        if rest.contains('"') {
            let k = choose|k: int| 0 <= k < rest.len() && rest[k] == '"';
            assert(s[k + 1] == '"');
        }
        if !s.contains('"') {
            assert(s[0] != '"');
        }
    }
}

/// A quoted text is passed over whole, whatever commas it holds: after it,
/// the separator of what follows decides.
pub proof fn lemma_quoted_text_is_whole(inner: Seq<char>, tail: Seq<char>)
    requires
        !inner.contains('"'),
    ensures
        separator(seq!['"'] + inner + seq!['"'] + tail, false) == inner.len() + 2 + separator(
            tail,
            false,
        ),
{
    let s = seq!['"'] + inner + seq!['"'] + tail;
    let closing = seq!['"'] + tail;
    assert(s.drop_first() =~= inner + closing);
    assert((inner + closing)[inner.len() as int] == '"');
    lemma_quoted_run(inner, closing);
    assert(closing.drop_first() =~= tail);
}

/// A `"` that no other `"` follows encloses nothing: the first `,` after it
/// separates.
pub proof fn lemma_open_quote_is_plain(rest: Seq<char>)
    requires
        !rest.contains('"'),
    ensures
        separator(seq!['"'] + rest, false) == 1 + position(rest, ','),
{
    let s = seq!['"'] + rest;
    assert(s.drop_first() =~= rest);
    lemma_separator(rest, false);
}

/// Outside quotes, a run without `,` and `"` is passed over.
pub proof fn lemma_plain_run(run: Seq<char>, rest: Seq<char>)
    requires
        !run.contains('"'),
        !run.contains(','),
    ensures
        separator(run + rest, false) == run.len() + separator(rest, false),
    decreases run.len(),
{
    if run.len() == 0 {
        assert(run + rest =~= rest);
    } else {
        let s = run + rest;
        assert(s[0] == run[0]);
        assert(run[0] != '"' && run[0] != ',');
        assert(s.drop_first() =~= run.drop_first() + rest);
        if run.drop_first().contains('"') {
            let k = choose|k: int| 0 <= k < run.drop_first().len() && run.drop_first()[k] == '"';
            assert(run[k + 1] == '"');
        }
        if run.drop_first().contains(',') {
            let k = choose|k: int| 0 <= k < run.drop_first().len() && run.drop_first()[k] == ',';
            assert(run[k + 1] == ',');
        }
        lemma_plain_run(run.drop_first(), rest);
    }
}

/// Inside quotes, a run without `"` is passed over: the separator of what
/// follows decides.
pub proof fn lemma_quoted_run(inner: Seq<char>, rest: Seq<char>)
    requires
        !inner.contains('"'),
    ensures
        separator(inner + rest, true) == inner.len() + separator(rest, true),
    decreases inner.len(),
{
    if inner.len() == 0 {
        assert(inner + rest =~= rest);
    } else {
        let s = inner + rest;
        assert(s[0] == inner[0]);
        assert(inner[0] != '"');
        assert(s.drop_first() =~= inner.drop_first() + rest);
        if inner.drop_first().contains('"') {
            let k = choose|k: int|
                0 <= k < inner.drop_first().len() && inner.drop_first()[k] == '"';
            assert(inner[k + 1] == '"');
        }
        lemma_quoted_run(inner.drop_first(), rest);
    }
}

/// The value that the text after a parameter's `=` stands for: the text
/// without all its leading and trailing `"`.
pub open spec fn parameter_value(raw: Seq<char>) -> Seq<char> {
    trim_matches_of(raw, '"')
}

/// The value of a quoted text is what stands between its quotes, commas
/// included, where that neither begins nor ends with a `"` itself.
pub proof fn lemma_quoted_value(inner: Seq<char>)
    requires
        inner.len() > 0 ==> inner.first() != '"' && inner.last() != '"',
    ensures
        parameter_value(seq!['"'] + inner + seq!['"']) == inner,
{
    let raw = seq!['"'] + inner + seq!['"'];
    let only = Some('"');
    if inner.len() == 0 {
        assert(raw =~= seq!['"', '"']);
        lemma_trim_start(raw, only, 2);
        assert(raw.skip(2) =~= Seq::<char>::empty());
    } else {
        assert(raw[1] == inner[0]);
        lemma_trim_start(raw, only, 1);
        let mid = raw.skip(1);
        assert(mid =~= inner + seq!['"']);
        assert(mid[inner.len() - 1] == inner.last());
        lemma_trim_end(mid, only, inner.len() as int);
        assert(mid.take(inner.len() as int) =~= inner);
    }
}

/// The key and the value of one challenge parameter `key=value` or
/// `key="value"`: the key is what stands before the first `=`, the value what
/// stands after it, both without surrounding whitespace, the value also
/// without surrounding `"`. A parameter without `=` has neither.
pub open spec fn challenge_param(param: Seq<char>) -> Option<(Seq<char>, Seq<char>)> {
    let p = position(trim_of(param), '=');
    if 0 <= p < trim_of(param).len() {
        Some(
            (
                trim_of(trim_of(param).take(p)),
                parameter_value(trim_of(trim_of(param).skip(p + 1))),
            ),
        )
    } else {
        None
    }
}

/// The value of the last parameter among `params` whose key is `key`.
pub open spec fn param_value(params: Seq<Seq<char>>, key: Seq<char>) -> Option<Seq<char>>
    decreases params.len(),
{
    if params.len() == 0 {
        None
    } else {
        match challenge_param(params.last()) {
            Some((k, v)) => if k == key {
                Some(v)
            } else {
                param_value(params.drop_last(), key)
            },
            None => param_value(params.drop_last(), key),
        }
    }
}

/// The challenge that the parameters of a header name.
pub open spec fn challenge_of_params(params: Seq<Seq<char>>) -> Option<AuthChallengeView> {
    match (param_value(params, "realm"@), param_value(params, "service"@)) {
        (Some(realm), Some(service)) => Some(
            AuthChallengeView { realm, service, scope: param_value(params, "scope"@) },
        ),
        _ => None,
    }
}

/// The challenge that a `WWW-Authenticate` header value carries: the value
/// begins with `Bearer `, and the parameters after it, separated by commas
/// outside double quotes, name a realm and a service. A value between an
/// opening and a closing quote is kept whole, with the commas it holds; a
/// quote that is never closed encloses nothing, so the commas after it
/// separate. Values come out without surrounding whitespace and quotes.
pub open spec fn bearer_challenge(header: Seq<char>) -> Option<AuthChallengeView> {
    if "Bearer "@.is_prefix_of(header) {
        challenge_of_params(split_parameters(header.skip(7)))
    } else {
        None
    }
}

/// The first `,` outside double quotes in `s[from..]`, counted from the start
/// of `s`; `s.len()` where there is none.
pub fn find_separator(s: &[char], from: usize) -> (r: usize)
    requires
        from <= s@.len(),
    ensures
        from <= r <= s@.len(),
        r - from == separator(s@.skip(from as int), false),
{
    let mut i: usize = from;
    let mut quoted = false;
    assert(s@.skip(from as int).len() == s@.len() - from);
    while i < s.len()
        invariant
            from <= i <= s.len(),
            separator(s@.skip(from as int), false) == (i - from) + separator(
                s@.skip(i as int),
                quoted,
            ),
        decreases s.len() - i,
    {
        let ghost here = s@.skip(i as int);
        assert(here[0] == s@[i as int]);
        assert(here.drop_first() == s@.skip(i + 1));
        if s[i] == ',' && !quoted {
            return i;
        }
        if s[i] == '"' {
            if quoted {
                quoted = false;
            } else {
                proof {
                    lemma_position(s@.skip(i + 1), '"');
                }
                quoted = find_from(s, i + 1, '"').is_some();
            }
        }
        i += 1;
    }
    assert(s@.skip(i as int).len() == 0);
    i
}

/// Splits the parameters of a challenge at the commas outside double quotes.
pub fn split_challenge(s: &[char]) -> (pieces: Vec<Vec<char>>)
    ensures
        views_of(pieces@) == split_parameters(s@),
{
    let mut pieces: Vec<Vec<char>> = Vec::new();
    let mut start: usize = 0;
    assert(s@.skip(0) == s@);
    loop
        invariant
            start <= s.len(),
            split_parameters(s@) == views_of(pieces@) + split_parameters(s@.skip(start as int)),
        decreases s.len() - start,
    {
        let ghost before = views_of(pieces@);
        let ghost rest = s@.skip(start as int);
        let end = find_separator(s, start);
        pieces.push(copy_range(s, start, end));
        proof {
            assert(rest.take(end - start) == s@.subrange(start as int, end as int));
            assert(views_of(pieces@) == before + seq![rest.take(end - start)]);
        }
        if end == s.len() {
            assert(rest.take(end - start) == rest);
            return pieces;
        }
        assert(rest.skip(end - start + 1) == s@.skip(end + 1));
        start = end + 1;
    }
}

/// Reads the value out of the text after a parameter's `=`.
pub fn read_parameter_value(raw: &[char]) -> (value: Vec<char>)
    ensures
        value@ == parameter_value(raw@),
{
    trim_matches(raw, '"')
}

/// Reads one parameter of a challenge.
fn parse_challenge_param(param: &[char]) -> (out: Option<(Vec<char>, Vec<char>)>)
    ensures
        match out {
            Some((k, v)) => challenge_param(param@) == Some((k@, v@)),
            None => challenge_param(param@) is None,
        },
{
    let trimmed = trim(param);
    match find_char(trimmed.as_slice(), '=') {
        Some(p) => {
            assert(p < trimmed.len());
            let key_part = copy_range(trimmed.as_slice(), 0, p);
            let value_part = copy_range(trimmed.as_slice(), p + 1, trimmed.len());
            assert(trimmed@.take(p as int) == trimmed@.subrange(0, p as int));
            assert(trimmed@.skip(p + 1) == trimmed@.subrange(p + 1, trimmed@.len() as int));
            let key = trim(key_part.as_slice());
            let raw = trim(value_part.as_slice());
            let value = read_parameter_value(raw.as_slice());
            Some((key, value))
        },
        None => None,
    }
}

/// Parses a `WWW-Authenticate` header value into a Bearer challenge.
///
/// A value that does not begin with `Bearer `, or that lacks `realm` or
/// `service`, yields no challenge; of a repeated parameter the last one
/// counts. A quoted value keeps the commas between its quotes, and every
/// value loses the whitespace and the quotes around it.
pub fn parse_www_authenticate(www_auth: &str) -> (out: Option<AuthChallenge>)
    ensures
        challenge_view(out) == bearer_challenge(www_auth@),
{
    let chars = chars_of(www_auth);
    let prefix = chars_of("Bearer ");
    let realm_key = chars_of("realm");
    let service_key = chars_of("service");
    let scope_key = chars_of("scope");
    proof {
        reveal_strlit("Bearer ");
    }
    if !starts_with(chars.as_slice(), prefix.as_slice()) {
        return None;
    }
    let rest = copy_range(chars.as_slice(), 7, chars.len());
    assert(www_auth@.skip(7) == www_auth@.subrange(7, www_auth@.len() as int));
    let params = split_challenge(rest.as_slice());
    let ghost all = split_parameters(rest@);
    let mut realm: Option<String> = None;
    let mut service: Option<String> = None;
    let mut scope: Option<String> = None;
    let mut i: usize = 0;
    assert(all.take(0).len() == 0);
    while i < params.len()
        invariant
            0 <= i <= params.len(),
            views_of(params@) == all,
            realm_key@ == "realm"@,
            service_key@ == "service"@,
            scope_key@ == "scope"@,
            text_of(realm) == param_value(all.take(i as int), "realm"@),
            text_of(service) == param_value(all.take(i as int), "service"@),
            text_of(scope) == param_value(all.take(i as int), "scope"@),
        decreases params.len() - i,
    {
        proof {
            let next = all.take(i + 1);
            assert(next.last() == params@[i as int]@);
            assert(next.drop_last() == all.take(i as int));
        }
        match parse_challenge_param(params[i].as_slice()) {
            Some((key, value)) => {
                if same_chars(key.as_slice(), realm_key.as_slice()) {
                    realm = Some(string_of(value.as_slice()));
                }
                if same_chars(key.as_slice(), service_key.as_slice()) {
                    service = Some(string_of(value.as_slice()));
                }
                if same_chars(key.as_slice(), scope_key.as_slice()) {
                    scope = Some(string_of(value.as_slice()));
                }
            },
            None => {},
        }
        i += 1;
    }
    assert(all.take(params.len() as int) == all);
    match (realm, service) {
        (Some(realm), Some(service)) => Some(AuthChallenge { realm, service, scope }),
        _ => None,
    }
}

} // verus!
