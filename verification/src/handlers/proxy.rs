//! The registry resolver and the proxy forwarder.

use crate::auth_utils::{
    get_registry_credentials, registry_credentials_of, BrokerPhase, Negotiation,
    RegistryAuthResult, RegistryAuthResultView,
};
use crate::config::{
    RegistryApiVersion, RegistryConfig, RegistryCredential, RegistrySettings, Settings,
};
use crate::handlers::auth::{check_client, client_user};
use crate::handlers::reply::{
    make_plain_reply, plain_reply, readable_header, readable_value, ClientAuthorization, Reply,
};
use crate::text::{chars_of, string_of_range, text_of, texts_of};
use vstd::prelude::*;
use vstd::string::*;

verus! {

/// Whether the first `n` characters of `image` are a configured registry key
/// that ends at a path segment: the character after them is `/`.
pub open spec fn registry_prefix(
    registries: Map<Seq<char>, RegistryConfig>,
    image: Seq<char>,
    n: int,
) -> bool {
    0 <= n < image.len() && image[n] == '/' && registries.contains_key(image.take(n))
}

/// The length of the longest registry prefix of `image` that is shorter than
/// `bound`, or -1 where there is none.
pub open spec fn longest_prefix_below(
    registries: Map<Seq<char>, RegistryConfig>,
    image: Seq<char>,
    bound: int,
) -> int
    decreases bound,
{
    if bound <= 0 {
        -1
    } else if registry_prefix(registries, image, bound - 1) {
        bound - 1
    } else {
        longest_prefix_below(registries, image, bound - 1)
    }
}

/// The upstream that serves `image`: base URL, image path there, registry key.
///
/// Of the configured keys `k` with `image` beginning with `k/`, the longest
/// decides, and `k/` is taken off the path. Without such a key the default
/// upstream serves the whole path under the key `docker.io`.
pub open spec fn target_registry(
    upstream: Seq<char>,
    registries: Map<Seq<char>, RegistryConfig>,
    image: Seq<char>,
) -> (Seq<char>, Seq<char>, Seq<char>) {
    let n = longest_prefix_below(registries, image, image.len() as int);
    if n >= 0 {
        (registries[image.take(n)].url@, image.skip(n + 1), image.take(n))
    } else {
        (upstream, image, "docker.io"@)
    }
}

/// `longest_prefix_below` finds a registry prefix, and no longer one exists
/// below the bound; it finds none only where there is none.
pub proof fn lemma_longest_prefix(
    registries: Map<Seq<char>, RegistryConfig>,
    image: Seq<char>,
    bound: int,
)
    ensures
        -1 <= longest_prefix_below(registries, image, bound),
        longest_prefix_below(registries, image, bound) >= 0 ==> longest_prefix_below(
            registries,
            image,
            bound,
        ) < bound && registry_prefix(
            registries,
            image,
            longest_prefix_below(registries, image, bound),
        ),
        forall|m: int|
            longest_prefix_below(registries, image, bound) < m < bound ==> !registry_prefix(
                registries,
                image,
                m,
            ),
    decreases bound,
{
    if bound > 0 && !registry_prefix(registries, image, bound - 1) {
        lemma_longest_prefix(registries, image, bound - 1);
    }
}

/// Maps an image path to the upstream registry that serves it.
pub fn get_target_registry(registry_settings: &RegistrySettings, image_name: &str) -> (out: (
    String,
    String,
    String,
))
    ensures
        (out.0@, out.1@, out.2@) == target_registry(
            registry_settings.upstream_registry@,
            registry_settings.registries@,
            image_name@,
        ),
{
    let chars = chars_of(image_name);
    let ghost registries = registry_settings.registries@;
    let mut n: usize = chars.len();
    while n > 0
        invariant
            0 <= n <= chars.len(),
            chars@ == image_name@,
            registries == registry_settings.registries@,
            longest_prefix_below(registries, image_name@, image_name@.len() as int)
                == longest_prefix_below(registries, image_name@, n as int),
        decreases n,
    {
        n -= 1;
        if chars[n] == '/' {
            let key = string_of_range(chars.as_slice(), 0, n);
            assert(image_name@.take(n as int) == image_name@.subrange(0, n as int));
            match registry_settings.registries.get(key.as_str()) {
                Some(config) => {
                    let path = string_of_range(chars.as_slice(), n + 1, chars.len());
                    assert(image_name@.skip(n + 1) == image_name@.subrange(
                        n + 1,
                        image_name@.len() as int,
                    ));
                    return (config.url.clone(), path, key);
                },
                None => {},
            }
        }
    }
    (registry_settings.upstream_registry.clone(), image_name.to_string(), "docker.io".to_string())
}

/// The methods that the forwarder serves.
#[derive(Debug, Clone, Copy, PartialEq, Eq, Structural)]
pub enum Method {
    Get,
    Head,
}

/// What becomes of an upstream response's body.
#[derive(Debug, Clone, Copy, PartialEq, Eq, Structural)]
pub enum BodyMode {
    /// The body is not read and nothing is relayed.
    Discard,
    /// The body is read whole and then relayed.
    Buffer,
    /// The body is relayed chunk by chunk as it arrives.
    Stream,
}

/// How the body of a response with the given status is relayed: not at all
/// for `HEAD`; for `GET`, streamed on success and buffered otherwise.
pub open spec fn body_mode_of(method: Method, status: u16) -> BodyMode {
    match method {
        Method::Head => BodyMode::Discard,
        Method::Get => if 200 <= status < 300 {
            BodyMode::Stream
        } else {
            BodyMode::Buffer
        },
    }
}

/// Decides how an upstream response's body is relayed.
pub fn response_body_mode(method: Method, status: u16) -> (mode: BodyMode)
    ensures
        mode == body_mode_of(method, status),
{
    match method {
        Method::Head => BodyMode::Discard,
        Method::Get => if 200 <= status && status < 300 {
            BodyMode::Stream
        } else {
            BodyMode::Buffer
        },
    }
}

/// Whatever the upstream's status, the body of a `HEAD` response is never
/// read; the body of a successful `GET` response is streamed, not buffered.
pub proof fn lemma_body_modes(status: u16)
    ensures
        body_mode_of(Method::Head, status) == BodyMode::Discard,
        200 <= status < 300 ==> body_mode_of(Method::Get, status) == BodyMode::Stream,
{
}

/// How an upstream response is handed to the client. The value of a header
/// is held as bytes, so that it can be copied whatever it holds.
#[derive(Debug)]
pub struct Relay {
    pub status: u16,
    pub headers: Vec<(String, Vec<u8>)>,
    pub body: BodyMode,
}

/// The names and the values of a list of headers.
pub open spec fn named_values(headers: Seq<(String, Vec<u8>)>) -> Seq<(Seq<char>, Seq<u8>)> {
    Seq::new(headers.len(), |i: int| (headers[i].0@, headers[i].1@))
}

/// The contents of a `Relay`.
pub struct RelayView {
    pub status: u16,
    pub headers: Seq<(Seq<char>, Seq<u8>)>,
    pub body: BodyMode,
}

impl View for Relay {
    type V = RelayView;

    open spec fn view(&self) -> RelayView {
        RelayView { status: self.status, headers: named_values(self.headers@), body: self.body }
    }
}

/// The relay of an upstream response: its status, all of its headers as they
/// came and in the order in which they came, and its body as the method and
/// the status ask.
pub open spec fn relay_of(
    method: Method,
    status: u16,
    headers: Seq<(String, Vec<u8>)>,
) -> RelayView {
    RelayView { status, headers: named_values(headers), body: body_mode_of(method, status) }
}

/// Decides how an upstream response is relayed.
pub fn relay_response(
    method: Method,
    status: u16,
    headers: Vec<(String, Vec<u8>)>,
) -> (relay: Relay)
    ensures
        relay@ == relay_of(method, status, headers@),
{
    Relay { status, headers, body: response_body_mode(method, status) }
}

/// The `Authorization` header that goes upstream after a negotiation: the
/// Basic value as it is, a bearer token behind `Bearer `, nothing where
/// nothing is asked for, and after a failure the client's own header.
pub open spec fn upstream_authorization(
    result: RegistryAuthResultView,
    client: Option<Seq<char>>,
) -> Option<Seq<char>> {
    match result {
        RegistryAuthResultView::BasicAuth(value) => Some(value),
        RegistryAuthResultView::BearerToken(token) => Some("Bearer "@ + token),
        RegistryAuthResultView::NoAuth => None,
        RegistryAuthResultView::Failed(_) => client,
    }
}

/// Chooses the `Authorization` header of the upstream request.
pub fn authorization_header(
    result: RegistryAuthResult,
    authorization: &ClientAuthorization,
) -> (out: Option<String>)
    ensures
        text_of(out) == upstream_authorization(result@, readable_value(*authorization)),
{
    match result {
        RegistryAuthResult::BasicAuth(value) => Some(value),
        RegistryAuthResult::BearerToken(token) => {
            let mut value = "Bearer ".to_string();
            value.append(token.as_str());
            Some(value)
        },
        RegistryAuthResult::NoAuth => None,
        RegistryAuthResult::Failed(_) => readable_header(authorization),
    }
}

/// The `Accept` value that is sent where the client sent none.
pub open spec fn default_accept(version: RegistryApiVersion) -> Seq<char> {
    match version {
        RegistryApiVersion::V1 =>
            "application/vnd.docker.distribution.manifest.v1+prettyjws,application/json"@,
        _ =>
            "application/vnd.oci.image.manifest.v1+json,application/vnd.oci.image.index.v1+json,application/vnd.docker.distribution.manifest.v2+json,application/vnd.docker.distribution.manifest.list.v2+json,application/vnd.docker.distribution.manifest.v1+prettyjws"@,
    }
}

/// The `Accept` values of the upstream request: the client's own, each as it
/// came, or the default for the registry's version where the client's request
/// had no `Accept` header.
pub open spec fn accept_values(
    has_accept: bool,
    client: Seq<Seq<char>>,
    version: RegistryApiVersion,
) -> Seq<Seq<char>> {
    if has_accept {
        client
    } else {
        seq![default_accept(version)]
    }
}

/// Chooses the `Accept` values of the upstream request.
pub fn accept_headers(
    has_accept: bool,
    client: &Vec<String>,
    version: RegistryApiVersion,
) -> (out: Vec<String>)
    ensures
        texts_of(out@) == accept_values(has_accept, texts_of(client@), version),
{
    let mut out: Vec<String> = Vec::new();
    if has_accept {
        let mut i: usize = 0;
        while i < client.len()
            invariant
                0 <= i <= client.len(),
                out@.len() == i,
                forall|j: int| 0 <= j < i ==> out@[j]@ == client@[j]@,
            decreases client.len() - i,
        {
            out.push(client[i].clone());
            i += 1;
        }
        assert(texts_of(out@) =~= texts_of(client@));
    } else {
        let value = match version {
            RegistryApiVersion::V1 =>
                "application/vnd.docker.distribution.manifest.v1+prettyjws,application/json",
            _ =>
                "application/vnd.oci.image.manifest.v1+json,application/vnd.oci.image.index.v1+json,application/vnd.docker.distribution.manifest.v2+json,application/vnd.docker.distribution.manifest.list.v2+json,application/vnd.docker.distribution.manifest.v1+prettyjws",
        };
        out.push(value.to_string());
        assert(texts_of(out@) =~= seq![default_accept(version)]);
    }
    out
}

/// The answer to a client whose request could not be sent upstream.
pub open spec fn failure_reply(error: Seq<char>) -> crate::handlers::reply::ReplyView {
    plain_reply(500, "无法连接到 Docker Registry: "@ + error)
}

/// Answers a transport failure of the upstream request. Nothing is retried.
pub fn forward_failure(error: &str) -> (reply: Reply)
    ensures
        reply@ == failure_reply(error@),
{
    let mut body = "无法连接到 Docker Registry: ".to_string();
    body.append(error);
    make_plain_reply(500, body)
}

/// The body that answers a `GET` whose failed upstream response could not be read.
pub open spec fn unreadable_body_text(error: Seq<char>) -> Seq<char> {
    "无法读取响应内容: "@ + error
}

/// Makes the body that stands in for an upstream body that could not be read.
pub fn unreadable_body(error: &str) -> (body: String)
    ensures
        body@ == unreadable_body_text(error@),
{
    let mut body = "无法读取响应内容: ".to_string();
    body.append(error);
    body
}

/// The resolver matches keys at path segments only: the image path that it
/// hands on is the whole path under the key `docker.io`, or the given path is
/// a configured key, a `/` and the path that is handed on; and no configured
/// key longer than the chosen one stands before a `/` of the given path.
pub proof fn lemma_target_registry(
    upstream: Seq<char>,
    registries: Map<Seq<char>, RegistryConfig>,
    image: Seq<char>,
)
    ensures
        ({
            let (url, path, key) = target_registry(upstream, registries, image);
            ||| url == upstream && path == image && key == "docker.io"@ && forall|n: int|
                !registry_prefix(registries, image, n)
            ||| registries.contains_key(key) && url == registries[key].url@ && image == key
                + seq!['/'] + path && forall|n: int|
                key.len() < n ==> !registry_prefix(registries, image, n)
        }),
{
    lemma_longest_prefix(registries, image, image.len() as int);
    let n = longest_prefix_below(registries, image, image.len() as int);
    if n >= 0 {
        assert(image =~= image.take(n) + seq!['/'] + image.skip(n + 1));
    }
}

/// How the forwarder serves one request, before anything is sent.
///
/// With `credential`, the `Authorization` header comes out of the plan's
/// `negotiation` with the upstream, whose result `authorization_header` turns
/// into the header. Without, the client's own header goes upstream as it came.
#[derive(Debug)]
pub struct ForwardPlan {
    pub method: Method,
    pub target_url: String,
    pub registry_url: String,
    pub registry_key: String,
    pub api_version: RegistryApiVersion,
    pub accept: Vec<String>,
    pub credential: Option<RegistryCredential>,
}

/// The texts of a `ForwardPlan`; the credential as username and password.
pub struct ForwardPlanView {
    pub method: Method,
    pub target_url: Seq<char>,
    pub registry_url: Seq<char>,
    pub registry_key: Seq<char>,
    pub api_version: RegistryApiVersion,
    pub accept: Seq<Seq<char>>,
    pub credential: Option<(Seq<char>, Seq<char>)>,
}

/// The username and the password of an optional credential.
pub open spec fn credential_view(credential: Option<RegistryCredential>) -> Option<
    (Seq<char>, Seq<char>),
> {
    match credential {
        Some(credential) => Some((credential.username@, credential.password@)),
        None => None,
    }
}

impl View for ForwardPlan {
    type V = ForwardPlanView;

    open spec fn view(&self) -> ForwardPlanView {
        ForwardPlanView {
            method: self.method,
            target_url: self.target_url@,
            registry_url: self.registry_url@,
            registry_key: self.registry_key@,
            api_version: self.api_version,
            accept: texts_of(self.accept@),
            credential: credential_view(self.credential),
        }
    }
}

/// The version that is configured for a registry key; `Auto` for a key
/// without configuration.
pub open spec fn configured_version(
    registries: Map<Seq<char>, RegistryConfig>,
    key: Seq<char>,
) -> RegistryApiVersion {
    if registries.contains_key(key) {
        registries[key].api_version
    } else {
        RegistryApiVersion::Auto
    }
}

/// The credentials with which the gateway negotiates upstream: those of the
/// user that the client proved, for the registry `key`. There are none where
/// the gateway does not check its clients, where the client proved no user,
/// and where the user has none for `key`.
pub open spec fn negotiating_credential(
    settings: Settings,
    authorization: ClientAuthorization,
    key: Seq<char>,
) -> Option<RegistryCredential> {
    if settings.auth.enabled {
        match client_user(settings.auth.users@, authorization) {
            Ok(user) => registry_credentials_of(settings.auth.users@, user, key),
            Err(_) => None,
        }
    } else {
        None
    }
}

/// The URL of the upstream request.
pub open spec fn target_url_of(
    registry_url: Seq<char>,
    image: Seq<char>,
    path_type: Seq<char>,
    reference: Seq<char>,
) -> Seq<char> {
    registry_url + "/v2/"@ + image + "/"@ + path_type + "/"@ + reference
}

/// The plan for a request to `/v2/{image_name}/{path_type}/{reference}`: the
/// resolver names the upstream and the image path there, the method is kept,
/// and the `Accept` values and the credential are chosen as `accept_values`
/// and `negotiating_credential` say.
pub open spec fn forward_plan(
    settings: Settings,
    method: Method,
    image_name: Seq<char>,
    path_type: Seq<char>,
    reference: Seq<char>,
    authorization: ClientAuthorization,
    has_accept: bool,
    accept: Seq<Seq<char>>,
) -> ForwardPlanView {
    let target = target_registry(
        settings.registry.upstream_registry@,
        settings.registry.registries@,
        image_name,
    );
    ForwardPlanView {
        method,
        target_url: target_url_of(target.0, target.1, path_type, reference),
        registry_url: target.0,
        registry_key: target.2,
        api_version: configured_version(settings.registry.registries@, target.2),
        accept: accept_values(
            has_accept,
            accept,
            configured_version(settings.registry.registries@, target.2),
        ),
        credential: credential_view(negotiating_credential(settings, authorization, target.2)),
    }
}

/// Plans the forwarding of a manifest or blob request.
pub fn handle_request(
    settings: &Settings,
    method: Method,
    image_name: &str,
    path_type: &str,
    reference: &str,
    authorization: &ClientAuthorization,
    has_accept: bool,
    accept: &Vec<String>,
) -> (plan: ForwardPlan)
    ensures
        plan@ == forward_plan(
            *settings,
            method,
            image_name@,
            path_type@,
            reference@,
            *authorization,
            has_accept,
            texts_of(accept@),
        ),
{
    let (registry_url, image, registry_key) = get_target_registry(&settings.registry, image_name);
    let mut target_url = registry_url.clone();
    target_url.append("/v2/");
    target_url.append(image.as_str());
    target_url.append("/");
    target_url.append(path_type);
    target_url.append("/");
    target_url.append(reference);
    let api_version = match settings.registry.registries.get(registry_key.as_str()) {
        Some(registry) => registry.api_version,
        None => RegistryApiVersion::Auto,
    };
    let mut credential: Option<RegistryCredential> = None;
    if settings.auth.enabled {
        if let Ok(user) = check_client(&settings.auth.users, authorization) {
            if let Some(found) = get_registry_credentials(
                user.as_str(),
                registry_key.as_str(),
                &settings.auth.users,
            ) {
                credential = Some(
                    RegistryCredential {
                        username: found.username.clone(),
                        password: found.password.clone(),
                    },
                );
            }
        }
    }
    ForwardPlan {
        method,
        target_url,
        registry_url,
        registry_key,
        api_version,
        accept: accept_headers(has_accept, accept, api_version),
        credential,
    }
}

/// The `Authorization` header of a plan's upstream request: what
/// `upstream_authorization` makes of the result where the plan has a
/// credential and its negotiation was run; else the client's own header, as
/// far as it is readable.
pub open spec fn plan_authorization(
    plan: ForwardPlan,
    negotiated: Option<RegistryAuthResult>,
    client: Option<Seq<char>>,
) -> Option<Seq<char>> {
    match (plan.credential, negotiated) {
        (Some(_), Some(result)) => upstream_authorization(result@, client),
        _ => client,
    }
}

impl ForwardPlan {
    /// The negotiation that finds the upstream `Authorization` header of this
    /// plan; none for a plan without credential.
    pub fn negotiation(&self) -> (out: Option<Negotiation>)
        ensures
            match out {
                Some(negotiation) => self.credential matches Some(credential) && negotiation == (
                Negotiation {
                    phase: BrokerPhase::Start,
                    registry_url: self.registry_url,
                    registry_key: self.registry_key,
                    target_url: self.target_url,
                    credential,
                    api_version: self.api_version,
                }),
                None => self.credential is None,
            },
    {
        match &self.credential {
            Some(credential) => Some(
                Negotiation::new(
                    self.registry_url.clone(),
                    self.registry_key.clone(),
                    self.target_url.clone(),
                    RegistryCredential {
                        username: credential.username.clone(),
                        password: credential.password.clone(),
                    },
                    self.api_version,
                ),
            ),
            None => None,
        }
    }

    /// Chooses the `Authorization` header of the upstream request, given the
    /// result of the plan's negotiation where there was one.
    pub fn authorization(
        &self,
        negotiated: Option<RegistryAuthResult>,
        authorization: &ClientAuthorization,
    ) -> (out: Option<String>)
        ensures
            text_of(out) == plan_authorization(*self, negotiated, readable_value(*authorization)),
    {
        match (&self.credential, negotiated) {
            (Some(_), Some(result)) => authorization_header(result, authorization),
            _ => readable_header(authorization),
        }
    }
}

} // verus!
