//! The upstream auth broker: which credentials go to an upstream registry,
//! negotiated step by step. Each function decides on one answer of the
//! upstream; the requests themselves are made by the caller.

use crate::auth_utils::basic::{basic_auth_header, create_basic_auth};
use crate::auth_utils::challenge::{
    bearer_challenge, parse_www_authenticate, AuthChallenge, AuthChallengeView,
};
use crate::config::{RegistryApiVersion, RegistryCredential};
use crate::text::{
    chars_of, contains_text, occurs_in, outcome_text, string_of, text_of, trim_end_matches,
    trim_end_of,
};
use vstd::prelude::*;
use vstd::string::*;

verus! {

/// What the broker reads of an upstream response: the status, the value of
/// `WWW-Authenticate` where the response has one that is visible text, and
/// whether it has a `Docker-Distribution-Api-Version` header.
#[derive(Debug)]
pub struct UpstreamResponse {
    pub status: u16,
    pub www_authenticate: Option<String>,
    pub has_api_version: bool,
}

/// The body of a token endpoint's answer.
#[derive(Debug)]
pub struct RegistryTokenResponse {
    pub token: Option<String>,
    pub access_token: Option<String>,
}

/// What came back from a token endpoint.
#[derive(Debug)]
pub enum TokenReply {
    /// The request failed in transport; the text says how.
    Unreachable(String),
    /// The status was not a success; `body` is absent where it could not be read.
    Rejected { status: String, body: Option<String> },
    /// The status was a success, but the body was no token response.
    Unreadable(String),
    /// The status was a success, with this body.
    Parsed(RegistryTokenResponse),
}

/// How to authenticate against an upstream registry: exactly one of four.
#[derive(Debug)]
pub enum RegistryAuthResult {
    /// The value of the `Authorization` header.
    BasicAuth(String),
    /// The bearer token.
    BearerToken(String),
    /// The registry asks for nothing.
    NoAuth,
    /// The negotiation failed, for this reason.
    Failed(String),
}

/// The texts of a `RegistryAuthResult`.
pub enum RegistryAuthResultView {
    BasicAuth(Seq<char>),
    BearerToken(Seq<char>),
    NoAuth,
    Failed(Seq<char>),
}

impl View for RegistryAuthResult {
    type V = RegistryAuthResultView;

    open spec fn view(&self) -> RegistryAuthResultView {
        match self {
            RegistryAuthResult::BasicAuth(h) => RegistryAuthResultView::BasicAuth(h@),
            RegistryAuthResult::BearerToken(t) => RegistryAuthResultView::BearerToken(t@),
            RegistryAuthResult::NoAuth => RegistryAuthResultView::NoAuth,
            RegistryAuthResult::Failed(e) => RegistryAuthResultView::Failed(e@),
        }
    }
}

/// What the broker does next. After a request, the answer goes to the function
/// named with the step.
#[derive(Debug)]
pub enum AuthStep {
    /// Probe `url` for the API version; answer to `after_probe`.
    Probe { url: String },
    /// Request `url` without credentials; answer to `after_challenge`.
    Challenge { url: String },
    /// Request a token from `url` with this `Authorization`; answer to `after_token`.
    FetchToken { url: String, authorization: String },
    /// The negotiation is over.
    Done(RegistryAuthResult),
}

/// The texts of an `AuthStep`.
pub enum AuthStepView {
    Probe { url: Seq<char> },
    Challenge { url: Seq<char> },
    FetchToken { url: Seq<char>, authorization: Seq<char> },
    Done(RegistryAuthResultView),
}

impl View for AuthStep {
    type V = AuthStepView;

    open spec fn view(&self) -> AuthStepView {
        match self {
            AuthStep::Probe { url } => AuthStepView::Probe { url: url@ },
            AuthStep::Challenge { url } => AuthStepView::Challenge { url: url@ },
            AuthStep::FetchToken { url, authorization } => AuthStepView::FetchToken {
                url: url@,
                authorization: authorization@,
            },
            AuthStep::Done(result) => AuthStepView::Done(result@),
        }
    }
}

/// The URL that is probed for a registry's API version: the registry's URL
/// without trailing `/`, then `/v2/`.
pub open spec fn probe_url(registry_url: Seq<char>) -> Seq<char> {
    trim_end_of(registry_url, Some('/')) + "/v2/"@
}

/// Builds the URL of the version probe.
pub fn version_probe_url(registry_url: &str) -> (url: String)
    ensures
        url@ == probe_url(registry_url@),
{
    let chars = chars_of(registry_url);
    let mut url = string_of(trim_end_matches(chars.as_slice(), '/').as_slice());
    url.append("/v2/");
    url
}

/// Whether a probe's response shows the v2 API: the status is 200, 401 or
/// 403, and the response names a Bearer challenge, has the API version
/// header, or has the status 200.
pub open spec fn speaks_v2(response: UpstreamResponse) -> bool {
    &&& response.status == 200 || response.status == 401 || response.status == 403
    &&& {
        ||| response.www_authenticate matches Some(value) && occurs_in("Bearer"@, value@)
        ||| response.has_api_version
        ||| response.status == 200
    }
}

/// The version that a probe's outcome stands for: v1 without a sign of v2,
/// and where the probe failed in transport.
pub open spec fn detected_version(probe: Result<UpstreamResponse, String>) -> RegistryApiVersion {
    match probe {
        Ok(response) => if speaks_v2(response) {
            RegistryApiVersion::V2
        } else {
            RegistryApiVersion::V1
        },
        Err(_) => RegistryApiVersion::V1,
    }
}

/// Classifies the outcome of the version probe. The probe tests a capability:
/// whether it was itself authorised plays no part.
pub fn detect_registry_api_version(
    probe: &Result<UpstreamResponse, String>,
) -> (version: RegistryApiVersion)
    ensures
        version == detected_version(*probe),
{
    match probe {
        Ok(response) => {
            if response.status == 200 || response.status == 401 || response.status == 403 {
                let bearer = match &response.www_authenticate {
                    Some(value) => {
                        let chars = chars_of(value.as_str());
                        let word = chars_of("Bearer");
                        contains_text(chars.as_slice(), word.as_slice())
                    },
                    None => false,
                };
                if bearer || response.has_api_version || response.status == 200 {
                    return RegistryApiVersion::V2;
                }
            }
            RegistryApiVersion::V1
        },
        Err(_) => RegistryApiVersion::V1,
    }
}

/// The URL from which a token for `challenge` is requested: the realm, with
/// the service and, where the challenge has one, the scope as its query.
pub open spec fn token_url(challenge: AuthChallengeView) -> Seq<char> {
    challenge.realm + "?service="@ + challenge.service + match challenge.scope {
        Some(scope) => "&scope="@ + scope,
        None => Seq::empty(),
    }
}

/// Builds the URL of the token request for a challenge.
pub fn token_request_url(challenge: &AuthChallenge) -> (url: String)
    ensures
        url@ == token_url(challenge@),
{
    let mut url = challenge.realm.clone();
    url.append("?service=");
    url.append(challenge.service.as_str());
    match &challenge.scope {
        Some(scope) => {
            url.append("&scope=");
            url.append(scope.as_str());
        },
        None => {
            assert(url@ + Seq::<char>::empty() == url@);
        },
    }
    url
}

/// Whether a token endpoint's answer with this status carries a token
/// response: a success does, and is then parsed; any other status is a
/// rejection, whose body is kept as text.
pub open spec fn carries_token(status: u16) -> bool {
    200 <= status < 300
}

/// Decides from the status whether a token endpoint's answer is parsed as a
/// token response (`Parsed` or `Unreadable`) or kept as a rejection (`Rejected`).
pub fn token_answer_is_parsed(status: u16) -> (parsed: bool)
    ensures
        parsed == carries_token(status),
{
    200 <= status && status < 300
}

/// The token of a token response: the field `token`, or `access_token` where
/// `token` is absent.
pub open spec fn chosen_token(response: RegistryTokenResponse) -> Option<Seq<char>> {
    match response.token {
        Some(token) => Some(token@),
        None => text_of(response.access_token),
    }
}

/// What a token endpoint's answer amounts to: the token, or why there is none.
pub open spec fn token_outcome(reply: TokenReply) -> Result<Seq<char>, Seq<char>> {
    match reply {
        TokenReply::Unreachable(error) => Err("请求 Registry token 失败: "@ + error@),
        TokenReply::Rejected { status, body } => Err(
            "Registry token 请求失败 ("@ + status@ + "): "@ + match body {
                Some(body) => body@,
                None => "未知错误"@,
            },
        ),
        TokenReply::Unreadable(error) => Err("解析 Registry token 响应失败: "@ + error@),
        TokenReply::Parsed(response) => match chosen_token(response) {
            Some(token) => Ok(token),
            None => Err("响应中没有找到 token"@),
        },
    }
}

/// Reads the bearer token out of a token endpoint's answer.
pub fn get_registry_v2_token(reply: TokenReply) -> (out: Result<String, String>)
    ensures
        outcome_text(out) == token_outcome(reply),
{
    match reply {
        TokenReply::Unreachable(error) => {
            let mut reason = "请求 Registry token 失败: ".to_string();
            reason.append(error.as_str());
            Err(reason)
        },
        TokenReply::Rejected { status, body } => {
            let mut reason = "Registry token 请求失败 (".to_string();
            reason.append(status.as_str());
            reason.append("): ");
            match body {
                Some(body) => reason.append(body.as_str()),
                None => reason.append("未知错误"),
            }
            Err(reason)
        },
        TokenReply::Unreadable(error) => {
            let mut reason = "解析 Registry token 响应失败: ".to_string();
            reason.append(error.as_str());
            Err(reason)
        },
        TokenReply::Parsed(response) => match response.token {
            Some(token) => Ok(token),
            None => match response.access_token {
                Some(token) => Ok(token),
                None => Err("响应中没有找到 token".to_string()),
            },
        },
    }
}

/// The Basic result for a registry's credentials.
pub open spec fn basic_result(username: Seq<char>, password: Seq<char>) -> RegistryAuthResultView {
    RegistryAuthResultView::BasicAuth(basic_auth_header(username, password))
}

/// The first step of a negotiation in a declared version, without a probe:
/// v1 is plain Basic authentication; v2 and auto ask the target for its
/// challenge.
pub open spec fn first_step(
    username: Seq<char>,
    password: Seq<char>,
    version: RegistryApiVersion,
    target_url: Seq<char>,
) -> AuthStepView {
    match version {
        RegistryApiVersion::V1 => AuthStepView::Done(basic_result(username, password)),
        _ => AuthStepView::Challenge { url: target_url },
    }
}

/// Starts the negotiation with a registry in the given version.
pub fn handle_registry_auth(
    registry_cred: &RegistryCredential,
    api_version: &RegistryApiVersion,
    target_url: &str,
) -> (step: AuthStep)
    ensures
        step@ == first_step(
            registry_cred.username@,
            registry_cred.password@,
            *api_version,
            target_url@,
        ),
{
    match api_version {
        RegistryApiVersion::V1 => AuthStep::Done(
            RegistryAuthResult::BasicAuth(
                create_basic_auth(registry_cred.username.as_str(), registry_cred.password.as_str()),
            ),
        ),
        _ => AuthStep::Challenge { url: target_url.to_string() },
    }
}

/// What follows the target's answer to the request without credentials.
///
/// A transport failure ends the negotiation as failed. A 401 with a Bearer
/// challenge leads to the token request, made with Basic credentials. A
/// success means that nothing is asked for. Everything else, a 401 without a
/// usable challenge too, falls back to Basic authentication.
pub open spec fn challenge_step(
    username: Seq<char>,
    password: Seq<char>,
    reply: Result<UpstreamResponse, String>,
) -> AuthStepView {
    match reply {
        Err(error) => AuthStepView::Done(
            RegistryAuthResultView::Failed("获取认证挑战失败: "@ + error@),
        ),
        Ok(response) => if response.status == 401 {
            match response.www_authenticate {
                Some(value) => match bearer_challenge(value@) {
                    Some(challenge) => AuthStepView::FetchToken {
                        url: token_url(challenge),
                        authorization: basic_auth_header(username, password),
                    },
                    None => AuthStepView::Done(basic_result(username, password)),
                },
                None => AuthStepView::Done(basic_result(username, password)),
            }
        } else if 200 <= response.status < 300 {
            AuthStepView::Done(RegistryAuthResultView::NoAuth)
        } else {
            AuthStepView::Done(basic_result(username, password))
        },
    }
}

/// Decides on the target's answer to the request without credentials.
pub fn after_challenge(
    registry_cred: &RegistryCredential,
    reply: &Result<UpstreamResponse, String>,
) -> (step: AuthStep)
    ensures
        step@ == challenge_step(registry_cred.username@, registry_cred.password@, *reply),
{
    let username = registry_cred.username.as_str();
    let password = registry_cred.password.as_str();
    match reply {
        Err(error) => {
            let mut reason = "获取认证挑战失败: ".to_string();
            reason.append(error.as_str());
            AuthStep::Done(RegistryAuthResult::Failed(reason))
        },
        Ok(response) => {
            if response.status == 401 {
                if let Some(value) = &response.www_authenticate {
                    if let Some(challenge) = parse_www_authenticate(value.as_str()) {
                        return AuthStep::FetchToken {
                            url: token_request_url(&challenge),
                            authorization: create_basic_auth(username, password),
                        };
                    }
                }
            } else if 200 <= response.status && response.status < 300 {
                return AuthStep::Done(RegistryAuthResult::NoAuth);
            }
            AuthStep::Done(RegistryAuthResult::BasicAuth(create_basic_auth(username, password)))
        },
    }
}

/// The result after the token request: the bearer token, or, whatever went
/// wrong with the request, Basic authentication.
pub open spec fn token_result(
    username: Seq<char>,
    password: Seq<char>,
    reply: TokenReply,
) -> RegistryAuthResultView {
    match token_outcome(reply) {
        Ok(token) => RegistryAuthResultView::BearerToken(token),
        Err(_) => basic_result(username, password),
    }
}

/// Decides on the token endpoint's answer.
pub fn after_token(
    registry_cred: &RegistryCredential,
    reply: TokenReply,
) -> (result: RegistryAuthResult)
    ensures
        result@ == token_result(registry_cred.username@, registry_cred.password@, reply),
{
    match get_registry_v2_token(reply) {
        Ok(token) => RegistryAuthResult::BearerToken(token),
        Err(_) => RegistryAuthResult::BasicAuth(
            create_basic_auth(registry_cred.username.as_str(), registry_cred.password.as_str()),
        ),
    }
}

/// The first step of authenticating against a registry: as `first_step` for
/// v1 and v2; for auto, the version probe.
pub open spec fn negotiation_start(
    registry_url: Seq<char>,
    target_url: Seq<char>,
    username: Seq<char>,
    password: Seq<char>,
    version: RegistryApiVersion,
) -> AuthStepView {
    match version {
        RegistryApiVersion::Auto => AuthStepView::Probe { url: probe_url(registry_url) },
        _ => first_step(username, password, version, target_url),
    }
}

/// Starts authenticating against the registry `registry_key` at `registry_url`
/// for a request to `target_url`.
pub fn authenticate_registry(
    registry_url: &str,
    registry_key: &str,
    target_url: &str,
    username: &str,
    password: &str,
    api_version: &RegistryApiVersion,
) -> (step: AuthStep)
    ensures
        step@ == negotiation_start(
            registry_url@,
            target_url@,
            username@,
            password@,
            *api_version,
        ),
{
    match api_version {
        RegistryApiVersion::Auto => AuthStep::Probe { url: version_probe_url(registry_url) },
        RegistryApiVersion::V1 => AuthStep::Done(
            RegistryAuthResult::BasicAuth(create_basic_auth(username, password)),
        ),
        RegistryApiVersion::V2 => AuthStep::Challenge { url: target_url.to_string() },
    }
}

/// What follows the version probe: the first step in the detected version.
pub open spec fn probe_step(
    username: Seq<char>,
    password: Seq<char>,
    target_url: Seq<char>,
    probe: Result<UpstreamResponse, String>,
) -> AuthStepView {
    first_step(username, password, detected_version(probe), target_url)
}

/// Decides on the outcome of the version probe.
pub fn after_probe(
    registry_cred: &RegistryCredential,
    target_url: &str,
    probe: &Result<UpstreamResponse, String>,
) -> (step: AuthStep)
    ensures
        step@ == probe_step(
            registry_cred.username@,
            registry_cred.password@,
            target_url@,
            *probe,
        ),
{
    let version = detect_registry_api_version(probe);
    handle_registry_auth(registry_cred, &version, target_url)
}

/// With version v1 the broker asks nothing of the network: its first step is
/// already the Basic result for the credentials.
pub proof fn lemma_v1_is_basic_without_request(
    registry_url: Seq<char>,
    target_url: Seq<char>,
    username: Seq<char>,
    password: Seq<char>,
)
    ensures
        negotiation_start(registry_url, target_url, username, password, RegistryApiVersion::V1)
            == AuthStepView::Done(
            RegistryAuthResultView::BasicAuth(basic_auth_header(username, password)),
        ),
{
}

/// A 401 without `WWW-Authenticate` ends the negotiation with the Basic
/// result, never as failed.
pub proof fn lemma_bare_401_falls_back_to_basic(
    username: Seq<char>,
    password: Seq<char>,
    response: UpstreamResponse,
)
    requires
        response.status == 401,
        response.www_authenticate is None,
    ensures
        challenge_step(username, password, Ok(response)) == AuthStepView::Done(
            RegistryAuthResultView::BasicAuth(basic_auth_header(username, password)),
        ),
{
}

/// Only a transport failure of the request without credentials makes the
/// negotiation fail; every answer of the target leads on or to a usable result.
pub proof fn lemma_failed_only_on_transport_error(
    username: Seq<char>,
    password: Seq<char>,
    reply: Result<UpstreamResponse, String>,
)
    ensures
        (challenge_step(username, password, reply) matches AuthStepView::Done(
            RegistryAuthResultView::Failed(_),
        )) <==> reply is Err,
{
}

/// Where a negotiation stands: before its first step, waiting for the answer
/// to the version probe, to the request without credentials or to the token
/// request, or finished.
#[derive(Debug, Clone, Copy, PartialEq, Eq, Structural)]
pub enum BrokerPhase {
    Start,
    DetectVersion,
    Challenge,
    Token,
    Finished,
}

/// What a negotiation is told: to begin, or what came back from the request
/// of its last step.
#[derive(Debug)]
pub enum BrokerEvent {
    Begin,
    Probe(Result<UpstreamResponse, String>),
    Challenge(Result<UpstreamResponse, String>),
    Token(TokenReply),
}

/// One negotiation with an upstream registry, from its start to its result.
#[derive(Debug)]
pub struct Negotiation {
    pub phase: BrokerPhase,
    pub registry_url: String,
    pub registry_key: String,
    pub target_url: String,
    pub credential: RegistryCredential,
    pub api_version: RegistryApiVersion,
}

/// The phase in which a negotiation is after a step: the one that waits for
/// the answer to the step's request.
pub open spec fn phase_after(step: AuthStepView) -> BrokerPhase {
    match step {
        AuthStepView::Probe { .. } => BrokerPhase::DetectVersion,
        AuthStepView::Challenge { .. } => BrokerPhase::Challenge,
        AuthStepView::FetchToken { .. } => BrokerPhase::Token,
        AuthStepView::Done(_) => BrokerPhase::Finished,
    }
}

/// The step that a negotiation takes on an event. An event that the phase
/// does not wait for ends the negotiation as failed.
pub open spec fn broker_step(negotiation: Negotiation, event: BrokerEvent) -> AuthStepView {
    match (negotiation.phase, event) {
        (BrokerPhase::Start, BrokerEvent::Begin) => negotiation_start(
            negotiation.registry_url@,
            negotiation.target_url@,
            negotiation.credential.username@,
            negotiation.credential.password@,
            negotiation.api_version,
        ),
        (BrokerPhase::DetectVersion, BrokerEvent::Probe(probe)) => probe_step(
            negotiation.credential.username@,
            negotiation.credential.password@,
            negotiation.target_url@,
            probe,
        ),
        (BrokerPhase::Challenge, BrokerEvent::Challenge(reply)) => challenge_step(
            negotiation.credential.username@,
            negotiation.credential.password@,
            reply,
        ),
        (BrokerPhase::Token, BrokerEvent::Token(reply)) => AuthStepView::Done(
            token_result(
                negotiation.credential.username@,
                negotiation.credential.password@,
                reply,
            ),
        ),
        _ => AuthStepView::Done(RegistryAuthResultView::Failed("认证流程状态错误"@)),
    }
}

/// How far a phase is from the start of a negotiation.
pub open spec fn phase_rank(phase: BrokerPhase) -> nat {
    match phase {
        BrokerPhase::Start => 0,
        BrokerPhase::DetectVersion => 1,
        BrokerPhase::Challenge => 2,
        BrokerPhase::Token => 3,
        BrokerPhase::Finished => 4,
    }
}

impl Negotiation {
    /// A negotiation that has not begun.
    pub fn new(
        registry_url: String,
        registry_key: String,
        target_url: String,
        credential: RegistryCredential,
        api_version: RegistryApiVersion,
    ) -> (negotiation: Self)
        ensures
            negotiation == (Negotiation {
                phase: BrokerPhase::Start,
                registry_url,
                registry_key,
                target_url,
                credential,
                api_version,
            }),
    {
        Negotiation {
            phase: BrokerPhase::Start,
            registry_url,
            registry_key,
            target_url,
            credential,
            api_version,
        }
    }

    /// Takes the next step of the negotiation. Only the phase changes.
    pub fn advance(&mut self, event: BrokerEvent) -> (step: AuthStep)
        ensures
            step@ == broker_step(*old(self), event),
            *final(self) == (Negotiation { phase: phase_after(step@), ..*old(self) }),
    {
        let step = match (self.phase, event) {
            (BrokerPhase::Start, BrokerEvent::Begin) => authenticate_registry(
                self.registry_url.as_str(),
                self.registry_key.as_str(),
                self.target_url.as_str(),
                self.credential.username.as_str(),
                self.credential.password.as_str(),
                &self.api_version,
            ),
            (BrokerPhase::DetectVersion, BrokerEvent::Probe(probe)) => after_probe(
                &self.credential,
                self.target_url.as_str(),
                &probe,
            ),
            (BrokerPhase::Challenge, BrokerEvent::Challenge(reply)) => after_challenge(
                &self.credential,
                &reply,
            ),
            (BrokerPhase::Token, BrokerEvent::Token(reply)) => AuthStep::Done(
                after_token(&self.credential, reply),
            ),
            _ => AuthStep::Done(RegistryAuthResult::Failed("认证流程状态错误".to_string())),
        };
        self.phase = match &step {
            AuthStep::Probe { .. } => BrokerPhase::DetectVersion,
            AuthStep::Challenge { .. } => BrokerPhase::Challenge,
            AuthStep::FetchToken { .. } => BrokerPhase::Token,
            AuthStep::Done(_) => BrokerPhase::Finished,
        };
        step
    }
}

/// Every step of a negotiation that is not finished moves it forward, so a
/// negotiation makes at most three requests: the probe, the request without
/// credentials and the token request, in this order.
pub proof fn lemma_negotiation_moves_forward(negotiation: Negotiation, event: BrokerEvent)
    requires
        negotiation.phase != BrokerPhase::Finished,
    ensures
        phase_rank(phase_after(broker_step(negotiation, event))) > phase_rank(negotiation.phase),
{
}

/// A negotiation in version v1 is over at its first step, with the Basic
/// result for its credentials, whatever the URLs are.
pub proof fn lemma_v1_negotiation(negotiation: Negotiation)
    requires
        negotiation.phase == BrokerPhase::Start,
        negotiation.api_version == RegistryApiVersion::V1,
    ensures
        broker_step(negotiation, BrokerEvent::Begin) == AuthStepView::Done(
            RegistryAuthResultView::BasicAuth(
                basic_auth_header(
                    negotiation.credential.username@,
                    negotiation.credential.password@,
                ),
            ),
        ),
{
}

/// A negotiation ends as failed only where the request without credentials
/// failed in transport, or where it was told what it did not wait for.
pub proof fn lemma_negotiation_failure(negotiation: Negotiation, event: BrokerEvent)
    requires
        broker_step(negotiation, event) matches AuthStepView::Done(
            RegistryAuthResultView::Failed(_),
        ),
    ensures
        (negotiation.phase == BrokerPhase::Challenge && event matches BrokerEvent::Challenge(
            Err(_),
        )) || !(waits_for(negotiation.phase, event)),
{
}

/// Whether `event` is what a negotiation in `phase` waits for.
pub open spec fn waits_for(phase: BrokerPhase, event: BrokerEvent) -> bool {
    match (phase, event) {
        (BrokerPhase::Start, BrokerEvent::Begin) => true,
        (BrokerPhase::DetectVersion, BrokerEvent::Probe(_)) => true,
        (BrokerPhase::Challenge, BrokerEvent::Challenge(_)) => true,
        (BrokerPhase::Token, BrokerEvent::Token(_)) => true,
        _ => false,
    }
}

} // verus!
