//! The challenge responder (`GET /v2/`) and the token endpoint (`GET /auth/token`).

use crate::auth_utils::{
    basic_auth_header, basic_credentials, create_basic_auth, get_registry_credentials,
    parse_basic_auth, parse_scope, registry_credentials_of, user_verified, verify_user,
    TokenResponse, TokenResponseView,
};
use crate::config::{RegistryApiVersion, RegistryConfig, RegistryCredential, Settings, UserSettings};
use crate::encoding::{url_error, url_parse_error};
use crate::error::{AppError, AppErrorView};
use crate::handlers::query::{distinct_keys, Query};
use crate::handlers::reply::{
    headers_view, make_plain_reply, make_reply, plain_reply, readable_header, readable_value,
    reply_with_header, ClientAuthorization, Reply, ReplyView,
};
use crate::text::{
    chars_of, contains_char, copy_range, find_char, outcome_text, position, same_text, split_on,
    starts_with, string_of, text_of, texts_of,
};
use vstd::hash_map::StringHashMap;
use vstd::prelude::*;
use vstd::string::*;

verus! {

/// The user that a client's `Authorization` header proves, or what is wrong
/// with the header: it is missing, it is no text, it is no Basic header, no
/// users are configured, or the pair is not that of a configured user.
pub open spec fn client_user(
    users: Map<Seq<char>, UserSettings>,
    authorization: ClientAuthorization,
) -> Result<Seq<char>, Seq<char>> {
    match authorization {
        ClientAuthorization::Missing => Err("认证失败: 需要认证"@),
        ClientAuthorization::Unreadable => Err("认证失败: 认证头格式不正确"@),
        ClientAuthorization::Value(value) => match basic_credentials(value@) {
            None => Err("认证失败: 认证格式不正确"@),
            Some((username, password)) => if users.is_empty() {
                Err("认证失败: 没有配置用户"@)
            } else if user_verified(users, username, password) {
                Ok(username)
            } else {
                Err("认证失败: 用户名或密码不正确"@)
            },
        },
    }
}

/// Checks a client's `Authorization` header against the configured users.
pub fn check_client(
    users: &StringHashMap<UserSettings>,
    authorization: &ClientAuthorization,
) -> (out: Result<String, String>)
    ensures
        outcome_text(out) == client_user(users@, *authorization),
{
    match authorization {
        ClientAuthorization::Missing => Err("认证失败: 需要认证".to_string()),
        ClientAuthorization::Unreadable => Err("认证失败: 认证头格式不正确".to_string()),
        ClientAuthorization::Value(value) => match parse_basic_auth(value.as_str()) {
            None => Err("认证失败: 认证格式不正确".to_string()),
            Some((username, password)) => {
                if users.is_empty() {
                    Err("认证失败: 没有配置用户".to_string())
                } else if verify_user(username.as_str(), password.as_str(), users) {
                    Ok(username)
                } else {
                    Err("认证失败: 用户名或密码不正确".to_string())
                }
            },
        },
    }
}

/// A user is proved exactly by a readable Basic header whose pair is that of
/// a configured user.
pub proof fn lemma_client_user(
    users: Map<Seq<char>, UserSettings>,
    authorization: ClientAuthorization,
)
    ensures
        client_user(users, authorization) is Ok <==> (readable_value(authorization) matches Some(
            value,
        ) && basic_credentials(value) matches Some((username, password)) && user_verified(
            users,
            username,
            password,
        )),
        client_user(users, authorization) matches Ok(user) ==> users.contains_key(user),
{
    if let ClientAuthorization::Value(value) = authorization {
        if let Some((username, password)) = basic_credentials(value@) {
            if user_verified(users, username, password) {
                assert(users.dom().contains(username));
            }
        }
    }
}

/// What the challenge responder does.
#[derive(Debug)]
pub enum ChallengeStep {
    /// Send this reply.
    Reply(Reply),
    /// Ask the upstream's `/v2/` and answer with `relay_challenge`.
    AskUpstream { url: String, authorization: Option<String> },
}

/// The texts of a `ChallengeStep`.
pub enum ChallengeStepView {
    Reply(ReplyView),
    AskUpstream { url: Seq<char>, authorization: Option<Seq<char>> },
}

impl View for ChallengeStep {
    type V = ChallengeStepView;

    open spec fn view(&self) -> ChallengeStepView {
        match self {
            ChallengeStep::Reply(reply) => ChallengeStepView::Reply(reply@),
            ChallengeStep::AskUpstream { url, authorization } => ChallengeStepView::AskUpstream {
                url: url@,
                authorization: text_of(*authorization),
            },
        }
    }
}

/// The reply to a client that proved a user: success, with an empty JSON object.
pub open spec fn welcome_reply() -> ReplyView {
    reply_with_header(200, "Content-Type"@, "application/json"@, "{}"@)
}

/// The reply to a client that proved no user: 401 with a Basic challenge and
/// a JSON error body.
pub open spec fn challenge_reply() -> ReplyView {
    reply_with_header(
        401,
        "WWW-Authenticate"@,
        "Basic realm=\"Docker Registry\""@,
        "{\"errors\":[{\"code\":\"UNAUTHORIZED\",\"detail\":null,\"message\":\"authentication required\"}]}"@,
    )
}

/// What `GET /v2/` is answered with. Where the gateway checks its clients
/// itself, the client's credentials decide between welcome and challenge;
/// otherwise the upstream's own `/v2/` is asked, with the client's header.
pub open spec fn challenge_decision(
    settings: Settings,
    authorization: ClientAuthorization,
) -> ChallengeStepView {
    if settings.auth.enabled {
        if client_user(settings.auth.users@, authorization) is Ok {
            ChallengeStepView::Reply(welcome_reply())
        } else {
            ChallengeStepView::Reply(challenge_reply())
        }
    } else {
        ChallengeStepView::AskUpstream {
            url: settings.registry.upstream_registry@ + "/v2/"@,
            authorization: readable_value(authorization),
        }
    }
}

/// Answers `GET /v2/`, or says what to ask the upstream.
pub fn proxy_challenge(
    settings: &Settings,
    authorization: &ClientAuthorization,
) -> (step: ChallengeStep)
    ensures
        step@ == challenge_decision(*settings, *authorization),
{
    if settings.auth.enabled {
        match check_client(&settings.auth.users, authorization) {
            Ok(_) => ChallengeStep::Reply(
                make_reply(200, "Content-Type", "application/json".to_string(), "{}".to_string()),
            ),
            Err(_) => ChallengeStep::Reply(
                make_reply(
                    401,
                    "WWW-Authenticate",
                    "Basic realm=\"Docker Registry\"".to_string(),
                    "{\"errors\":[{\"code\":\"UNAUTHORIZED\",\"detail\":null,\"message\":\"authentication required\"}]}".to_string(),
                ),
            ),
        }
    } else {
        let mut url = settings.registry.upstream_registry.clone();
        url.append("/v2/");
        ChallengeStep::AskUpstream { url, authorization: readable_header(authorization) }
    }
}

/// Where the gateway checks its clients itself, `GET /v2/` is answered at
/// once: with 200, an empty JSON object and no challenge to a client whose
/// credentials are those of a configured user, and with 401 and a Basic
/// challenge to every other client.
pub proof fn lemma_challenge_responder(settings: Settings, authorization: ClientAuthorization)
    requires
        settings.auth.enabled,
    ensures
        client_user(settings.auth.users@, authorization) is Ok ==> challenge_decision(
            settings,
            authorization,
        ) == ChallengeStepView::Reply(
            ReplyView {
                status: 200,
                headers: seq![("Content-Type"@, "application/json"@)],
                body: "{}"@,
            },
        ),
        client_user(settings.auth.users@, authorization) is Err ==> (challenge_decision(
            settings,
            authorization,
        ) matches ChallengeStepView::Reply(reply) && reply.status == 401 && reply.headers
            == seq![("WWW-Authenticate"@, "Basic realm=\"Docker Registry\""@)]),
{
}

/// What the upstream's `/v2/` answered: its status, and its body where that
/// could be read as text.
#[derive(Debug)]
pub struct UpstreamText {
    pub status: u16,
    pub body: Option<String>,
}

/// The challenge that sends a client to the gateway's own token endpoint.
pub open spec fn gateway_challenge(https: bool, host: Seq<char>) -> Seq<char> {
    "Bearer realm=\""@ + (if https {
        "https"@
    } else {
        "http"@
    }) + "://"@ + host + "/auth/token\",service=\"registry.docker.io\""@
}

/// The reply that relays the upstream's answer to `GET /v2/`: its status and
/// its body; a 401 gets a challenge that points at the gateway's own token
/// endpoint. An upstream that could not be reached is answered with 500.
pub open spec fn relayed_challenge(
    https: bool,
    host: Seq<char>,
    answer: Result<UpstreamText, String>,
) -> ReplyView {
    match answer {
        Err(_) => plain_reply(500, "无法连接到上游 Docker Registry"@),
        Ok(upstream) => ReplyView {
            status: upstream.status,
            headers: if upstream.status == 401 {
                seq![("WWW-Authenticate"@, gateway_challenge(https, host))]
            } else {
                Seq::empty()
            },
            body: match upstream.body {
                Some(body) => body@,
                None => "无法读取上游响应内容"@,
            },
        },
    }
}

/// Relays the upstream's answer to `GET /v2/`.
pub fn relay_challenge(
    settings: &Settings,
    host: &str,
    answer: Result<UpstreamText, String>,
) -> (reply: Reply)
    ensures
        reply@ == relayed_challenge(settings.server.https_enabled, host@, answer),
{
    match answer {
        Err(_) => make_plain_reply(500, "无法连接到上游 Docker Registry".to_string()),
        Ok(upstream) => {
            let body = match upstream.body {
                Some(body) => body,
                None => "无法读取上游响应内容".to_string(),
            };
            if upstream.status == 401 {
                let mut value = "Bearer realm=\"".to_string();
                if settings.server.https_enabled {
                    value.append("https");
                } else {
                    value.append("http");
                }
                value.append("://");
                value.append(host);
                value.append("/auth/token\",service=\"registry.docker.io\"");
                make_reply(401, "WWW-Authenticate", value, body)
            } else {
                make_plain_reply(upstream.status, body)
            }
        },
    }
}

/// The value of the query parameter `key`: of a repeated one, the last.
pub open spec fn query_value(query: Seq<(Seq<char>, Seq<char>)>, key: Seq<char>) -> Option<
    Seq<char>,
>
    decreases query.len(),
{
    if query.len() == 0 {
        None
    } else if query.last().0 == key {
        Some(query.last().1)
    } else {
        query_value(query.drop_last(), key)
    }
}

/// Looks up a query parameter.
pub fn query_parameter(query: &Vec<(String, String)>, key: &str) -> (out: Option<String>)
    ensures
        text_of(out) == query_value(headers_view(query@), key@),
{
    let mut i: usize = query.len();
    let ghost all = headers_view(query@);
    assert(all.take(query.len() as int) == all);
    while i > 0
        invariant
            0 <= i <= query.len(),
            all == headers_view(query@),
            query_value(all, key@) == query_value(all.take(i as int), key@),
        decreases i,
    {
        i -= 1;
        proof {
            let now = all.take(i + 1);
            assert(now.last() == (query@[i as int].0@, query@[i as int].1@));
            assert(now.drop_last() == all.take(i as int));
        }
        if same_text(query[i].0.as_str(), key) {
            return Some(query[i].1.clone());
        }
    }
    assert(all.take(0).len() == 0);
    None
}

/// The parameters of `query` whose key is neither `first` nor `second`, in order.
pub open spec fn other_parameters(
    query: Seq<(Seq<char>, Seq<char>)>,
    first: Seq<char>,
    second: Seq<char>,
) -> Seq<(Seq<char>, Seq<char>)>
    decreases query.len(),
{
    if query.len() == 0 {
        Seq::empty()
    } else if query.last().0 == first || query.last().0 == second {
        other_parameters(query.drop_last(), first, second)
    } else {
        other_parameters(query.drop_last(), first, second).push(query.last())
    }
}

/// Appends to `out` the parameters of `query` whose key is neither `first` nor `second`.
fn push_other_parameters(
    out: &mut Vec<(String, String)>,
    query: &Vec<(String, String)>,
    first: &str,
    second: &str,
)
    ensures
        headers_view(final(out)@) == headers_view(old(out)@) + other_parameters(
            headers_view(query@),
            first@,
            second@,
        ),
{
    let ghost before = headers_view(out@);
    let ghost all = headers_view(query@);
    let mut i: usize = 0;
    assert(all.take(0).len() == 0);
    assert(before + Seq::<(Seq<char>, Seq<char>)>::empty() == before);
    while i < query.len()
        invariant
            0 <= i <= query.len(),
            all == headers_view(query@),
            headers_view(out@) == before + other_parameters(all.take(i as int), first@, second@),
        decreases query.len() - i,
    {
        let ghost earlier = headers_view(out@);
        proof {
            let now = all.take(i + 1);
            assert(now.last() == (query@[i as int].0@, query@[i as int].1@));
            assert(now.drop_last() == all.take(i as int));
        }
        let key = query[i].0.as_str();
        if !same_text(key, first) && !same_text(key, second) {
            out.push((query[i].0.clone(), query[i].1.clone()));
            assert(headers_view(out@) =~= earlier.push((query@[i as int].0@, query@[i as int].1@)));
        }
        i += 1;
    }
    assert(all.take(query.len() as int) == all);
}

/// The other parameters are pairs of the query, none with one of the two
/// keys; where the query holds no key twice, neither do they.
pub proof fn lemma_other_parameters(
    query: Seq<(Seq<char>, Seq<char>)>,
    first: Seq<char>,
    second: Seq<char>,
)
    ensures
        forall|m: int|
            0 <= m < other_parameters(query, first, second).len() ==> {
                &&& query.contains(#[trigger] other_parameters(query, first, second)[m])
                &&& other_parameters(query, first, second)[m].0 != first
                &&& other_parameters(query, first, second)[m].0 != second
            },
        distinct_keys(query) ==> distinct_keys(other_parameters(query, first, second)),
    decreases query.len(),
{
    if query.len() > 0 {
        let rest = query.drop_last();
        let last = query.last();
        lemma_other_parameters(rest, first, second);
        let before = other_parameters(rest, first, second);
        let now = other_parameters(query, first, second);
        assert forall|m: int| 0 <= m < before.len() implies query.contains(#[trigger] before[m])
            && (distinct_keys(query) ==> before[m].0 != last.0) by {
            assert(rest.contains(before[m]));
            let k = choose|k: int| 0 <= k < rest.len() && rest[k] == before[m];
            assert(query[k] == before[m]);
            if distinct_keys(query) {
                assert(query[k].0 != query[query.len() - 1].0);
            }
        }
        assert(query[query.len() - 1] == last);
        assert forall|m: int| 0 <= m < now.len() implies query.contains(#[trigger] now[m]) by {
            if m < before.len() {
                assert(now[m] == before[m]);
            }
        }
        if distinct_keys(query) {
            assert forall|i: int, j: int|
                0 <= i < j < rest.len() implies (#[trigger] rest[i]).0 != (#[trigger] rest[j]).0
            by {
                assert(rest[i] == query[i] && rest[j] == query[j]);
            }
            assert forall|i: int, j: int|
                0 <= i < j < now.len() implies (#[trigger] now[i]).0 != (#[trigger] now[j]).0 by {
                if j < before.len() {
                    assert(now[i] == before[i] && now[j] == before[j]);
                } else {
                    assert(now[i] == before[i]);
                }
            }
        }
    }
}

/// The registry that a scope names: the scope begins with `repository:`, and
/// what follows holds a `/` with a `.` somewhere before the first one; the
/// registry is what stands before that `/`.
pub open spec fn scope_registry(scope: Seq<char>) -> Option<Seq<char>> {
    if "repository:"@.is_prefix_of(scope) && position(scope.skip(11), '/') < scope.skip(11).len()
        && scope.skip(11).take(position(scope.skip(11), '/')).contains('.') {
        Some(scope.skip(11).take(position(scope.skip(11), '/')))
    } else {
        None
    }
}

/// Finds the registry key in a scope such as `repository:ghcr.io/user/app:pull`.
pub fn extract_registry_from_scope(scope: &str) -> (out: Option<String>)
    ensures
        text_of(out) == scope_registry(scope@),
{
    let chars = chars_of(scope);
    let prefix = chars_of("repository:");
    proof {
        reveal_strlit("repository:");
    }
    if !starts_with(chars.as_slice(), prefix.as_slice()) {
        return None;
    }
    let repository = copy_range(chars.as_slice(), 11, chars.len());
    assert(scope@.skip(11) == scope@.subrange(11, scope@.len() as int));
    match find_char(repository.as_slice(), '/') {
        Some(p) => {
            let first = copy_range(repository.as_slice(), 0, p);
            assert(repository@.take(p as int) == repository@.subrange(0, p as int));
            if contains_char(first.as_slice(), '.') {
                Some(string_of(first.as_slice()))
            } else {
                None
            }
        },
        None => None,
    }
}

/// A request whose answer is relayed to the client as it comes: status,
/// headers and body. The two texts answer, with status 500, an upstream that
/// cannot be reached and a body that cannot be read.
#[derive(Debug)]
pub struct UpstreamRequest {
    pub url: String,
    pub query: Vec<(String, String)>,
    pub authorization: Option<String>,
    pub if_unreachable: String,
    pub if_unreadable: String,
}

/// The texts of an `UpstreamRequest`.
pub struct UpstreamRequestView {
    pub url: Seq<char>,
    pub query: Seq<(Seq<char>, Seq<char>)>,
    pub authorization: Option<Seq<char>>,
    pub if_unreachable: Seq<char>,
    pub if_unreadable: Seq<char>,
}

impl View for UpstreamRequest {
    type V = UpstreamRequestView;

    open spec fn view(&self) -> UpstreamRequestView {
        UpstreamRequestView {
            url: self.url@,
            query: headers_view(self.query@),
            authorization: text_of(self.authorization),
            if_unreachable: self.if_unreachable@,
            if_unreadable: self.if_unreadable@,
        }
    }
}

/// What the token endpoint does.
#[derive(Debug)]
pub enum TokenStep {
    /// Send this reply.
    Reply(Reply),
    /// Issue a local token for this user and these scopes, and send it as JSON.
    IssueLocal { username: String, scopes: Vec<String> },
    /// Make this request and relay its answer.
    AskUpstream(UpstreamRequest),
}

/// The texts of a `TokenStep`.
pub enum TokenStepView {
    Reply(ReplyView),
    IssueLocal { username: Seq<char>, scopes: Seq<Seq<char>> },
    AskUpstream(UpstreamRequestView),
}

impl View for TokenStep {
    type V = TokenStepView;

    open spec fn view(&self) -> TokenStepView {
        match self {
            TokenStep::Reply(reply) => TokenStepView::Reply(reply@),
            TokenStep::IssueLocal { username, scopes } => TokenStepView::IssueLocal {
                username: username@,
                scopes: texts_of(scopes@),
            },
            TokenStep::AskUpstream(request) => TokenStepView::AskUpstream(request@),
        }
    }
}

/// The views of a step or of an error.
pub open spec fn step_view(outcome: Result<TokenStep, AppError>) -> Result<
    TokenStepView,
    AppErrorView,
> {
    match outcome {
        Ok(step) => Ok(step@),
        Err(error) => Err(error@),
    }
}

/// The token request that is forwarded to Docker Hub: the service is always
/// `registry.docker.io`, every other parameter of the client follows as it
/// came, and the client's `Authorization` header goes along.
pub open spec fn default_token_request(
    query: Seq<(Seq<char>, Seq<char>)>,
    authorization: ClientAuthorization,
) -> UpstreamRequestView {
    UpstreamRequestView {
        url: "https://auth.docker.io/token"@,
        query: seq![("service"@, "registry.docker.io"@)] + other_parameters(
            query,
            "service"@,
            "service"@,
        ),
        authorization: readable_value(authorization),
        if_unreachable: "无法连接到 Docker Hub 认证服务"@,
        if_unreadable: "无法读取认证服务响应"@,
    }
}

/// Forwards a token request to Docker Hub.
pub fn handle_default_auth(
    query: &Query,
    authorization: &ClientAuthorization,
) -> (step: TokenStep)
    ensures
        step@ == TokenStepView::AskUpstream(
            default_token_request(query@, *authorization),
        ),
{
    let mut pairs: Vec<(String, String)> = Vec::new();
    pairs.push(("service".to_string(), "registry.docker.io".to_string()));
    assert(headers_view(pairs@) =~= seq![("service"@, "registry.docker.io"@)]);
    push_other_parameters(&mut pairs, query.pairs(), "service", "service");
    TokenStep::AskUpstream(
        UpstreamRequest {
            url: "https://auth.docker.io/token".to_string(),
            query: pairs,
            authorization: readable_header(authorization),
            if_unreachable: "无法连接到 Docker Hub 认证服务".to_string(),
            if_unreadable: "无法读取认证服务响应".to_string(),
        },
    )
}

/// The token endpoint of a registry: its `auth_url`, or `{url}/token`.
pub open spec fn token_endpoint(registry: RegistryConfig) -> Seq<char> {
    match registry.auth_url {
        Some(url) => url@,
        None => registry.url@ + "/token"@,
    }
}

/// The token request that goes to a v2 registry's own token endpoint: the
/// client's service where it named one, the scope, then the client's other
/// parameters, with the user's credentials for that registry. An endpoint
/// that is no URL is an invalid request.
pub open spec fn upstream_token_request(
    registry: RegistryConfig,
    username: Seq<char>,
    password: Seq<char>,
    scope: Seq<char>,
    query: Seq<(Seq<char>, Seq<char>)>,
) -> Result<TokenStepView, AppErrorView> {
    match url_parse_error(token_endpoint(registry)) {
        Some(problem) => Err(AppErrorView::InvalidRequest("无效的认证 URL: "@ + problem)),
        None => Ok(
            TokenStepView::AskUpstream(
                UpstreamRequestView {
                    url: token_endpoint(registry),
                    query: (match query_value(query, "service"@) {
                        Some(service) => seq![("service"@, service)],
                        None => Seq::empty(),
                    }) + seq![("scope"@, scope)] + other_parameters(query, "service"@, "scope"@),
                    authorization: Some(basic_auth_header(username, password)),
                    if_unreachable: "无法连接到上游认证服务"@,
                    if_unreadable: "无法读取上游认证响应"@,
                },
            ),
        ),
    }
}

/// Builds the token request to a v2 registry once its endpoint was checked:
/// `problem` is what the URL parser said of the endpoint.
pub fn upstream_token_step(
    endpoint: String,
    problem: Option<String>,
    registry_cred: &RegistryCredential,
    scope: &str,
    query: &Query,
) -> (out: Result<TokenStep, AppError>)
    ensures
        match problem {
            Some(problem) => step_view(out) == Err::<TokenStepView, AppErrorView>(
                AppErrorView::InvalidRequest("无效的认证 URL: "@ + problem@),
            ),
            None => step_view(out) == Ok::<TokenStepView, AppErrorView>(
                TokenStepView::AskUpstream(
                    UpstreamRequestView {
                        url: endpoint@,
                        query: (match query_value(query@, "service"@) {
                            Some(service) => seq![("service"@, service)],
                            None => Seq::empty(),
                        }) + seq![("scope"@, scope@)] + other_parameters(
                            query@,
                            "service"@,
                            "scope"@,
                        ),
                        authorization: Some(
                            basic_auth_header(registry_cred.username@, registry_cred.password@),
                        ),
                        if_unreachable: "无法连接到上游认证服务"@,
                        if_unreadable: "无法读取上游认证响应"@,
                    },
                ),
            ),
        },
{
    match problem {
        Some(problem) => {
            let mut detail = "无效的认证 URL: ".to_string();
            detail.append(problem.as_str());
            Err(AppError::InvalidRequest(detail))
        },
        None => {
            let mut pairs: Vec<(String, String)> = Vec::new();
            match query_parameter(query.pairs(), "service") {
                Some(service) => {
                    pairs.push(("service".to_string(), service));
                },
                None => {},
            }
            pairs.push(("scope".to_string(), scope.to_string()));
            assert(headers_view(pairs@) =~= (match query_value(query@, "service"@) {
                Some(service) => seq![("service"@, service)],
                None => Seq::empty(),
            }) + seq![("scope"@, scope@)]);
            push_other_parameters(&mut pairs, query.pairs(), "service", "scope");
            Ok(
                TokenStep::AskUpstream(
                    UpstreamRequest {
                        url: endpoint,
                        query: pairs,
                        authorization: Some(
                            create_basic_auth(
                                registry_cred.username.as_str(),
                                registry_cred.password.as_str(),
                            ),
                        ),
                        if_unreachable: "无法连接到上游认证服务".to_string(),
                        if_unreadable: "无法读取上游认证响应".to_string(),
                    },
                ),
            )
        },
    }
}

/// Asks a v2 registry's own token endpoint for the token.
pub fn get_upstream_v2_token(
    registry_config: &RegistryConfig,
    registry_cred: &RegistryCredential,
    scope: &str,
    query: &Query,
) -> (out: Result<TokenStep, AppError>)
    ensures
        step_view(out) == upstream_token_request(
            *registry_config,
            registry_cred.username@,
            registry_cred.password@,
            scope@,
            query@,
        ),
{
    let endpoint = match &registry_config.auth_url {
        Some(url) => url.clone(),
        None => {
            let mut url = registry_config.url.clone();
            url.append("/token");
            url
        },
    };
    let problem = url_error(endpoint.as_str());
    upstream_token_step(endpoint, problem, registry_cred, scope, query)
}

/// A request that is forwarded for a query without repeated keys names no
/// key twice: neither the one to Docker Hub nor the one to a registry's own
/// token endpoint.
pub proof fn lemma_forwarded_keys(
    registry: RegistryConfig,
    username: Seq<char>,
    password: Seq<char>,
    scope: Seq<char>,
    query: Seq<(Seq<char>, Seq<char>)>,
    authorization: ClientAuthorization,
)
    requires
        distinct_keys(query),
    ensures
        distinct_keys(default_token_request(query, authorization).query),
        upstream_token_request(registry, username, password, scope, query) matches Ok(
            TokenStepView::AskUpstream(request),
        ) ==> distinct_keys(request.query),
{
    reveal_strlit("service");
    reveal_strlit("scope");
    assert("service"@ != "scope"@) by {
        assert("service"@.len() != "scope"@.len());
    }
    lemma_other_parameters(query, "service"@, "service"@);
    lemma_other_parameters(query, "service"@, "scope"@);
    let to_hub = default_token_request(query, authorization).query;
    let hub_others = other_parameters(query, "service"@, "service"@);
    assert forall|i: int, j: int|
        0 <= i < j < to_hub.len() implies (#[trigger] to_hub[i]).0 != (#[trigger] to_hub[j]).0 by {
        assert(to_hub[j] == hub_others[j - 1]);
        if i > 0 {
            assert(to_hub[i] == hub_others[i - 1]);
        }
    }
    if let Ok(TokenStepView::AskUpstream(request)) = upstream_token_request(
        registry,
        username,
        password,
        scope,
        query,
    ) {
        let others = other_parameters(query, "service"@, "scope"@);
        let lead: Seq<(Seq<char>, Seq<char>)> = (match query_value(query, "service"@) {
            Some(service) => seq![("service"@, service)],
            None => Seq::empty(),
        }) + seq![("scope"@, scope)];
        assert(request.query == lead + others);
        assert forall|i: int, j: int|
            0 <= i < j < request.query.len() implies (#[trigger] request.query[i]).0
                != (#[trigger] request.query[j]).0 by {
            if j >= lead.len() {
                assert(request.query[j] == others[j - lead.len()]);
                if i >= lead.len() {
                    assert(request.query[i] == others[i - lead.len()]);
                } else {
                    assert(request.query[i] == lead[i]);
                }
            } else {
                assert(request.query[i] == lead[i] && request.query[j] == lead[j]);
            }
        }
    }
}

/// Where a token comes from upstream: the request names a scope, the scope
/// names a registry, the user has credentials for it, and it is configured as
/// a v2 registry. The result is that registry, the credentials and the scope.
pub open spec fn upstream_token_source(
    settings: Settings,
    user: Seq<char>,
    query: Seq<(Seq<char>, Seq<char>)>,
) -> Option<(RegistryConfig, RegistryCredential, Seq<char>)> {
    match query_value(query, "scope"@) {
        Some(scope) => match scope_registry(scope) {
            Some(key) => match registry_credentials_of(settings.auth.users@, user, key) {
                Some(credential) => if settings.registry.registries@.contains_key(key)
                    && settings.registry.registries@[key].api_version == RegistryApiVersion::V2 {
                    Some((settings.registry.registries@[key], credential, scope))
                } else {
                    None
                },
                None => None,
            },
            None => None,
        },
        None => None,
    }
}

/// The scopes of a token request: the pieces of its `scope` parameter, none
/// without that parameter.
pub open spec fn requested_scopes(query: Seq<(Seq<char>, Seq<char>)>) -> Seq<Seq<char>> {
    match query_value(query, "scope"@) {
        Some(scope) => split_on(scope, ' '),
        None => Seq::empty(),
    }
}

/// What the token endpoint does where the gateway checks its clients itself.
///
/// A client that proves no user gets 401 with a Basic challenge and the
/// reason. For a proved user the token comes from the registry that the scope
/// names, where `upstream_token_source` finds one, and else from the gateway.
pub open spec fn custom_token_decision(
    settings: Settings,
    authorization: ClientAuthorization,
    query: Seq<(Seq<char>, Seq<char>)>,
) -> Result<TokenStepView, AppErrorView> {
    match client_user(settings.auth.users@, authorization) {
        Err(reason) => Ok(
            TokenStepView::Reply(
                reply_with_header(
                    401,
                    "WWW-Authenticate"@,
                    "Basic realm=\"Docxy Registry\""@,
                    reason,
                ),
            ),
        ),
        Ok(user) => match upstream_token_source(settings, user, query) {
            Some((registry, credential, scope)) => upstream_token_request(
                registry,
                credential.username@,
                credential.password@,
                scope,
                query,
            ),
            None => Ok(
                TokenStepView::IssueLocal { username: user, scopes: requested_scopes(query) },
            ),
        },
    }
}

/// Decides on a token request where the gateway checks its clients itself.
pub fn handle_custom_auth(
    settings: &Settings,
    authorization: &ClientAuthorization,
    query: &Query,
) -> (out: Result<TokenStep, AppError>)
    ensures
        step_view(out) == custom_token_decision(*settings, *authorization, query@),
{
    let user = match check_client(&settings.auth.users, authorization) {
        Ok(user) => user,
        Err(reason) => {
            return Ok(
                TokenStep::Reply(
                    make_reply(
                        401,
                        "WWW-Authenticate",
                        "Basic realm=\"Docxy Registry\"".to_string(),
                        reason,
                    ),
                ),
            );
        },
    };
    let scope = query_parameter(query.pairs(), "scope");
    if let Some(scope) = &scope {
        if let Some(key) = extract_registry_from_scope(scope.as_str()) {
            if let Some(credential) = get_registry_credentials(
                user.as_str(),
                key.as_str(),
                &settings.auth.users,
            ) {
                if let Some(registry) = settings.registry.registries.get(key.as_str()) {
                    if registry.api_version == RegistryApiVersion::V2 {
                        return get_upstream_v2_token(registry, credential, scope.as_str(), query);
                    }
                }
            }
        }
    }
    let scopes = match &scope {
        Some(scope) => parse_scope(scope.as_str()),
        None => {
            let none: Vec<String> = Vec::new();
            assert(texts_of(none@) =~= Seq::<Seq<char>>::empty());
            none
        },
    };
    Ok(TokenStep::IssueLocal { username: user, scopes })
}

/// What `GET /auth/token` does. A query that could not be parsed is an
/// invalid request; otherwise the gateway decides itself where it checks its
/// clients, and forwards the request to Docker Hub where it does not.
pub open spec fn token_decision(
    settings: Settings,
    query: Option<Seq<(Seq<char>, Seq<char>)>>,
    authorization: ClientAuthorization,
) -> Result<TokenStepView, AppErrorView> {
    match query {
        None => Err(AppErrorView::InvalidRequest("无效的查询参数"@)),
        Some(query) => if settings.auth.enabled {
            custom_token_decision(settings, authorization, query)
        } else {
            Ok(TokenStepView::AskUpstream(default_token_request(query, authorization)))
        },
    }
}

/// The pairs of an optional query.
pub open spec fn query_view(query: Option<&Query>) -> Option<
    Seq<(Seq<char>, Seq<char>)>,
> {
    match query {
        Some(query) => Some(query@),
        None => None,
    }
}

/// Decides on `GET /auth/token`. `query` is absent where the query string
/// could not be parsed.
pub fn get_token(
    settings: &Settings,
    query: Option<&Query>,
    authorization: &ClientAuthorization,
) -> (out: Result<TokenStep, AppError>)
    ensures
        step_view(out) == token_decision(*settings, query_view(query), *authorization),
{
    match query {
        None => Err(AppError::InvalidRequest("无效的查询参数".to_string())),
        Some(query) => if settings.auth.enabled {
            handle_custom_auth(settings, authorization, query)
        } else {
            Ok(handle_default_auth(query, authorization))
        },
    }
}

/// What the local issuer's result amounts to: the token, or, where the clock
/// gave no usable reading, an I/O error.
pub open spec fn local_token_outcome(token: Option<TokenResponse>) -> Result<
    TokenResponseView,
    AppErrorView,
> {
    match token {
        Some(token) => Ok(token@),
        None => Err(AppErrorView::Io("系统时钟不可用"@)),
    }
}

/// The views of a token or of an error.
pub open spec fn token_view(outcome: Result<TokenResponse, AppError>) -> Result<
    TokenResponseView,
    AppErrorView,
> {
    match outcome {
        Ok(token) => Ok(token@),
        Err(error) => Err(error@),
    }
}

/// Turns the local issuer's result into the token or the error that answers
/// the client.
pub fn local_token(token: Option<TokenResponse>) -> (out: Result<TokenResponse, AppError>)
    ensures
        token_view(out) == local_token_outcome(token),
{
    match token {
        Some(token) => Ok(token),
        None => Err(AppError::Io("系统时钟不可用".to_string())),
    }
}

/// The reply to a client where the upstream of a relayed request could not
/// be reached, or its body not be read: status 500 with the request's text
/// for that case.
pub fn relay_failure(text: String) -> (reply: Reply)
    ensures
        reply@ == plain_reply(500, text@),
{
    make_plain_reply(500, text)
}

} // verus!
