use docxy::config::{
    AuthSettings, RegistryApiVersion, RegistryConfig, RegistryCredential, RegistrySettings,
    ServerSettings, Settings, TlsSettings, UserSettings,
};
use docxy::error::AppError;
use docxy::auth_utils::TokenResponse;
use docxy::handlers::auth::{
    check_client, get_token, get_upstream_v2_token, handle_custom_auth, handle_default_auth,
    local_token, proxy_challenge, query_parameter, relay_challenge, relay_failure,
    upstream_token_step, ChallengeStep, TokenStep, UpstreamText,
};
use docxy::handlers::query::Query;
use docxy::handlers::reply::{make_plain_reply, make_reply, ClientAuthorization};
use docxy::handlers::{handle_invalid_request, health_check, redirect_to_https};

fn header(name: &str, value: &str) -> (String, String) {
    (name.to_string(), value.to_string())
}

fn settings(auth_enabled: bool, https_enabled: bool) -> Settings {
    let mut registry = RegistrySettings::new("https://registry-1.docker.io".to_string());
    registry.insert(
        "ghcr.io".to_string(),
        RegistryConfig {
            url: "https://ghcr.io".to_string(),
            api_version: RegistryApiVersion::V2,
            auth_url: None,
        },
    );
    registry.insert(
        "quay.io".to_string(),
        RegistryConfig {
            url: "https://quay.io".to_string(),
            api_version: RegistryApiVersion::V2,
            auth_url: Some("https://auth.quay.example/v2/auth?tenant=1".to_string()),
        },
    );
    registry.insert(
        "auto.example".to_string(),
        RegistryConfig {
            url: "https://auto.example".to_string(),
            api_version: RegistryApiVersion::Auto,
            auth_url: None,
        },
    );
    registry.insert(
        "bad.example".to_string(),
        RegistryConfig {
            url: "not a url".to_string(),
            api_version: RegistryApiVersion::V2,
            auth_url: None,
        },
    );
    let mut alice = UserSettings::new("secret".to_string());
    for key in ["ghcr.io", "quay.io", "auto.example", "bad.example", "unknown.example"] {
        alice.insert(
            key.to_string(),
            RegistryCredential { username: "user".to_string(), password: "pass".to_string() },
        );
    }
    let mut auth = AuthSettings::new(auth_enabled);
    auth.insert("alice".to_string(), alice);
    auth.insert("bob".to_string(), UserSettings::new("hunter2".to_string()));
    Settings::new(
        ServerSettings {
            http_port: 80,
            https_port: 443,
            http_enabled: true,
            https_enabled,
            behind_proxy: false,
        },
        registry,
        TlsSettings { cert_path: String::new(), key_path: String::new() },
        auth,
    )
}

fn value(text: &str) -> ClientAuthorization {
    ClientAuthorization::Value(text.to_string())
}

fn alice() -> ClientAuthorization {
    value("Basic YWxpY2U6c2VjcmV0")
}

fn pairs(items: &[(&str, &str)]) -> Vec<(String, String)> {
    items.iter().map(|(k, v)| (k.to_string(), v.to_string())).collect()
}

fn asked(items: &[(&str, &str)]) -> Query {
    Query::new(pairs(items))
}

#[test]
fn health_is_always_a_success() {
    let reply = health_check();
    assert_eq!(reply.status, 200);
    assert_eq!(reply.headers, vec![header("Content-Type", "text/plain; charset=utf-8")]);
    assert_eq!(reply.body, "服务正常运行\n");
}

#[test]
fn an_unknown_path_is_forbidden() {
    let reply = handle_invalid_request();
    assert_eq!(reply.status, 403);
    assert_eq!(reply.headers, vec![header("Content-Type", "text/plain; charset=utf-8")]);
    assert_eq!(reply.body, "非法访问路径");
}

#[test]
fn the_redirect_drops_the_port_and_keeps_the_uri() {
    let reply = redirect_to_https("registry.example:8080", "/v2/a/manifests/latest?x=1");
    assert_eq!(reply.status, 301);
    assert_eq!(
        reply.headers,
        vec![header("Location", "https://registry.example/v2/a/manifests/latest?x=1")]
    );
    assert_eq!(reply.body, "");
    assert_eq!(
        redirect_to_https("registry.example", "/health").headers,
        vec![header("Location", "https://registry.example/health")]
    );
    assert_eq!(redirect_to_https("", "/").headers, vec![header("Location", "https:///")]);
    assert_eq!(redirect_to_https(":80", "/x").headers, vec![header("Location", "https:///x")]);
    assert_eq!(redirect_to_https("a:1:2", "").headers, vec![header("Location", "https://a")]);
}

#[test]
fn replies_are_made_as_given() {
    let plain = make_plain_reply(418, "teapot".to_string());
    assert_eq!(plain.status, 418);
    assert!(plain.headers.is_empty());
    assert_eq!(plain.body, "teapot");
    let one = make_reply(201, "X-A", "b".to_string(), "c".to_string());
    assert_eq!(one.status, 201);
    assert_eq!(one.headers, vec![header("X-A", "b")]);
    assert_eq!(one.body, "c");
}

#[test]
fn each_error_has_its_status_and_text() {
    let cases = vec![
        (AppError::UpstreamRequest("x".to_string()), 500, "Upstream registry request failed"),
        (AppError::TlsConfig("no key".to_string()), 500, "TLS configuration failed to load: no key"),
        (AppError::Rustls("x".to_string()), 500, "Rustls error"),
        (AppError::InvalidRequest("bad query".to_string()), 400, "Invalid client request: bad query"),
        (AppError::Io("x".to_string()), 500, "I/O error"),
    ];
    for (error, status, text) in cases {
        assert_eq!(error.status_code(), status);
        assert_eq!(error.message(), text);
        let reply = error.error_response();
        assert_eq!(reply.status, status);
        assert_eq!(reply.headers, vec![header("Content-Type", "text/plain; charset=utf-8")]);
        assert_eq!(reply.body, text);
    }
}

#[test]
fn the_client_check_names_each_failure() {
    let settings = settings(true, false);
    let users = &settings.auth.users;
    assert_eq!(check_client(users, &alice()), Ok("alice".to_string()));
    assert_eq!(
        check_client(users, &ClientAuthorization::Missing),
        Err("认证失败: 需要认证".to_string())
    );
    assert_eq!(
        check_client(users, &ClientAuthorization::Unreadable),
        Err("认证失败: 认证头格式不正确".to_string())
    );
    assert_eq!(
        check_client(users, &value("Bearer abc")),
        Err("认证失败: 认证格式不正确".to_string())
    );
    assert_eq!(
        check_client(users, &value("Basic YWxpY2U6d3Jvbmc=")),
        Err("认证失败: 用户名或密码不正确".to_string())
    );
    let empty = AuthSettings::new(true);
    assert_eq!(check_client(&empty.users, &alice()), Err("认证失败: 没有配置用户".to_string()));
}

#[test]
fn correct_credentials_are_welcomed() {
    match proxy_challenge(&settings(true, false), &alice()) {
        ChallengeStep::Reply(reply) => {
            assert_eq!(reply.status, 200);
            assert_eq!(reply.body, "{}");
            assert_eq!(reply.headers, vec![header("Content-Type", "application/json")]);
            assert!(reply.headers.iter().all(|(name, _)| name != "WWW-Authenticate"));
        }
        other => panic!("unexpected step {:?}", other),
    }
}

#[test]
fn wrong_or_missing_credentials_are_challenged() {
    let attempts = vec![
        ClientAuthorization::Missing,
        ClientAuthorization::Unreadable,
        value("Basic YWxpY2U6d3Jvbmc="),
        value("Bearer abc"),
        value("Basic !!!"),
        value(""),
    ];
    for attempt in attempts {
        match proxy_challenge(&settings(true, false), &attempt) {
            ChallengeStep::Reply(reply) => {
                assert_eq!(reply.status, 401);
                assert_eq!(
                    reply.headers,
                    vec![header("WWW-Authenticate", "Basic realm=\"Docker Registry\"")]
                );
                let body: serde_json::Value = serde_json::from_str(&reply.body).unwrap();
                assert_eq!(body["errors"][0]["code"], "UNAUTHORIZED");
                assert_eq!(body["errors"][0]["message"], "authentication required");
                assert!(body["errors"][0]["detail"].is_null());
                assert_eq!(
                    reply.body,
                    "{\"errors\":[{\"code\":\"UNAUTHORIZED\",\"detail\":null,\"message\":\"authentication required\"}]}"
                );
            }
            other => panic!("unexpected step {:?}", other),
        }
    }
}

#[test]
fn without_client_check_the_upstream_is_asked() {
    match proxy_challenge(&settings(false, false), &value("Bearer abc")) {
        ChallengeStep::AskUpstream { url, authorization } => {
            assert_eq!(url, "https://registry-1.docker.io/v2/");
            assert_eq!(authorization, Some("Bearer abc".to_string()));
        }
        other => panic!("unexpected step {:?}", other),
    }
    match proxy_challenge(&settings(false, false), &ClientAuthorization::Unreadable) {
        ChallengeStep::AskUpstream { authorization, .. } => assert_eq!(authorization, None),
        other => panic!("unexpected step {:?}", other),
    }
}

#[test]
fn an_upstream_401_is_rewritten_to_the_gateways_token_endpoint() {
    let answer = Ok(UpstreamText { status: 401, body: Some("{\"errors\":[]}".to_string()) });
    let reply = relay_challenge(&settings(false, true), "gw.example:8443", answer);
    assert_eq!(reply.status, 401);
    assert_eq!(
        reply.headers,
        vec![header(
            "WWW-Authenticate",
            "Bearer realm=\"https://gw.example:8443/auth/token\",service=\"registry.docker.io\""
        )]
    );
    assert_eq!(reply.body, "{\"errors\":[]}");
    let plain = relay_challenge(
        &settings(false, false),
        "gw.example",
        Ok(UpstreamText { status: 401, body: None }),
    );
    assert_eq!(
        plain.headers,
        vec![header(
            "WWW-Authenticate",
            "Bearer realm=\"http://gw.example/auth/token\",service=\"registry.docker.io\""
        )]
    );
    assert_eq!(plain.body, "无法读取上游响应内容");
}

#[test]
fn other_upstream_answers_are_relayed_without_challenge() {
    let reply = relay_challenge(
        &settings(false, true),
        "gw.example",
        Ok(UpstreamText { status: 200, body: Some("{}".to_string()) }),
    );
    assert_eq!(reply.status, 200);
    assert!(reply.headers.is_empty());
    assert_eq!(reply.body, "{}");
    let failed = relay_challenge(&settings(false, true), "gw.example", Err("refused".to_string()));
    assert_eq!(failed.status, 500);
    assert!(failed.headers.is_empty());
    assert_eq!(failed.body, "无法连接到上游 Docker Registry");
}

#[test]
fn of_a_repeated_query_parameter_the_last_counts() {
    let raw = pairs(&[("scope", "a"), ("service", "s"), ("scope", "b")]);
    assert_eq!(query_parameter(&raw, "scope"), Some("b".to_string()));
    assert_eq!(query_parameter(&raw, "service"), Some("s".to_string()));
    assert_eq!(query_parameter(&raw, "account"), None);
    assert_eq!(query_parameter(&Vec::new(), "scope"), None);
}

#[test]
fn an_unparsed_query_is_an_invalid_request() {
    for enabled in [true, false] {
        match get_token(&settings(enabled, false), None, &alice()) {
            Err(AppError::InvalidRequest(detail)) => assert_eq!(detail, "无效的查询参数"),
            other => panic!("unexpected outcome {:?}", other),
        }
    }
}

#[test]
fn without_client_check_the_token_request_goes_to_docker_hub() {
    let query = asked(&[
        ("service", "ignored"),
        ("scope", "repository:library/nginx:pull"),
        ("account", "me"),
        ("client_id", "docker"),
    ]);
    match get_token(&settings(false, false), Some(&query), &value("Basic abc")) {
        Ok(TokenStep::AskUpstream(request)) => {
            assert_eq!(request.url, "https://auth.docker.io/token");
            assert_eq!(
                request.query,
                pairs(&[
                    ("service", "registry.docker.io"),
                    ("scope", "repository:library/nginx:pull"),
                    ("account", "me"),
                    ("client_id", "docker"),
                ])
            );
            assert_eq!(request.authorization, Some("Basic abc".to_string()));
            assert_eq!(request.if_unreachable, "无法连接到 Docker Hub 认证服务");
            assert_eq!(request.if_unreadable, "无法读取认证服务响应");
        }
        other => panic!("unexpected outcome {:?}", other),
    }
    match handle_default_auth(&asked(&[]), &ClientAuthorization::Missing) {
        TokenStep::AskUpstream(request) => {
            assert_eq!(request.query, pairs(&[("service", "registry.docker.io")]));
            assert_eq!(request.authorization, None);
        }
        other => panic!("unexpected step {:?}", other),
    }
}

#[test]
fn an_unproved_client_gets_401_with_the_reason() {
    let query = asked(&[("scope", "repository:ghcr.io/a/b:pull")]);
    let cases = vec![
        (ClientAuthorization::Missing, "认证失败: 需要认证"),
        (ClientAuthorization::Unreadable, "认证失败: 认证头格式不正确"),
        (value("Bearer x"), "认证失败: 认证格式不正确"),
        (value("Basic YWxpY2U6d3Jvbmc="), "认证失败: 用户名或密码不正确"),
    ];
    for (authorization, reason) in cases {
        match get_token(&settings(true, false), Some(&query), &authorization) {
            Ok(TokenStep::Reply(reply)) => {
                assert_eq!(reply.status, 401);
                assert_eq!(
                    reply.headers,
                    vec![header("WWW-Authenticate", "Basic realm=\"Docxy Registry\"")]
                );
                assert_eq!(reply.body, reason);
            }
            other => panic!("unexpected outcome {:?}", other),
        }
    }
}

#[test]
fn a_scope_on_a_v2_registry_asks_that_registry() {
    let query = asked(&[
        ("account", "alice"),
        ("scope", "repository:ghcr.io/a/b:pull"),
        ("service", "ghcr.io"),
    ]);
    match handle_custom_auth(&settings(true, false), &alice(), &query) {
        Ok(TokenStep::AskUpstream(request)) => {
            assert_eq!(request.url, "https://ghcr.io/token");
            assert_eq!(
                request.query,
                pairs(&[
                    ("service", "ghcr.io"),
                    ("scope", "repository:ghcr.io/a/b:pull"),
                    ("account", "alice"),
                ])
            );
            assert_eq!(request.authorization, Some("Basic dXNlcjpwYXNz".to_string()));
            assert_eq!(request.if_unreachable, "无法连接到上游认证服务");
            assert_eq!(request.if_unreadable, "无法读取上游认证响应");
        }
        other => panic!("unexpected outcome {:?}", other),
    }
}

#[test]
fn a_configured_token_endpoint_is_used_as_it_is() {
    let query = asked(&[("scope", "repository:quay.io/a/b:pull")]);
    match handle_custom_auth(&settings(true, false), &alice(), &query) {
        Ok(TokenStep::AskUpstream(request)) => {
            assert_eq!(request.url, "https://auth.quay.example/v2/auth?tenant=1");
            assert_eq!(request.query, pairs(&[("scope", "repository:quay.io/a/b:pull")]));
        }
        other => panic!("unexpected outcome {:?}", other),
    }
}

#[test]
fn an_endpoint_that_is_no_url_is_an_invalid_request() {
    let query = asked(&[("scope", "repository:bad.example/a/b:pull")]);
    match handle_custom_auth(&settings(true, false), &alice(), &query) {
        Err(AppError::InvalidRequest(detail)) => {
            assert_eq!(detail, "无效的认证 URL: relative URL without a base")
        }
        other => panic!("unexpected outcome {:?}", other),
    }
    let registry = RegistryConfig {
        url: "https://ok.example".to_string(),
        api_version: RegistryApiVersion::V2,
        auth_url: Some("http://[::1".to_string()),
    };
    let credential =
        RegistryCredential { username: "u".to_string(), password: "p".to_string() };
    match get_upstream_v2_token(&registry, &credential, "s", &asked(&[])) {
        Err(AppError::InvalidRequest(detail)) => assert!(detail.starts_with("无效的认证 URL: ")),
        other => panic!("unexpected outcome {:?}", other),
    }
}

#[test]
fn the_parsers_verdict_decides_the_token_step() {
    let credential =
        RegistryCredential { username: "user".to_string(), password: "pass".to_string() };
    let query = asked(&[("scope", "old"), ("x", "y")]);
    match upstream_token_step(
        "https://t.example".to_string(),
        Some("empty host".to_string()),
        &credential,
        "s",
        &query,
    ) {
        Err(AppError::InvalidRequest(detail)) => assert_eq!(detail, "无效的认证 URL: empty host"),
        other => panic!("unexpected outcome {:?}", other),
    }
    match upstream_token_step("https://t.example".to_string(), None, &credential, "s", &query) {
        Ok(TokenStep::AskUpstream(request)) => {
            assert_eq!(request.url, "https://t.example");
            assert_eq!(request.query, pairs(&[("scope", "s"), ("x", "y")]));
            assert_eq!(request.authorization, Some("Basic dXNlcjpwYXNz".to_string()));
        }
        other => panic!("unexpected outcome {:?}", other),
    }
}

#[test]
fn every_other_request_gets_a_local_token() {
    let cases: Vec<(Query, Vec<&str>)> = vec![
        (asked(&[]), vec![]),
        (asked(&[("service", "x")]), vec![]),
        (asked(&[("scope", "repository:library/nginx:pull")]), vec!["repository:library/nginx:pull"]),
        (
            asked(&[("scope", "repository:auto.example/a/b:pull repository:c:push")]),
            vec!["repository:auto.example/a/b:pull", "repository:c:push"],
        ),
        (
            asked(&[("scope", "repository:unknown.example/a/b:pull")]),
            vec!["repository:unknown.example/a/b:pull"],
        ),
        (asked(&[("scope", "")]), vec![""]),
    ];
    for (query, expected) in cases {
        match handle_custom_auth(&settings(true, false), &alice(), &query) {
            Ok(TokenStep::IssueLocal { username, scopes }) => {
                assert_eq!(username, "alice");
                assert_eq!(scopes, expected);
            }
            other => panic!("unexpected outcome {:?}", other),
        }
    }
}

#[test]
fn a_user_without_credentials_for_the_registry_gets_a_local_token() {
    let query = asked(&[("scope", "repository:ghcr.io/a/b:pull")]);
    match handle_custom_auth(&settings(true, false), &value("Basic Ym9iOmh1bnRlcjI="), &query) {
        Ok(TokenStep::IssueLocal { username, scopes }) => {
            assert_eq!(username, "bob");
            assert_eq!(scopes, vec!["repository:ghcr.io/a/b:pull".to_string()]);
        }
        other => panic!("unexpected outcome {:?}", other),
    }
}

#[test]
fn a_failed_relay_is_answered_with_500() {
    let reply = relay_failure("无法读取认证服务响应".to_string());
    assert_eq!(reply.status, 500);
    assert!(reply.headers.is_empty());
    assert_eq!(reply.body, "无法读取认证服务响应");
}

#[test]
fn a_query_keeps_the_last_pair_of_each_key() {
    assert_eq!(asked(&[]).pairs(), &pairs(&[]));
    assert_eq!(asked(&[("a", "1"), ("b", "2")]).pairs(), &pairs(&[("a", "1"), ("b", "2")]));
    assert_eq!(
        asked(&[("a", "1"), ("b", "2"), ("a", "3"), ("c", "4"), ("b", "5")]).pairs(),
        &pairs(&[("a", "3"), ("c", "4"), ("b", "5")])
    );
    assert_eq!(asked(&[("a", "1"), ("a", "1"), ("a", "2")]).pairs(), &pairs(&[("a", "2")]));
    assert_eq!(asked(&[("", ""), ("", "x")]).pairs(), &pairs(&[("", "x")]));
}

#[test]
fn a_repeated_parameter_is_forwarded_once() {
    let repeated = asked(&[("account", "a"), ("scope", "s1"), ("account", "b"), ("scope", "s2")]);
    match handle_default_auth(&repeated, &ClientAuthorization::Missing) {
        TokenStep::AskUpstream(request) => assert_eq!(
            request.query,
            pairs(&[("service", "registry.docker.io"), ("account", "b"), ("scope", "s2")])
        ),
        other => panic!("unexpected step {:?}", other),
    }
}

#[test]
fn a_token_is_handed_on_and_a_missing_one_is_an_error() {
    let token = TokenResponse {
        token: "t".to_string(),
        access_token: "t".to_string(),
        expires_in: 3600,
        issued_at: "now".to_string(),
    };
    match local_token(Some(token)) {
        Ok(token) => {
            assert_eq!(token.token, "t");
            assert_eq!(token.access_token, "t");
            assert_eq!(token.expires_in, 3600);
            assert_eq!(token.issued_at, "now");
        }
        other => panic!("unexpected outcome {:?}", other),
    }
    match local_token(None) {
        Err(AppError::Io(detail)) => assert_eq!(detail, "系统时钟不可用"),
        other => panic!("unexpected outcome {:?}", other),
    }
}
