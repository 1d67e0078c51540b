use docxy::auth_utils::{parse_scope, parse_www_authenticate, scope_access};
use docxy::handlers::auth::extract_registry_from_scope;

fn strings(items: &[&str]) -> Vec<String> {
    items.iter().map(|s| s.to_string()).collect()
}

#[test]
fn parse_scope_splits_at_spaces() {
    assert_eq!(
        parse_scope("repository:a/b:pull repository:c/d:pull,push"),
        strings(&["repository:a/b:pull", "repository:c/d:pull,push"])
    );
    assert_eq!(parse_scope("one"), strings(&["one"]));
}

#[test]
fn parse_scope_keeps_empty_pieces() {
    assert_eq!(parse_scope(""), strings(&[""]));
    assert_eq!(parse_scope("a  b"), strings(&["a", "", "b"]));
    assert_eq!(parse_scope(" a "), strings(&["", "a", ""]));
}

#[test]
fn a_full_scope_names_type_name_and_actions() {
    let entry = scope_access("repository:alice/app:pull,push");
    assert_eq!(entry.resource_type, "repository");
    assert_eq!(entry.name, "alice/app");
    assert_eq!(entry.actions, strings(&["pull", "push"]));
}

#[test]
fn a_malformed_scope_degrades_to_pulling_a_repository() {
    let entry = scope_access("pull");
    assert_eq!(entry.resource_type, "repository");
    assert_eq!(entry.name, "pull");
    assert_eq!(entry.actions, strings(&["pull"]));
    let two = scope_access("repository:app");
    assert_eq!(two.resource_type, "repository");
    assert_eq!(two.name, "repository:app");
    assert_eq!(two.actions, strings(&["pull"]));
}

#[test]
fn a_scope_of_more_than_three_parts_degrades_too() {
    let entry = scope_access("repository:host:5000/app:pull");
    assert_eq!(entry.resource_type, "repository");
    assert_eq!(entry.name, "repository:host:5000/app:pull");
    assert_eq!(entry.actions, strings(&["pull"]));
}

#[test]
fn a_scope_with_empty_parts_is_still_a_full_scope() {
    let entry = scope_access("::");
    assert_eq!(entry.resource_type, "");
    assert_eq!(entry.name, "");
    assert_eq!(entry.actions, strings(&[""]));
    let star = scope_access("registry:catalog:*");
    assert_eq!(star.resource_type, "registry");
    assert_eq!(star.name, "catalog");
    assert_eq!(star.actions, strings(&["*"]));
}

#[test]
fn a_bearer_challenge_is_parsed() {
    let challenge = parse_www_authenticate(
        "Bearer realm=\"https://auth.docker.io/token\",service=\"registry.docker.io\",scope=\"repository:library/nginx:pull\"",
    )
    .unwrap();
    assert_eq!(challenge.realm, "https://auth.docker.io/token");
    assert_eq!(challenge.service, "registry.docker.io");
    assert_eq!(challenge.scope, Some("repository:library/nginx:pull".to_string()));
}

#[test]
fn a_challenge_without_scope_has_none() {
    let challenge =
        parse_www_authenticate("Bearer realm=\"https://ghcr.io/token\",service=\"ghcr.io\"").unwrap();
    assert_eq!(challenge.realm, "https://ghcr.io/token");
    assert_eq!(challenge.service, "ghcr.io");
    assert_eq!(challenge.scope, None);
}

#[test]
fn a_challenge_needs_realm_and_service() {
    assert!(parse_www_authenticate("Bearer realm=\"https://ghcr.io/token\"").is_none());
    assert!(parse_www_authenticate("Bearer service=\"ghcr.io\"").is_none());
    assert!(parse_www_authenticate("Bearer scope=\"repository:a:pull\"").is_none());
    assert!(parse_www_authenticate("Bearer ").is_none());
}

#[test]
fn a_challenge_needs_the_bearer_prefix() {
    assert!(parse_www_authenticate("Basic realm=\"x\",service=\"y\"").is_none());
    assert!(parse_www_authenticate("bearer realm=\"x\",service=\"y\"").is_none());
    assert!(parse_www_authenticate("Bearer").is_none());
    assert!(parse_www_authenticate("realm=\"x\",service=\"y\"").is_none());
    assert!(parse_www_authenticate("").is_none());
}

#[test]
fn challenge_parameters_are_trimmed_and_unquoted() {
    let challenge =
        parse_www_authenticate("Bearer   realm = \"r\" ,\tservice=s , scope = \" a b \" ").unwrap();
    assert_eq!(challenge.realm, "r");
    assert_eq!(challenge.service, "s");
    assert_eq!(challenge.scope, Some(" a b ".to_string()));
}

#[test]
fn of_a_repeated_parameter_the_last_counts() {
    let challenge = parse_www_authenticate("Bearer realm=a,service=s,realm=b").unwrap();
    assert_eq!(challenge.realm, "b");
}

#[test]
fn a_quoted_scope_keeps_its_comma_separated_actions() {
    let challenge = parse_www_authenticate(
        "Bearer realm=\"https://a.example/token\",service=\"s\",scope=\"repository:a/b:pull,push\"",
    )
    .unwrap();
    assert_eq!(challenge.realm, "https://a.example/token");
    assert_eq!(challenge.service, "s");
    assert_eq!(challenge.scope, Some("repository:a/b:pull,push".to_string()));
}

#[test]
fn a_quoted_value_may_hold_commas_and_equal_signs() {
    let challenge = parse_www_authenticate(
        "Bearer realm=\"https://x/token?a=b,c=d\",service=\"s,t\",scope=\"repository:a:pull,push\"",
    )
    .unwrap();
    assert_eq!(challenge.realm, "https://x/token?a=b,c=d");
    assert_eq!(challenge.service, "s,t");
    assert_eq!(challenge.scope, Some("repository:a:pull,push".to_string()));
}

#[test]
fn an_unquoted_value_ends_at_the_next_comma() {
    let challenge =
        parse_www_authenticate("Bearer realm=r,service=s,scope=repository:a:pull,push").unwrap();
    assert_eq!(challenge.scope, Some("repository:a:pull".to_string()));
}

#[test]
fn every_surrounding_quote_is_taken_off_a_value() {
    let challenge =
        parse_www_authenticate("Bearer realm=\"r\"x,service=\"\",scope=\"a\"b\"c,d\"").unwrap();
    assert_eq!(challenge.realm, "r\"x");
    assert_eq!(challenge.service, "");
    assert_eq!(challenge.scope, Some("a\"b\"c,d".to_string()));
    let doubled = parse_www_authenticate("Bearer realm=\"\"x\"\",service=s").unwrap();
    assert_eq!(doubled.realm, "x");
}

#[test]
fn a_trailing_quote_without_opening_one_is_taken_off() {
    let challenge = parse_www_authenticate("Bearer service=s,realm=a\"").unwrap();
    assert_eq!(challenge.realm, "a");
    assert_eq!(challenge.service, "s");
    assert_eq!(challenge.scope, None);
}

#[test]
fn a_quote_that_is_never_closed_encloses_nothing() {
    let challenge = parse_www_authenticate("Bearer service=s,realm=\"r,scope=x").unwrap();
    assert_eq!(challenge.realm, "r");
    assert_eq!(challenge.service, "s");
    assert_eq!(challenge.scope, Some("x".to_string()));
    let later = parse_www_authenticate("Bearer realm=\"a,b\",service=\"s,scope=y").unwrap();
    assert_eq!(later.realm, "a,b");
    assert_eq!(later.service, "s");
    assert_eq!(later.scope, Some("y".to_string()));
}

#[test]
fn unknown_parameters_and_parameters_without_value_are_skipped() {
    let challenge =
        parse_www_authenticate("Bearer error=\"invalid_token\",realm=r,flag,service=s,=x").unwrap();
    assert_eq!(challenge.realm, "r");
    assert_eq!(challenge.service, "s");
    assert_eq!(challenge.scope, None);
}

#[test]
fn a_scope_with_a_dotted_first_segment_names_a_registry() {
    assert_eq!(
        extract_registry_from_scope("repository:ghcr.io/user/app:pull"),
        Some("ghcr.io".to_string())
    );
    assert_eq!(
        extract_registry_from_scope("repository:quay.io/coreos/etcd:pull,push"),
        Some("quay.io".to_string())
    );
    assert_eq!(extract_registry_from_scope("repository:a.b/"), Some("a.b".to_string()));
}

#[test]
fn other_scopes_name_no_registry() {
    assert_eq!(extract_registry_from_scope("repository:user/app:pull"), None);
    assert_eq!(extract_registry_from_scope("repository:ghcr.io:pull"), None);
    assert_eq!(extract_registry_from_scope("repository:app"), None);
    assert_eq!(extract_registry_from_scope("registry:ghcr.io/x:pull"), None);
    assert_eq!(extract_registry_from_scope("Repository:ghcr.io/x:pull"), None);
    assert_eq!(extract_registry_from_scope("repository:user/app.v2:pull"), None);
    assert_eq!(extract_registry_from_scope(""), None);
    assert_eq!(extract_registry_from_scope("repository:"), None);
}

fn text(s: &str) -> Vec<char> {
    s.chars().collect()
}

fn pieces(s: &str) -> Vec<String> {
    docxy::auth_utils::challenge::split_challenge(&text(s))
        .iter()
        .map(|piece| piece.iter().collect())
        .collect()
}

#[test]
fn parameters_are_split_at_commas_outside_quotes() {
    assert_eq!(pieces("a=1,b=2"), strings(&["a=1", "b=2"]));
    assert_eq!(pieces("a=\"1,2\",b=3"), strings(&["a=\"1,2\"", "b=3"]));
    assert_eq!(pieces(""), strings(&[""]));
    assert_eq!(pieces(","), strings(&["", ""]));
    assert_eq!(pieces("\",\""), strings(&["\",\""]));
    assert_eq!(pieces("\"a,b"), strings(&["\"a", "b"]));
    assert_eq!(pieces("a=\"1,2\",b=\"3,c=4"), strings(&["a=\"1,2\"", "b=\"3", "c=4"]));
    assert_eq!(pieces("a\",b"), strings(&["a\"", "b"]));
    assert_eq!(pieces("a\"\",b"), strings(&["a\"\"", "b"]));
    assert_eq!(pieces("x,\"y,z\",w,"), strings(&["x", "\"y,z\"", "w", ""]));
}

#[test]
fn the_separator_is_the_first_comma_outside_quotes() {
    use_find_separator("a,b", 0, 1);
    use_find_separator("a,b", 2, 3);
    use_find_separator("\"a,b\",c", 0, 5);
    use_find_separator("\"a,b\",c", 1, 2);
    use_find_separator("abc", 0, 3);
    use_find_separator("", 0, 0);
    use_find_separator("\"a,b", 0, 2);
    use_find_separator("\"a\"\"b,c", 0, 5);
    use_find_separator("\"a\"\"b,c\",d", 0, 8);
}

fn use_find_separator(s: &str, from: usize, expected: usize) {
    assert_eq!(docxy::auth_utils::challenge::find_separator(&text(s), from), expected);
}

#[test]
fn a_value_is_its_text_without_surrounding_quotes() {
    let value = |s: &str| -> String {
        docxy::auth_utils::challenge::read_parameter_value(&text(s)).iter().collect()
    };
    assert_eq!(value("\"abc\""), "abc");
    assert_eq!(value("\"a,b\""), "a,b");
    assert_eq!(value("abc"), "abc");
    assert_eq!(value("\"abc"), "abc");
    assert_eq!(value("abc\""), "abc");
    assert_eq!(value("\"\""), "");
    assert_eq!(value("\""), "");
    assert_eq!(value(""), "");
    assert_eq!(value("\"a\"b"), "a\"b");
    assert_eq!(value("a\"b\""), "a\"b");
    assert_eq!(value("\"\"x\"\""), "x");
    assert_eq!(value("\" x \""), " x ");
    for sample in ["\"r\"x", "a\"", "\"\"x\"\"", "\"", "x", "\"a\"b\"c,d\""] {
        assert_eq!(value(sample), sample.trim_matches('"'));
    }
}
