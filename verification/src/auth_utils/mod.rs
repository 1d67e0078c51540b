//! Credentials, tokens and the negotiation with upstream registries.

pub mod basic;
pub mod broker;
pub mod challenge;
pub mod token;
pub mod vault;

pub use basic::{
    basic_auth_header, basic_credentials, create_basic_auth, credentials_from_bytes,
    parse_basic_auth, split_credentials,
};
pub use broker::{
    after_challenge, after_probe, after_token, authenticate_registry,
    detect_registry_api_version, get_registry_v2_token, handle_registry_auth,
    token_answer_is_parsed, token_request_url, version_probe_url, AuthStep, AuthStepView,
    BrokerEvent, BrokerPhase, Negotiation, RegistryAuthResult, RegistryAuthResultView,
    RegistryTokenResponse, TokenReply, UpstreamResponse,
};
pub use challenge::{parse_www_authenticate, AuthChallenge, AuthChallengeView};
pub use token::{
    generate_docker_token, issue_docker_token, issue_token_at, join_parts, parse_scope,
    scope_access, write_access, write_access_object, write_claims, write_claims_object,
    write_json_array, write_token_seal, AccessEntry, AccessEntryView, TokenResponse,
    TokenResponseView, TOKEN_LIFETIME,
};
pub use vault::{get_registry_credentials, registry_credentials_of, user_verified, verify_user};
