use c2m_client::cache::TokenCache;
use c2m_client::client::{C2MClient, LONG_TOKEN_TTL_SECONDS};
use c2m_client::expiry::{parse_rfc3339_secs, REFRESH_BUFFER_SECS};
use c2m_client::flow::{is_auth_failure, is_success, AuthStep, TokenBody};

// 2099-01-01T00:00:00Z, in seconds since the Unix epoch.
const EXP_2099: i64 = 4070908800;

#[test]
fn rfc3339_parsing_matches_known_instants() {
    assert_eq!(parse_rfc3339_secs("1970-01-01T00:00:00Z"), Some(0));
    assert_eq!(parse_rfc3339_secs("2099-01-01T00:00:00Z"), Some(EXP_2099));
    // The offset is part of the instant: 16:39:57 at -08:00 is 00:39:57 UTC.
    assert_eq!(parse_rfc3339_secs("1996-12-19T16:39:57-08:00"), Some(851042397));
    assert_eq!(parse_rfc3339_secs(""), None);
    assert_eq!(parse_rfc3339_secs("2099-01-01"), None);
    assert_eq!(parse_rfc3339_secs("yesterday"), None);
}

#[test]
fn refresh_buffer_boundary_is_exact() {
    // The stored expiry drives the refresh decision to the second: a token
    // expiring at EXP_2099 is fresh 61 seconds before expiry and stale 60
    // seconds before it.
    let mut c = C2MClient::new("id".to_string(), "secret".to_string());
    let step = c.on_short_token_response(
        200,
        Some(TokenBody {
            access_token: "ST1".to_string(),
            token_id: "st-1".to_string(),
            expires_at: "2099-01-01T00:00:00Z".to_string(),
        }),
    );
    assert!(matches!(step, AuthStep::Ready { .. }));

    assert_eq!(REFRESH_BUFFER_SECS, 60);
    assert!(!c.cache.needs_refresh(EXP_2099 - 61));
    assert!(c.cache.needs_refresh(EXP_2099 - 60));
    assert!(c.cache.needs_refresh(EXP_2099));
}

#[test]
fn empty_cache_always_needs_refresh() {
    let cache = TokenCache::new();
    assert!(cache.needs_refresh(0));
    assert!(cache.needs_refresh(i64::MAX));
    assert!(cache.needs_refresh(i64::MIN));
}

#[test]
fn refresh_near_the_top_of_the_range_saturates() {
    let mut cache = TokenCache::new();
    cache.set_short("ST".to_string(), i64::MAX);
    assert!(cache.needs_refresh(i64::MAX - 10));
    assert!(!cache.needs_refresh(0));
}

#[test]
fn constructors_set_identity_and_empty_cache() {
    let c = C2MClient::new("id".to_string(), "secret".to_string());
    assert_eq!(c.client_id, "id");
    assert_eq!(c.client_secret, "secret");
    assert_eq!(c.base_url, "https://api.c2m.com/v2");
    assert!(c.cache.long_token.is_none());
    assert!(c.cache.short_token.is_none());

    let c = C2MClient::with_base_url(
        "id".to_string(),
        "secret".to_string(),
        "https://staging.example.com/v2".to_string(),
    );
    assert_eq!(c.base_url, "https://staging.example.com/v2");
}

#[test]
fn endpoint_urls_join_base_and_path() {
    let c = C2MClient::with_base_url(
        "id".to_string(),
        "secret".to_string(),
        "https://api.example.com/v2".to_string(),
    );
    assert_eq!(c.long_token_url(), "https://api.example.com/v2/auth/tokens/long");
    assert_eq!(c.short_token_url(), "https://api.example.com/v2/auth/tokens/short");
    assert_eq!(
        c.submit_url(),
        "https://api.example.com/v2/jobs/submit-single-doc-with-template"
    );
}

#[test]
fn long_token_request_has_fixed_scopes_and_ttl() {
    let c = C2MClient::new("my-id".to_string(), "my-secret".to_string());
    let r = c.long_token_request();
    assert_eq!(r.grant_type, "client_credentials");
    assert_eq!(r.client_id, "my-id");
    assert_eq!(r.client_secret, "my-secret");
    assert_eq!(r.scopes, vec!["jobs:submit", "jobs:read", "templates:read"]);
    assert_eq!(r.ttl_seconds, 2_592_000);
    assert_eq!(LONG_TOKEN_TTL_SECONDS, 2_592_000);
}

#[test]
fn short_token_request_has_the_single_scope() {
    let c = C2MClient::new("id".to_string(), "secret".to_string());
    let r = c.short_token_request();
    assert_eq!(r.scopes, vec!["jobs:submit"]);
}

#[test]
fn status_classification() {
    assert!(is_success(200));
    assert!(is_success(201));
    assert!(is_success(299));
    assert!(!is_success(199));
    assert!(!is_success(300));
    assert!(!is_success(401));
    assert!(is_auth_failure(401));
    assert!(is_auth_failure(403));
    assert!(!is_auth_failure(402));
    assert!(!is_auth_failure(500));
}

#[test]
fn cache_pair_is_set_and_cleared_together() {
    let mut cache = TokenCache::new();
    cache.set_short("ST".to_string(), 100);
    let entry = cache.short_token.as_ref().unwrap();
    assert_eq!(entry.value, "ST");
    assert_eq!(entry.expires_at, 100);
    cache.set_long("LT".to_string());
    cache.clear_short();
    assert!(cache.short_token.is_none());
    // Invalidating the short token never touches the long one.
    assert_eq!(cache.long_token, Some("LT".to_string()));
}

#[test]
fn stale_short_token_triggers_exactly_one_refresh() {
    let mut c = C2MClient::new("id".to_string(), "secret".to_string());
    c.cache.set_long("LT1".to_string());
    c.cache.set_short("ST1".to_string(), 1000);

    // 60 seconds before expiry the token counts as stale: one short-token
    // acquisition starts, through the cached long token.
    match c.ensure_authenticated(940) {
        AuthStep::FetchShort { long_token } => assert_eq!(long_token, "LT1"),
        _ => panic!("a refresh was due at the buffer boundary"),
    }
    // 61 seconds before expiry the cached value is returned unchanged.
    match c.ensure_authenticated(939) {
        AuthStep::Ready { token } => assert_eq!(token, "ST1"),
        _ => panic!("expected the cached token with no network call"),
    }
}
