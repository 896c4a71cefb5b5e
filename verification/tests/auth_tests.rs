use bubblehearth::auth::{
    parse_token_response, AccessToken, AuthenticationContext, TokenCache,
};
use bubblehearth::errors::BubbleHearthError;
use bubblehearth::regionality::AccountRegion;

const GOOD_BODY: &str =
    r#"{"access_token":"abc123","token_type":"bearer","expires_in":86400,"sub":"client-id"}"#;

fn test_context() -> AuthenticationContext {
    AuthenticationContext::new(
        AccountRegion::US,
        "client-id".to_string(),
        "client-secret".to_string(),
    )
}

#[test]
fn parses_a_well_formed_token_response() {
    let response = parse_token_response(GOOD_BODY).unwrap();
    assert_eq!(response.access_token, "abc123");
    assert_eq!(response.token_type, "bearer");
    assert_eq!(response.expires_in, 86400);
    assert_eq!(response.sub, "client-id");
    assert_eq!(response.scope, None);
}

#[test]
fn parses_an_optional_scope() {
    let body = r#"{"access_token":"abc","token_type":"bearer","expires_in":60,"sub":"s","scope":"wow.profile"}"#;
    let response = parse_token_response(body).unwrap();
    assert_eq!(response.scope, Some("wow.profile".to_string()));
}

#[test]
fn rejects_malformed_token_response_bodies() {
    let missing_field = r#"{"access_token":"abc","token_type":"bearer","sub":"s"}"#;
    let wrong_kind = r#"{"access_token":7,"token_type":"bearer","expires_in":60,"sub":"s"}"#;
    for body in ["not json at all", "[]", missing_field, wrong_kind] {
        assert_eq!(
            parse_token_response(body),
            Err(BubbleHearthError::AuthFailure)
        );
    }
}

#[test]
fn builds_the_exchange_request_from_credentials_and_region() {
    let request = test_context().token_request();
    assert_eq!(request.endpoint, "https://oauth.battle.net/token");
    assert_eq!(request.client_id, "client-id");
    assert_eq!(request.client_secret, "client-secret");
    assert_eq!(request.grant_type, "client_credentials");
}

#[test]
fn returns_cached_access_token_when_multiple_calls_outgoing() {
    let context = test_context();
    let acquired_at: i64 = 1_000;
    let token = context
        .apply_token_response(Some(200), GOOD_BODY, acquired_at)
        .unwrap();

    // Two sequential lookups within the token's lifetime reuse the identical
    // token string; neither triggers a refresh.
    let first = context.try_access_token_at(acquired_at + 10).unwrap();
    let second = context.try_access_token_at(acquired_at + 20).unwrap();
    assert_eq!(first, Some(token.clone()));
    assert_eq!(second, Some(token));
    assert!(!context.try_refresh_required_at(acquired_at + 20).unwrap());
}

#[test]
fn expired_token_triggers_exactly_one_refresh() {
    let context = test_context();
    let short_lived =
        r#"{"access_token":"stale","token_type":"bearer","expires_in":10,"sub":"s"}"#;
    context.apply_token_response(Some(200), short_lived, 1_000).unwrap();

    // The expiry has passed: the lookup yields the refresh trigger, not an
    // error and not the stale token.
    let later: i64 = 5_000;
    assert_eq!(context.try_access_token_at(later).unwrap(), None);
    assert!(context.try_refresh_required_at(later).unwrap());

    // One exchange refreshes the cache with the fresh token.
    let fresh = r#"{"access_token":"fresh","token_type":"bearer","expires_in":60,"sub":"s"}"#;
    let token = context.apply_token_response(Some(200), fresh, later).unwrap();
    assert_eq!(token, "fresh");
    let cached = context.current_token().unwrap();
    assert_eq!(cached.token, "fresh");
    assert_eq!(cached.expires_at, later + 60);
    assert_eq!(context.try_access_token_at(later + 1).unwrap(), Some("fresh".to_string()));
}

#[test]
fn empty_cache_reports_token_not_found() {
    let context = test_context();
    assert_eq!(
        context.try_access_token_at(0),
        Err(BubbleHearthError::AccessTokenNotFound)
    );
    assert!(context.try_refresh_required_at(0).unwrap());
}

#[test]
fn returns_error_when_credentials_invalid() {
    let context = test_context();
    let rejection = r#"{"error":"unauthorized"}"#;
    let token = context.apply_token_response(Some(401), rejection, 1_000);
    assert_eq!(token, Err(BubbleHearthError::AuthFailure));
    // A failed exchange caches nothing.
    assert_eq!(context.current_token(), None);
    assert_eq!(
        context.try_access_token_at(1_001),
        Err(BubbleHearthError::AccessTokenNotFound)
    );
}

#[test]
fn transport_failures_surface_as_auth_failures() {
    let context = test_context();
    assert_eq!(
        context.apply_token_response(None, "", 0),
        Err(BubbleHearthError::AuthFailure)
    );
    assert_eq!(context.current_token(), None);
}

#[test]
fn racing_refreshes_leave_one_valid_token() {
    let cache = TokenCache::new();
    let count: i64 = 16;
    for i in 0..count {
        cache.store(AccessToken {
            token: format!("token-{i}"),
            expires_at: 1_000 + i,
        });
    }
    // The serialized stores end with the cache holding exactly the
    // last-written token, intact.
    let last = cache.snapshot().unwrap();
    assert_eq!(last.token, format!("token-{}", count - 1));
    assert_eq!(last.expires_at, 1_000 + count - 1);
    assert_eq!(cache.try_current(last.expires_at - 1).unwrap(), Some(last.token));
}

#[test]
fn expiry_saturates_instead_of_overflowing() {
    let context = test_context();
    let enormous = format!(
        r#"{{"access_token":"big","token_type":"bearer","expires_in":{},"sub":"s"}}"#,
        u64::MAX
    );
    context
        .apply_token_response(Some(200), enormous.as_str(), 1_000)
        .unwrap();
    assert_eq!(context.current_token().unwrap().expires_at, i64::MAX);
}
