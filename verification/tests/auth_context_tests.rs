use bubblehearth::auth::AccessTokenResponse;
use bubblehearth::auth_context::AuthenticationContext;
use bubblehearth::oauth::scopes::ProfileTokenScope;

fn response(expires_in: u64) -> AccessTokenResponse {
    AccessTokenResponse {
        access_token: "abc123".to_string(),
        token_type: "bearer".to_string(),
        expires_in,
        sub: "client-id".to_string(),
        scope: None,
    }
}

#[test]
fn anchors_the_expiry_at_the_acquisition_instant() {
    let context = AuthenticationContext::new(response(86_400), 1_000);
    assert_eq!(context.access_token, "abc123");
    assert_eq!(context.expires_at, 87_400);
    assert_eq!(context.get_access_token(), "abc123");
}

#[test]
fn requires_refresh_only_once_the_expiry_has_passed() {
    let context = AuthenticationContext::new(response(60), 1_000);
    assert!(!context.refresh_required(1_059));
    assert!(context.refresh_required(1_060));
    assert!(context.refresh_required(2_000));
}

#[test]
fn scope_values_match_their_wire_names() {
    assert_eq!(ProfileTokenScope::WoW.scope_value(), "wow.profile");
    assert_eq!(ProfileTokenScope::Sc2.scope_value(), "sc2.profile");
    assert_eq!(ProfileTokenScope::D3.scope_value(), "d3.profile");
    assert_eq!(ProfileTokenScope::OpenID.scope_value(), "openid");
}
