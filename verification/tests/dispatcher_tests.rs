use bubblehearth::auth::{now_unix_seconds, AuthenticationContext};
use bubblehearth::classic::client::WorldOfWarcraftClassicClient;
use bubblehearth::client::{classify_response, BubbleHearthClient, ResponseDisposition};
use bubblehearth::errors::BubbleHearthError;
use bubblehearth::localization::Locale;
use bubblehearth::regionality::AccountRegion;
use bubblehearth::timezone::Timezone;

fn test_client() -> BubbleHearthClient {
    BubbleHearthClient::new(
        "client-id".to_string(),
        "client-secret".to_string(),
        AccountRegion::US,
        Locale::EnglishUS,
    )
}

#[test]
fn simulated_not_found_is_absent_only_for_optional_requests() {
    // An optional lookup treats a missing resource as an expected absence.
    assert_eq!(classify_response(404, true), ResponseDisposition::Absent);
    // A non-optional lookup surfaces the same status as a request failure.
    assert_eq!(classify_response(404, false), ResponseDisposition::Failure(404));
}

#[test]
fn classifies_success_and_failure_statuses() {
    assert_eq!(classify_response(200, false), ResponseDisposition::Deserialize);
    assert_eq!(classify_response(299, true), ResponseDisposition::Deserialize);
    assert_eq!(classify_response(400, true), ResponseDisposition::Failure(400));
    assert_eq!(classify_response(500, false), ResponseDisposition::Failure(500));
    // Transport-level failures are conventionally handed in as status 0.
    assert_eq!(classify_response(0, true), ResponseDisposition::Failure(0));
}

#[test]
fn composes_the_namespace_from_the_region() {
    assert_eq!(test_client().get_namespace_locality(), "dynamic-classic-us");
    let kr = BubbleHearthClient::new(
        "id".to_string(),
        "secret".to_string(),
        AccountRegion::KR,
        Locale::Korean,
    );
    assert_eq!(kr.get_namespace_locality(), "dynamic-classic-kr");
}

#[test]
fn composes_realm_urls() {
    let client = test_client();
    let classic = client.classic();
    assert_eq!(
        classic.realms_index_url(),
        "https://us.api.blizzard.com/data/wow/realm/index?locale=en_US"
    );
    assert_eq!(
        classic.realm_url("atiesh".to_string()),
        "https://us.api.blizzard.com/data/wow/realm/atiesh?locale=en_US"
    );
}

#[test]
fn composes_realm_search_urls() {
    let client = test_client();
    let classic = client.classic();
    assert_eq!(
        classic.realm_search_url(None, None, None),
        "https://us.api.blizzard.com/data/wow/search/realm?_page=1"
    );
    assert_eq!(
        classic.realm_search_url(Some(Timezone::AmericaLosAngeles), None, Some(12)),
        "https://us.api.blizzard.com/data/wow/search/realm?_page=12&timezone=America/Los_Angeles"
    );
    assert_eq!(
        classic.realm_search_url(
            Some(Timezone::AmericaNewYork),
            Some("name".to_string()),
            Some(3)
        ),
        "https://us.api.blizzard.com/data/wow/search/realm?_page=3&timezone=America/New_York&orderby=name"
    );
}

#[test]
fn composes_region_urls() {
    let client = test_client();
    let classic = client.classic();
    assert_eq!(
        classic.regions_index_url(),
        "https://us.api.blizzard.com/data/wow/region/index?locale=en_US"
    );
    assert_eq!(
        classic.region_url(41),
        "https://us.api.blizzard.com/data/wow/region/41?locale=en_US"
    );
    assert_eq!(
        classic.region_url(4017),
        "https://us.api.blizzard.com/data/wow/region/4017?locale=en_US"
    );
}

#[test]
fn composes_the_cards_search_url() {
    let client = test_client();
    assert_eq!(
        client.hearthstone().cards_search_url(),
        "https://us.api.blizzard.com/hearthstone/cards?locale=en_US"
    );
    // The host follows the configured region, like every resource host.
    let eu = BubbleHearthClient::new(
        "id".to_string(),
        "secret".to_string(),
        AccountRegion::EU,
        Locale::French,
    );
    assert_eq!(
        eu.hearthstone().cards_search_url(),
        "https://eu.api.blizzard.com/hearthstone/cards?locale=fr_FR"
    );
}

#[test]
fn prepares_requests_with_namespace_and_bearer() {
    let client = test_client();
    let request = client.prepare_request(
        "https://us.api.blizzard.com/data/wow/realm/index?locale=en_US".to_string(),
        "tok".to_string(),
    );
    assert_eq!(
        request.url,
        "https://us.api.blizzard.com/data/wow/realm/index?locale=en_US"
    );
    assert_eq!(request.namespace, "dynamic-classic-us");
    assert_eq!(request.bearer_token, "tok");
}

#[test]
fn standalone_classic_client_builds_realm_urls() {
    let authentication = AuthenticationContext::new(
        AccountRegion::KR,
        "id".to_string(),
        "secret".to_string(),
    );
    let classic = WorldOfWarcraftClassicClient::new(AccountRegion::KR, authentication);
    assert_eq!(
        classic.realms_index_url(Locale::Korean),
        "https://kr.api.blizzard.com/data/wow/realm/index?locale=ko_KR"
    );
}

#[test]
fn clock_reading_paths_reflect_the_cache() {
    let client = test_client();
    assert_eq!(
        client.get_access_token(),
        Err(BubbleHearthError::AccessTokenNotFound)
    );
    assert_eq!(
        client.try_access_token(),
        Err(BubbleHearthError::AccessTokenNotFound)
    );
    assert!(client.try_refresh_required().unwrap());

    let body =
        r#"{"access_token":"abc","token_type":"bearer","expires_in":86400,"sub":"s"}"#;
    client
        .apply_token_response(Some(200), body, now_unix_seconds())
        .unwrap();
    assert_eq!(client.get_access_token().unwrap(), Some("abc".to_string()));
    assert!(!client.try_refresh_required().unwrap());
}

#[test]
fn routes_the_token_request_by_region() {
    let cn = BubbleHearthClient::new(
        "id".to_string(),
        "secret".to_string(),
        AccountRegion::CN,
        Locale::ChineseCN,
    );
    assert_eq!(
        cn.token_request().endpoint,
        "https://oauth.battlenet.com.cn/token"
    );
    assert_eq!(
        test_client().token_request().endpoint,
        "https://oauth.battle.net/token"
    );
}
