use bubblehearth::builder::{BubbleHearthClientBuilder, BubbleHearthClientOptions};
use bubblehearth::client::BubbleHearthClient;
use bubblehearth::errors::BubbleHearthError;
use bubblehearth::http::reqwest::InternalHttpClient;
use bubblehearth::localization::Locale;
use bubblehearth::regionality::AccountRegion;

fn full_options() -> BubbleHearthClientOptions {
    BubbleHearthClientOptions {
        client_id: Some("client-id".to_string()),
        client_secret: Some("client-secret".to_string()),
        region: Some(AccountRegion::EU),
        locale: Some(Locale::German),
        timeout: None,
        http: None,
    }
}

#[test]
fn detects_missing_required_options() {
    let mut options = full_options();
    assert!(options.has_required_options());
    options.locale = None;
    assert!(!options.has_required_options());
    options.locale = Some(Locale::German);
    options.client_secret = None;
    assert!(!options.has_required_options());
}

#[test]
fn builds_a_client_from_complete_options() {
    let client = BubbleHearthClient::new_with_options(full_options()).unwrap();
    assert_eq!(client.region, AccountRegion::EU);
    assert_eq!(client.locale, Locale::German);
    assert_eq!(client.timeout_seconds, 5);
    assert_eq!(client.auth.client_id, "client-id");
    assert_eq!(client.auth.client_secret, "client-secret");
}

#[test]
fn rejects_incomplete_options() {
    let mut options = full_options();
    options.region = None;
    let client = BubbleHearthClient::new_with_options(options);
    assert!(matches!(
        client,
        Err(BubbleHearthError::InvalidClientOptions)
    ));
}

#[test]
fn prefers_a_preconfigured_http_client_over_a_timeout() {
    let mut options = full_options();
    options.timeout = Some(30);
    let with_timeout = BubbleHearthClient::new_with_options(options).unwrap();
    assert_eq!(with_timeout.timeout_seconds, 30);

    let mut options = full_options();
    options.timeout = Some(30);
    options.http = Some(InternalHttpClient {
        timeout_seconds: 90,
        regionality: AccountRegion::EU,
    });
    let with_http = BubbleHearthClient::new_with_options(options).unwrap();
    assert_eq!(with_http.timeout_seconds, 90);
}

#[test]
fn builder_accumulates_options_across_steps() {
    let client = BubbleHearthClientBuilder::new()
        .with_client_id("client-id".to_string())
        .with_client_secret("client-secret".to_string())
        .with_region(AccountRegion::TW)
        .with_locale(Locale::ChineseTW)
        .with_timeout(12)
        .build()
        .unwrap();
    assert_eq!(client.region, AccountRegion::TW);
    assert_eq!(client.locale, Locale::ChineseTW);
    assert_eq!(client.timeout_seconds, 12);
    assert_eq!(client.auth.client_id, "client-id");
}

#[test]
fn builder_honors_a_preconfigured_http_client() {
    let client = BubbleHearthClientBuilder::new()
        .with_client_id("id".to_string())
        .with_client_secret("secret".to_string())
        .with_region(AccountRegion::US)
        .with_locale(Locale::EnglishUS)
        .with_http(InternalHttpClient::new(AccountRegion::US))
        .build()
        .unwrap();
    assert_eq!(client.timeout_seconds, 5);
}

#[test]
fn empty_builder_cannot_build() {
    let built = BubbleHearthClientBuilder::new().build();
    assert!(matches!(
        built,
        Err(BubbleHearthError::InvalidClientOptions)
    ));
}

#[test]
fn partially_configured_builder_reports_the_missing_field() {
    let built = BubbleHearthClientBuilder::new()
        .with_client_id("id".to_string())
        .build();
    assert!(matches!(
        built,
        Err(BubbleHearthError::InvalidClientOptionField)
    ));
}
