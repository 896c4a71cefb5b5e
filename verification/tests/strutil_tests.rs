use bubblehearth::http::reqwest::InternalHttpClientBuilder;
use bubblehearth::regionality::AccountRegion;
use bubblehearth::strutil::{str_eq, u32_string};

#[test]
fn renders_decimal_numbers() {
    assert_eq!(u32_string(0), "0");
    assert_eq!(u32_string(7), "7");
    assert_eq!(u32_string(41), "41");
    assert_eq!(u32_string(420), "420");
    assert_eq!(u32_string(u32::MAX), "4294967295");
}

#[test]
fn compares_strings_by_value() {
    assert!(str_eq("en_US", "en_US"));
    assert!(!str_eq("en_US", "en_GB"));
    assert!(!str_eq("en_US", "en_USA"));
    assert!(str_eq("", ""));
}

#[test]
fn internal_http_builder_carries_timeout_and_region() {
    let builder = InternalHttpClientBuilder::new()
        .timeout(30)
        .region(AccountRegion::KR);
    assert_eq!(builder.timeout, Some(30));
    assert_eq!(builder.regionality, AccountRegion::KR);
    assert_eq!(builder.client.timeout_seconds, 5);
}
