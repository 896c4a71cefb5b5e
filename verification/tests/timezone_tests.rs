use bubblehearth::timezone::Timezone;

fn timezone_field(data: &str) -> serde_json::Value {
    let parsed: serde_json::Value = serde_json::from_str(data).expect("test data must parse");
    parsed
        .get("timezone")
        .expect("test data must carry a timezone field")
        .clone()
}

#[test]
fn returns_timezone_when_match_found() {
    // Arrange
    let data = r#"
        {
            "timezone": "America/Los_Angeles"
        }
        "#;

    // Act
    let timezone = Timezone::decode_value(&timezone_field(data)).unwrap();

    // Assert
    assert_eq!(timezone, Timezone::AmericaLosAngeles);
}

#[test]
fn returns_timezone_unknown_when_no_match_found() {
    // Arrange
    let data = r#"
        {
            "timezone": "Unrecognized_timezone"
        }
        "#;

    // Act
    let timezone = Timezone::decode_value(&timezone_field(data)).unwrap();

    // Assert
    assert_eq!(timezone, Timezone::Unknown);
}

#[test]
fn round_trips_timezone_names() {
    assert_eq!(Timezone::AmericaLosAngeles.zone_name(), "America/Los_Angeles");
    assert_eq!(Timezone::AmericaNewYork.zone_name(), "America/New_York");
    assert_eq!(Timezone::Unknown.zone_name(), "Unknown");
    assert_eq!(
        Timezone::from_name("America/New_York"),
        Timezone::AmericaNewYork
    );
    assert_eq!(Timezone::from_name("utterly wrong"), Timezone::Unknown);
}

#[test]
fn rejects_non_string_timezone_kinds() {
    let value: serde_json::Value = serde_json::from_str("42").unwrap();
    let decoded = Timezone::decode_value(&value);
    assert!(matches!(
        decoded,
        Err(bubblehearth::errors::BubbleHearthError::DecodeFailure(field)) if field == "timezone"
    ));
}
