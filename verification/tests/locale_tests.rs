use bubblehearth::errors::BubbleHearthError;
use bubblehearth::localization::{
    decode_locale_value, Locale, StringOrStructLocale, StructuredLocale,
};

const ALL_CODES: [(&str, Locale); 12] = [
    ("en_US", Locale::EnglishUS),
    ("en_GB", Locale::EnglishGB),
    ("es_MX", Locale::SpanishMX),
    ("es_ES", Locale::SpanishES),
    ("pt_BR", Locale::Portuguese),
    ("de_DE", Locale::German),
    ("fr_FR", Locale::French),
    ("it_IT", Locale::Italian),
    ("ru_RU", Locale::Russian),
    ("ko_KR", Locale::Korean),
    ("zh_TW", Locale::ChineseTW),
    ("zh_CN", Locale::ChineseCN),
];

#[test]
fn maps_each_locale_to_its_code() {
    for (code, locale) in ALL_CODES {
        assert_eq!(locale.get_locale(), code);
    }
}

#[test]
fn parses_each_code_back_to_its_locale() {
    for (code, locale) in ALL_CODES {
        assert_eq!(Locale::from_str(code).unwrap(), locale);
    }
}

#[test]
fn rejects_unknown_locale_codes() {
    let parsed = Locale::from_str("xx_XX");
    assert!(matches!(
        parsed,
        Err(BubbleHearthError::LocaleUnknown(code)) if code == "xx_XX"
    ));
}

#[test]
fn decodes_a_plain_string_locale() {
    let value: serde_json::Value = serde_json::from_str(r#""Atiesh""#).unwrap();
    let decoded = decode_locale_value(&value).unwrap();
    assert_eq!(
        decoded,
        StringOrStructLocale::StringLocale("Atiesh".to_string())
    );
}

#[test]
fn decodes_a_full_per_locale_object() {
    let data = r#"
        {
            "en_US": "Atiesh",
            "es_MX": "Atiesh",
            "pt_BR": "Atiesh",
            "de_DE": "Atiesh",
            "en_GB": "Atiesh",
            "es_ES": "Atiesh",
            "fr_FR": "Atiesh",
            "it_IT": "Atiesh",
            "ru_RU": "Atiesh",
            "ko_KR": "Atiesh",
            "zh_TW": "阿泰絲",
            "zh_CN": "埃提耶什"
        }
        "#;
    let value: serde_json::Value = serde_json::from_str(data).unwrap();
    let decoded = decode_locale_value(&value).unwrap();
    let expected = StructuredLocale {
        en_us: "Atiesh".to_string(),
        en_gb: "Atiesh".to_string(),
        es_mx: "Atiesh".to_string(),
        es_es: "Atiesh".to_string(),
        pt_br: "Atiesh".to_string(),
        de_de: "Atiesh".to_string(),
        fr_fr: "Atiesh".to_string(),
        it_it: "Atiesh".to_string(),
        ru_ru: "Atiesh".to_string(),
        ko_kr: "Atiesh".to_string(),
        zh_tw: "阿泰絲".to_string(),
        zh_cn: "埃提耶什".to_string(),
    };
    assert_eq!(
        decoded,
        StringOrStructLocale::StructLocale(Box::new(expected))
    );
}

#[test]
fn rejects_other_json_kinds_as_unexpected_shapes() {
    for data in ["42", "[]", "true", "null"] {
        let value: serde_json::Value = serde_json::from_str(data).unwrap();
        let decoded = decode_locale_value(&value);
        assert_eq!(decoded, Err(BubbleHearthError::UnexpectedLocaleShape));
    }
}

#[test]
fn rejects_an_object_with_an_unknown_key() {
    let data = r#"{ "en_US": "Atiesh", "tlh_KX": "ghIlab ghewmey" }"#;
    let value: serde_json::Value = serde_json::from_str(data).unwrap();
    let decoded = decode_locale_value(&value);
    assert!(matches!(
        decoded,
        Err(BubbleHearthError::LocaleUnknown(key)) if key == "tlh_KX"
    ));
}

#[test]
fn rejects_an_object_with_a_non_string_value() {
    let data = r#"{ "en_US": 7 }"#;
    let value: serde_json::Value = serde_json::from_str(data).unwrap();
    let decoded = decode_locale_value(&value);
    assert!(matches!(
        decoded,
        Err(BubbleHearthError::DecodeFailure(key)) if key == "en_US"
    ));
}

#[test]
fn rejects_an_object_missing_a_supported_code() {
    let data = r#"{ "en_US": "Atiesh" }"#;
    let value: serde_json::Value = serde_json::from_str(data).unwrap();
    let decoded = decode_locale_value(&value);
    assert!(matches!(
        decoded,
        Err(BubbleHearthError::DecodeFailure(key)) if key == "en_GB"
    ));
}
