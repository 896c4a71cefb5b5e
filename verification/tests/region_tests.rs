use bubblehearth::regionality::{
    AccountRegion, CN_TOKEN_ENDPOINT, GLOBAL_TOKEN_ENDPOINT,
};

#[test]
fn resolves_cn_to_the_china_token_endpoint() {
    assert_eq!(
        AccountRegion::CN.get_token_endpoint(),
        "https://oauth.battlenet.com.cn/token"
    );
    assert_eq!(AccountRegion::CN.get_token_endpoint(), CN_TOKEN_ENDPOINT);
}

#[test]
fn resolves_every_global_region_to_the_global_token_endpoint() {
    for region in [
        AccountRegion::US,
        AccountRegion::EU,
        AccountRegion::KR,
        AccountRegion::TW,
    ] {
        assert_eq!(region.get_token_endpoint(), "https://oauth.battle.net/token");
        assert_eq!(region.get_token_endpoint(), GLOBAL_TOKEN_ENDPOINT);
    }
}

#[test]
fn resolves_each_region_prefix() {
    assert_eq!(AccountRegion::CN.get_region_prefix(), "cn");
    assert_eq!(AccountRegion::US.get_region_prefix(), "us");
    assert_eq!(AccountRegion::EU.get_region_prefix(), "eu");
    assert_eq!(AccountRegion::KR.get_region_prefix(), "kr");
    assert_eq!(AccountRegion::TW.get_region_prefix(), "tw");
}
