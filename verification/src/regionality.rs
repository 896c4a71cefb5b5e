//! Region-based metadata for targeting specific instances of the Blizzard APIs.

use vstd::prelude::*;

verus! {

/// Authorize endpoint for global regionalities.
pub const GLOBAL_AUTHORIZE_ENDPOINT: &'static str = "https://oauth.battle.net/authorize";

/// Token endpoint for global regionalities.
pub const GLOBAL_TOKEN_ENDPOINT: &'static str = "https://oauth.battle.net/token";

/// Authorize endpoint for the China regionality.
pub const CN_AUTHORIZE_ENDPOINT: &'static str = "https://oauth.battlenet.com.cn/authorize";

/// Token endpoint for the China regionality.
pub const CN_TOKEN_ENDPOINT: &'static str = "https://oauth.battlenet.com.cn/token";

/// Regions associated to their corresponding API gateways.
#[derive(Debug, Clone, Copy, PartialEq, Eq, Structural)]
pub enum AccountRegion {
    /// Represents the China region and China API gateway.
    CN,
    /// Represents the United States region and Global API gateway.
    US,
    /// Represents the European Union region and Global API gateway.
    EU,
    /// Represents the Korean region and Global API gateway.
    KR,
    /// Represents the Taiwan region and Global API gateway.
    TW,
}

/// The token endpoint a region authenticates against: China resolves to the
/// China-specific endpoint, every other region to the global endpoint.
pub open spec fn spec_token_endpoint(region: AccountRegion) -> Seq<char> {
    match region {
        AccountRegion::CN => CN_TOKEN_ENDPOINT@,
        _ => GLOBAL_TOKEN_ENDPOINT@,
    }
}

/// The lower-case abbreviation a region contributes to API hosts and namespaces.
pub open spec fn spec_region_prefix(region: AccountRegion) -> Seq<char> {
    match region {
        AccountRegion::CN => "cn"@,
        AccountRegion::US => "us"@,
        AccountRegion::EU => "eu"@,
        AccountRegion::KR => "kr"@,
        AccountRegion::TW => "tw"@,
    }
}

impl AccountRegion {
    /// Determines the appropriate token endpoint based on the client region.
    pub fn get_token_endpoint(&self) -> (endpoint: &'static str)
        ensures
            endpoint@ == spec_token_endpoint(*self),
    {
        match self {
            AccountRegion::CN => CN_TOKEN_ENDPOINT,
            _ => GLOBAL_TOKEN_ENDPOINT,
        }
    }

    /// Gets the region's abbreviation, used for both hosts and namespaces.
    pub fn get_region_prefix(&self) -> (prefix: &'static str)
        ensures
            prefix@ == spec_region_prefix(*self),
    {
        match self {
            AccountRegion::CN => "cn",
            AccountRegion::US => "us",
            AccountRegion::EU => "eu",
            AccountRegion::KR => "kr",
            AccountRegion::TW => "tw",
        }
    }
}

} // verus!
