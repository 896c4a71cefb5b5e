//! Battle.net OAuth endpoints, by regionality group.

use vstd::prelude::*;

verus! {

/// Authorize endpoint for global regionalities.
pub const GLOBAL_AUTHORIZE_ENDPOINT: &'static str = "https://oauth.battle.net/authorize";

/// Token endpoint for global regionalities.
pub const GLOBAL_TOKEN_ENDPOINT: &'static str = "https://oauth.battle.net/token";

/// Authorize endpoint for the China regionality.
pub const CN_AUTHORIZE_ENDPOINT: &'static str = "https://oauth.battlenet.com.cn/authorize";

/// Token endpoint for the China regionality.
pub const CN_TOKEN_ENDPOINT: &'static str = "https://oauth.battlenet.com.cn/token";

} // verus!
