//! Token scopes for requesting profile data from various Blizzard games.

use vstd::prelude::*;

verus! {

/// Scope for requesting World of Warcraft (including Classic) profile data.
pub const SCOPE_WOW_PROFILE: &'static str = "wow.profile";

/// Scope for requesting Starcraft 2 profile data.
pub const SCOPE_SC2_PROFILE: &'static str = "sc2.profile";

/// Scope for requesting Diablo 3 profile data.
pub const SCOPE_DIABLO_3_PROFILE: &'static str = "d3.profile";

/// Scope for requesting current user data.
pub const SCOPE_OPENID: &'static str = "openid";

/// Token scopes for requesting profile data from various Blizzard games.
#[derive(Debug, Clone, Copy, PartialEq, Eq, Structural)]
pub enum ProfileTokenScope {
    /// Represents the token scope for World of Warcraft (including Classic).
    WoW,
    /// Represents the token scope for Starcraft 2.
    Sc2,
    /// Represents the token scope for Diablo 3.
    D3,
    /// Represents the token scope for the current user profile.
    OpenID,
}

/// The wire value of each profile token scope.
pub open spec fn spec_scope_value(scope: ProfileTokenScope) -> Seq<char> {
    match scope {
        ProfileTokenScope::WoW => SCOPE_WOW_PROFILE@,
        ProfileTokenScope::Sc2 => SCOPE_SC2_PROFILE@,
        ProfileTokenScope::D3 => SCOPE_DIABLO_3_PROFILE@,
        ProfileTokenScope::OpenID => SCOPE_OPENID@,
    }
}

impl ProfileTokenScope {
    /// The scope's wire value, as sent on authorization requests.
    pub fn scope_value(&self) -> (value: &'static str)
        ensures
            value@ == spec_scope_value(*self),
    {
        match self {
            ProfileTokenScope::WoW => SCOPE_WOW_PROFILE,
            ProfileTokenScope::Sc2 => SCOPE_SC2_PROFILE,
            ProfileTokenScope::D3 => SCOPE_DIABLO_3_PROFILE,
            ProfileTokenScope::OpenID => SCOPE_OPENID,
        }
    }
}

} // verus!
