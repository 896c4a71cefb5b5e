//! A snapshot authentication context: one access token paired with its
//! expiry, as acquired from a single token exchange.

use vstd::prelude::*;

use crate::auth::{expiry_at, spec_expiry, AccessTokenResponse};

verus! {

/// Represents one acquired authentication context, including the most
/// recently requested access token and its expiry.
#[derive(Debug, Clone, PartialEq)]
pub struct AuthenticationContext {
    /// Current access token used to authenticate against Blizzard APIs.
    pub access_token: String,
    /// Expiration of the access token, in Unix seconds, typically on the
    /// order of 24 hours out.
    pub expires_at: i64,
}

impl AuthenticationContext {
    /// Constructs a new authentication context from a recently requested
    /// access token response, with its expiry anchored at clock reading
    /// `now`.
    pub fn new(authentication_response: AccessTokenResponse, now: i64) -> (ctx:
        AuthenticationContext)
        ensures
            ctx.access_token == authentication_response.access_token,
            ctx.expires_at as int == spec_expiry(
                now as int,
                authentication_response.expires_in as int,
            ),
    {
        let expires_at = expiry_at(now, authentication_response.expires_in);
        AuthenticationContext { access_token: authentication_response.access_token, expires_at }
    }

    /// Returns a copy of the current access token.
    pub fn get_access_token(&self) -> (token: String)
        ensures
            token == self.access_token,
    {
        self.access_token.clone()
    }

    /// Determines if the current access token has expired at clock reading
    /// `now` and requires refreshing.
    pub fn refresh_required(&self, now: i64) -> (required: bool)
        ensures
            required == (self.expires_at <= now),
    {
        self.expires_at <= now
    }
}

} // verus!
