//! Request models and APIs for using Battle.net and OAuth interactions with
//! Blizzard.

pub mod bnet;
pub mod endpoints;
pub mod scopes;

pub use crate::auth::AccessTokenResponse;
