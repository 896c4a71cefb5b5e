//! Client-side core for Blizzard's Game Data APIs: region routing, OAuth
//! client-credentials token caching, request composition and response
//! classification, and decoding of locale-ambiguous response fields.

pub mod auth;
pub mod auth_context;
pub mod builder;
pub mod classic;
pub mod client;
pub mod connectors;
pub mod documents;
pub mod errors;
pub mod hearthstone;
pub mod http;
pub mod json;
pub mod localization;
pub mod oauth;
pub mod regionality;
pub mod search;
pub mod strutil;
pub mod timezone;

use vstd::prelude::*;

verus! {

/// Identifier type shared by the Game Data API response models.
pub type BubbleHearthId = u32;

} // verus!
