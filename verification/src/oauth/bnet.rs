//! A client for interacting with Battle.net endpoints and authorization.

use vstd::prelude::*;

use crate::http::reqwest::InternalHttpClient;

verus! {

/// A client for interacting with Battle.net endpoints and authorization.
#[derive(Debug, Clone, PartialEq)]
pub struct BattleNetClient {
    /// Common internal HTTP request client configuration.
    pub http: InternalHttpClient,
}

} // verus!
