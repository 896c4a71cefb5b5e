//! An internal HTTP client configuration for interacting with all Blizzard
//! APIs used across all crates.

use vstd::prelude::*;

use crate::regionality::AccountRegion;

verus! {

/// Default HTTP timeout in seconds, overridable if provided.
pub const DEFAULT_TIMEOUT_SECONDS: u8 = 5;

/// A configurable HTTP client used across crates for connecting to all
/// Blizzard APIs, carried as the configuration the transport is built with.
#[derive(Debug, Clone, PartialEq)]
pub struct InternalHttpClient {
    /// Request timeout in seconds the transport is configured with.
    pub timeout_seconds: u64,
    /// Region all API calls should target.
    pub regionality: AccountRegion,
}

impl InternalHttpClient {
    /// Constructs a new default client configuration with a pre-configured
    /// timeout.
    pub fn new(regionality: AccountRegion) -> (client: InternalHttpClient)
        ensures
            client.timeout_seconds == DEFAULT_TIMEOUT_SECONDS as u64,
            client.regionality == regionality,
    {
        InternalHttpClient { timeout_seconds: DEFAULT_TIMEOUT_SECONDS as u64, regionality }
    }
}

/// A client builder with configurable HTTP options.
#[derive(Debug, Clone, PartialEq)]
pub struct InternalHttpClientBuilder {
    /// Internal client configuration to be configured.
    pub client: InternalHttpClient,
    /// Optional configurable timeout in seconds.
    pub timeout: Option<u64>,
    /// Required account region for targeting the correct set of Blizzard APIs.
    pub regionality: AccountRegion,
}

impl InternalHttpClientBuilder {
    /// Constructs a new client builder instance with default options
    /// mirroring the default client.
    pub fn new() -> (builder: InternalHttpClientBuilder)
        ensures
            builder.client.timeout_seconds == DEFAULT_TIMEOUT_SECONDS as u64,
            builder.client.regionality == AccountRegion::US,
            builder.timeout == Some(DEFAULT_TIMEOUT_SECONDS as u64),
            builder.regionality == AccountRegion::US,
    {
        let default_region = AccountRegion::US;
        InternalHttpClientBuilder {
            client: InternalHttpClient::new(default_region),
            timeout: Some(DEFAULT_TIMEOUT_SECONDS as u64),
            regionality: default_region,
        }
    }

    /// Sets the timeout, in seconds, on the internal client.
    pub fn timeout(self, duration_seconds: u64) -> (builder: InternalHttpClientBuilder)
        ensures
            builder.timeout == Some(duration_seconds),
            builder.client == self.client,
            builder.regionality == self.regionality,
    {
        InternalHttpClientBuilder { timeout: Some(duration_seconds), ..self }
    }

    /// Sets the region on the internal client.
    pub fn region(self, region: AccountRegion) -> (builder: InternalHttpClientBuilder)
        ensures
            builder.regionality == region,
            builder.client == self.client,
            builder.timeout == self.timeout,
    {
        InternalHttpClientBuilder { regionality: region, ..self }
    }
}

impl Default for InternalHttpClientBuilder {
    /// Mirrors [`InternalHttpClientBuilder::new`].
    fn default() -> (builder: InternalHttpClientBuilder)
        ensures
            builder.timeout == Some(DEFAULT_TIMEOUT_SECONDS as u64),
            builder.regionality == AccountRegion::US,
    {
        InternalHttpClientBuilder::new()
    }
}

} // verus!
