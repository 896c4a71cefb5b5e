//! An internal client builder for configuring transport options for all
//! Blizzard API requests.

use vstd::prelude::*;

use super::reqwest::InternalHttpClient;

verus! {

/// A fluent builder for constructing HTTP client configurations with
/// configurable options.
#[derive(Debug, Clone, PartialEq)]
pub struct InternalHttpClientBuilder<'a> {
    /// Internal HTTP configuration to be constructed with the configurable
    /// options.
    pub client: Option<InternalHttpClient>,
    /// Base URL of the Blizzard API targeted by the client, depends on
    /// locale.
    pub base_url: Option<&'a str>,
    /// Timeout in seconds configurable by the consuming client.
    pub timeout: Option<u64>,
}

impl<'a> InternalHttpClientBuilder<'a> {
    /// Constructs a new client builder instance with no default options
    /// configured.
    pub fn new() -> (builder: InternalHttpClientBuilder<'a>)
        ensures
            builder.client is None,
            builder.base_url is None,
            builder.timeout is None,
    {
        InternalHttpClientBuilder { client: None, base_url: None, timeout: None }
    }
}

impl<'a> Default for InternalHttpClientBuilder<'a> {
    /// Mirrors [`InternalHttpClientBuilder::new`].
    fn default() -> (builder: InternalHttpClientBuilder<'a>)
        ensures
            builder.client is None,
            builder.base_url is None,
            builder.timeout is None,
    {
        InternalHttpClientBuilder::new()
    }
}

} // verus!
