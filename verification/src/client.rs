//! A top-level client for interacting with Blizzard Game Data APIs,
//! including authentication and request composition for all publicly
//! available APIs for Blizzard games.
//!
//! The client owns the verified request pipeline: it resolves region, locale
//! and namespace into a well-formed request, decides when the cached access
//! token may be reused, turns exchange responses into cached tokens, and
//! classifies response statuses. Executing the HTTP calls themselves is the
//! embedding application's transport concern: it sends what
//! [`AuthenticationContext::token_request`] and [`ApiRequest`] describe and
//! hands the observed status and body back to the pipeline.

use vstd::prelude::*;

use crate::auth::{
    now_unix_seconds, spec_refresh_required, spec_try_current, AccessToken, AuthenticationContext,
    TokenExchangeRequest,
};
use crate::builder::{spec_has_required_options, BubbleHearthClientOptions};
use crate::errors::{BubbleHearthError, BubbleHearthResult};
use crate::json::parsed_shape;
use crate::localization::Locale;
use crate::regionality::{spec_region_prefix, spec_token_endpoint, AccountRegion};

verus! {

/// Default HTTP timeout in seconds, overridable if provided.
pub const DEFAULT_TIMEOUT_SECONDS: u8 = 5;

/// The namespace header value targeting a region's Classic dataset.
pub open spec fn spec_namespace(region: AccountRegion) -> Seq<char> {
    "dynamic-classic-"@ + spec_region_prefix(region)
}

/// The API host serving a region's Game Data endpoints.
pub open spec fn spec_api_host(region: AccountRegion) -> Seq<char> {
    "https://"@ + spec_region_prefix(region) + ".api.blizzard.com"@
}

/// The timeout a client built from `options` is configured with: a
/// preconfigured HTTP client trumps a configured timeout, which trumps the
/// default.
pub open spec fn spec_options_timeout(options: BubbleHearthClientOptions) -> u64 {
    match options.http {
        Some(http) => http.timeout_seconds,
        None => match options.timeout {
            Some(timeout) => timeout,
            None => DEFAULT_TIMEOUT_SECONDS as u64,
        },
    }
}

/// How a client constructed from `options` relates to them: every required
/// option is carried over and the timeout resolves per
/// [`spec_options_timeout`].
pub open spec fn spec_client_from_options(
    client: BubbleHearthClient,
    options: BubbleHearthClientOptions,
) -> bool {
    &&& client.region == options.region->0
    &&& client.locale == options.locale->0
    &&& client.auth.region == options.region->0
    &&& client.auth.client_id == options.client_id->0
    &&& client.auth.client_secret == options.client_secret->0
    &&& client.timeout_seconds == spec_options_timeout(options)
}

/// A fully composed Game Data API request: the target URL, the namespace
/// header value, and the bearer token to authorize with.
#[derive(Debug, Clone, PartialEq)]
pub struct ApiRequest {
    /// Fully qualified URL of the target endpoint.
    pub url: String,
    /// Value for the namespace header identifying the targeted dataset.
    pub namespace: String,
    /// Bearer token for the authorization header.
    pub bearer_token: String,
}

/// What a resource response's status calls for: decoding the body, treating
/// the resource as absent, or surfacing a failure with the observed status.
#[derive(Debug, Clone, Copy, PartialEq, Eq, Structural)]
pub enum ResponseDisposition {
    /// A success status: decode the body as the expected model.
    Deserialize,
    /// A missing resource on an endpoint where absence is an expected,
    /// non-error outcome.
    Absent,
    /// Any other outcome, carrying the status to surface.
    Failure(u16),
}

/// Classifies a resource response status: success statuses call for
/// decoding, a missing resource is an expected absence only where the
/// caller opted into it, and everything else is a failure carrying the
/// status.
pub open spec fn spec_classify_response(status: u16, optional: bool) -> ResponseDisposition {
    if 200 <= status < 300 {
        ResponseDisposition::Deserialize
    } else if status == 404 && optional {
        ResponseDisposition::Absent
    } else {
        ResponseDisposition::Failure(status)
    }
}

/// Classifies the status of a resource response. A transport-level failure
/// is conventionally handed in as status `0`, which no server can produce,
/// and classifies as a failure.
pub fn classify_response(status: u16, optional: bool) -> (r: ResponseDisposition)
    ensures
        r == spec_classify_response(status, optional),
{
    if 200 <= status && status < 300 {
        ResponseDisposition::Deserialize
    } else if status == 404 && optional {
        ResponseDisposition::Absent
    } else {
        ResponseDisposition::Failure(status)
    }
}

/// The primary BubbleHearth client, acting as the gateway for connecting to
/// Blizzard's Game Data APIs.
pub struct BubbleHearthClient {
    /// Configured account region.
    pub region: AccountRegion,
    /// Configured locale for all API calls.
    pub locale: Locale,
    /// Request timeout in seconds the transport is to be configured with.
    pub timeout_seconds: u64,
    /// Authentication context, caching the current access token.
    pub auth: AuthenticationContext,
}

impl BubbleHearthClient {
    /// Constructs a new client with default configuration options, though
    /// requiring a region and locale.
    pub fn new(
        client_id: String,
        client_secret: String,
        region: AccountRegion,
        locale: Locale,
    ) -> (client: BubbleHearthClient)
        ensures
            client.region == region,
            client.locale == locale,
            client.timeout_seconds == DEFAULT_TIMEOUT_SECONDS as u64,
            client.auth.region == region,
            client.auth.client_id == client_id,
            client.auth.client_secret == client_secret,
    {
        BubbleHearthClient::new_with_timeout(
            client_id,
            client_secret,
            region,
            locale,
            DEFAULT_TIMEOUT_SECONDS as u64,
        )
    }

    /// Constructs a new client instance with a configurable timeout in
    /// seconds.
    pub fn new_with_timeout(
        client_id: String,
        client_secret: String,
        region: AccountRegion,
        locale: Locale,
        timeout_seconds: u64,
    ) -> (client: BubbleHearthClient)
        ensures
            client.region == region,
            client.locale == locale,
            client.timeout_seconds == timeout_seconds,
            client.auth.region == region,
            client.auth.client_id == client_id,
            client.auth.client_secret == client_secret,
    {
        BubbleHearthClient {
            region,
            locale,
            timeout_seconds,
            auth: AuthenticationContext::new(region, client_id, client_secret),
        }
    }

    /// Constructs a new client instance with configurable options,
    /// propagating an error when a required option is missing.
    pub fn new_with_options(options: BubbleHearthClientOptions) -> (r: BubbleHearthResult<
        BubbleHearthClient,
    >)
        ensures
            spec_has_required_options(options) ==> (r matches Ok(client)
                && spec_client_from_options(client, options)),
            !spec_has_required_options(options) ==> r == Err::<
                BubbleHearthClient,
                BubbleHearthError,
            >(BubbleHearthError::InvalidClientOptions),
    {
        if !options.has_required_options() {
            return Err(BubbleHearthError::InvalidClientOptions);
        }
        let timeout_seconds = match options.http {
            None => match options.timeout {
                None => DEFAULT_TIMEOUT_SECONDS as u64,
                Some(timeout) => timeout,
            },
            Some(http) => http.timeout_seconds,
        };
        Ok(
            BubbleHearthClient::new_with_timeout(
                options.client_id.unwrap(),
                options.client_secret.unwrap(),
                options.region.unwrap(),
                options.locale.unwrap(),
                timeout_seconds,
            ),
        )
    }

    /// Returns a copy of the current access token at clock reading `now`,
    /// with `Ok(None)` forcing retrieval of a fresh access token.
    pub fn try_access_token_at(&self, now: i64) -> (r: BubbleHearthResult<Option<String>>)
        ensures
            exists|cache: Option<AccessToken>| r == spec_try_current(cache, now as int),
    {
        self.auth.try_access_token_at(now)
    }

    /// Returns a copy of the current access token at the current clock
    /// reading, with `Ok(None)` forcing retrieval of a fresh access token.
    pub fn try_access_token(&self) -> (r: BubbleHearthResult<Option<String>>)
        ensures
            exists|cache: Option<AccessToken>, now: int| r == spec_try_current(cache, now),
    {
        self.auth.try_access_token()
    }

    /// Determines if the current access token has expired at clock reading
    /// `now` and requires refreshing.
    pub fn try_refresh_required_at(&self, now: i64) -> (r: BubbleHearthResult<bool>)
        ensures
            exists|cache: Option<AccessToken>| r == Ok::<bool, BubbleHearthError>(
                spec_refresh_required(cache, now as int),
            ),
    {
        self.auth.try_refresh_required_at(now)
    }

    /// Determines if the current access token has expired at the current
    /// clock reading and requires refreshing.
    pub fn try_refresh_required(&self) -> (r: BubbleHearthResult<bool>)
        ensures
            exists|cache: Option<AccessToken>, now: int| r == Ok::<bool, BubbleHearthError>(
                spec_refresh_required(cache, now),
            ),
    {
        self.auth.try_refresh_required()
    }

    /// The client-credentials form request to send to the configured
    /// region's token endpoint when the cache requires a refresh.
    pub fn token_request(&self) -> (r: TokenExchangeRequest)
        ensures
            r.endpoint@ == spec_token_endpoint(self.auth.region),
            r.client_id == self.auth.client_id,
            r.client_secret == self.auth.client_secret,
            r.grant_type@ == "client_credentials"@,
    {
        self.auth.token_request()
    }

    /// Applies the result of a client-credentials exchange performed at
    /// clock reading `now`, caching and returning the fresh token on
    /// success; see [`AuthenticationContext::apply_token_response`].
    pub fn apply_token_response(&self, status: Option<u16>, body: &str, now: i64) -> (r:
        BubbleHearthResult<String>)
        ensures
            match crate::auth::spec_exchange_outcome(status, parsed_shape(body@), now as int) {
                Ok(t) => r == Ok::<String, BubbleHearthError>(t.token),
                Err(e) => r == Err::<String, BubbleHearthError>(e),
            },
    {
        self.auth.apply_token_response(status, body, now)
    }

    /// Requests the current access token at the current clock reading,
    /// surfacing the refresh trigger to the caller: the caller performs the
    /// exchange described by [`BubbleHearthClient::token_request`] and hands
    /// the outcome to [`BubbleHearthClient::apply_token_response`].
    pub fn get_access_token(&self) -> (r: BubbleHearthResult<Option<String>>)
        ensures
            exists|cache: Option<AccessToken>, now: int| r == spec_try_current(cache, now),
    {
        let now = now_unix_seconds();
        self.auth.try_access_token_at(now)
    }

    /// Gets the region-specific namespace based on the region locality.
    pub fn get_namespace_locality(&self) -> (r: String)
        ensures
            r@ == spec_namespace(self.region),
    {
        let mut namespace: String = "dynamic-classic-".to_owned();
        namespace.append(self.region.get_region_prefix());
        namespace
    }

    /// The API host serving the configured region's Game Data endpoints.
    pub fn api_host(&self) -> (r: String)
        ensures
            r@ == spec_api_host(self.region),
    {
        let mut host: String = "https://".to_owned();
        host.append(self.region.get_region_prefix());
        host.append(".api.blizzard.com");
        assert(host@ =~= spec_api_host(self.region));
        host
    }

    /// Composes a request against a fully qualified URL with the required
    /// namespace header and authentication token.
    pub fn prepare_request(&self, url: String, token: String) -> (r: ApiRequest)
        ensures
            r.url == url,
            r.namespace@ == spec_namespace(self.region),
            r.bearer_token == token,
    {
        ApiRequest { url, namespace: self.get_namespace_locality(), bearer_token: token }
    }

    /// A client connector for interacting with World of Warcraft Classic
    /// Game Data APIs.
    pub fn classic(&self) -> (connector: crate::classic::WorldOfWarcraftClassicConnector<'_>)
        ensures
            connector.client == self,
    {
        crate::classic::WorldOfWarcraftClassicConnector { client: self }
    }

    /// A client connector for interacting with Hearthstone Game Data APIs.
    pub fn hearthstone(&self) -> (connector: crate::hearthstone::HearthstoneConnector<'_>)
        ensures
            connector.client == self,
    {
        crate::hearthstone::HearthstoneConnector { client: self }
    }
}

} // verus!
