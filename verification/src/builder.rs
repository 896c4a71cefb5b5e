//! A fluent builder for the BubbleHearth client, collecting a mix of
//! optional and required properties. If a required option is not present
//! when attempting to construct a client from client options, an error is
//! returned.

use vstd::prelude::*;

use crate::client::{spec_client_from_options, BubbleHearthClient};
use crate::errors::{BubbleHearthError, BubbleHearthResult};
use crate::http::reqwest::InternalHttpClient;
use crate::localization::Locale;
use crate::regionality::AccountRegion;

verus! {

/// A configurable set of options for the user's client, containing a mix of
/// optional and required properties.
#[derive(Debug)]
pub struct BubbleHearthClientOptions {
    /// Client ID provided by Blizzard's developer portal.
    pub client_id: Option<String>,
    /// Client secret provided by Blizzard's developer portal.
    pub client_secret: Option<String>,
    /// Configured account region.
    pub region: Option<AccountRegion>,
    /// Configured locale for all API calls.
    pub locale: Option<Locale>,
    /// Configurable HTTP timeout in seconds, optional.
    pub timeout: Option<u64>,
    /// Preconfigured HTTP client, optional; trumps all other configured HTTP
    /// options.
    pub http: Option<InternalHttpClient>,
}

/// Whether every required option — locale, region, client ID and client
/// secret — is present.
pub open spec fn spec_has_required_options(options: BubbleHearthClientOptions) -> bool {
    &&& options.locale is Some
    &&& options.region is Some
    &&& options.client_id is Some
    &&& options.client_secret is Some
}

impl BubbleHearthClientOptions {
    /// Determines if the client has been validly configured with the mix of
    /// available required and optional properties.
    pub fn has_required_options(&self) -> (r: bool)
        ensures
            r == spec_has_required_options(*self),
    {
        if self.locale.is_none() {
            return false;
        }
        if self.region.is_none() {
            return false;
        }
        if self.client_id.is_none() {
            return false;
        }
        if self.client_secret.is_none() {
            return false;
        }
        true
    }
}

/// The options a builder step starts from: the options configured so far, or
/// entirely empty options when none were configured yet.
pub open spec fn spec_builder_base(options: Option<BubbleHearthClientOptions>)
    -> BubbleHearthClientOptions {
    match options {
        Some(configured) => configured,
        None => (BubbleHearthClientOptions {
            client_id: None,
            client_secret: None,
            region: None,
            locale: None,
            timeout: None,
            http: None,
        }),
    }
}

/// A configurable client instance builder for the BubbleHearth client.
#[derive(Debug)]
pub struct BubbleHearthClientBuilder {
    /// Configurable options for the client instance.
    pub options: Option<BubbleHearthClientOptions>,
}

impl BubbleHearthClientBuilder {
    /// Creates a new client builder instance without any options.
    pub fn new() -> (builder: BubbleHearthClientBuilder)
        ensures
            builder.options is None,
    {
        BubbleHearthClientBuilder { options: None }
    }

    /// Sets the required client ID on the currently configured options.
    pub fn with_client_id(self, client_id: String) -> (builder: BubbleHearthClientBuilder)
        ensures
            ({
                let base = spec_builder_base(self.options);
                &&& builder.options matches Some(o)
                &&& o.client_id == Some(client_id)
                &&& o.client_secret == base.client_secret
                &&& o.region == base.region
                &&& o.locale == base.locale
                &&& o.timeout == base.timeout
                &&& o.http == base.http
            }),
    {
        let options = match self.options {
            None => BubbleHearthClientOptions {
                client_id: Some(client_id),
                client_secret: None,
                region: None,
                locale: None,
                timeout: None,
                http: None,
            },
            Some(options) => BubbleHearthClientOptions { client_id: Some(client_id), ..options },
        };
        BubbleHearthClientBuilder { options: Some(options) }
    }

    /// Sets the required client secret on the currently configured options.
    pub fn with_client_secret(self, client_secret: String) -> (builder: BubbleHearthClientBuilder)
        ensures
            ({
                let base = spec_builder_base(self.options);
                &&& builder.options matches Some(o)
                &&& o.client_secret == Some(client_secret)
                &&& o.client_id == base.client_id
                &&& o.region == base.region
                &&& o.locale == base.locale
                &&& o.timeout == base.timeout
                &&& o.http == base.http
            }),
    {
        let options = match self.options {
            None => BubbleHearthClientOptions {
                client_id: None,
                client_secret: Some(client_secret),
                region: None,
                locale: None,
                timeout: None,
                http: None,
            },
            Some(options) => BubbleHearthClientOptions {
                client_secret: Some(client_secret),
                ..options
            },
        };
        BubbleHearthClientBuilder { options: Some(options) }
    }

    /// Sets the required region on the currently configured options.
    pub fn with_region(self, region: AccountRegion) -> (builder: BubbleHearthClientBuilder)
        ensures
            ({
                let base = spec_builder_base(self.options);
                &&& builder.options matches Some(o)
                &&& o.region == Some(region)
                &&& o.client_id == base.client_id
                &&& o.client_secret == base.client_secret
                &&& o.locale == base.locale
                &&& o.timeout == base.timeout
                &&& o.http == base.http
            }),
    {
        let options = match self.options {
            None => BubbleHearthClientOptions {
                client_id: None,
                client_secret: None,
                region: Some(region),
                locale: None,
                timeout: None,
                http: None,
            },
            Some(options) => BubbleHearthClientOptions { region: Some(region), ..options },
        };
        BubbleHearthClientBuilder { options: Some(options) }
    }

    /// Sets the required locale on the currently configured options.
    pub fn with_locale(self, locale: Locale) -> (builder: BubbleHearthClientBuilder)
        ensures
            ({
                let base = spec_builder_base(self.options);
                &&& builder.options matches Some(o)
                &&& o.locale == Some(locale)
                &&& o.client_id == base.client_id
                &&& o.client_secret == base.client_secret
                &&& o.region == base.region
                &&& o.timeout == base.timeout
                &&& o.http == base.http
            }),
    {
        let options = match self.options {
            None => BubbleHearthClientOptions {
                client_id: None,
                client_secret: None,
                region: None,
                locale: Some(locale),
                timeout: None,
                http: None,
            },
            Some(options) => BubbleHearthClientOptions { locale: Some(locale), ..options },
        };
        BubbleHearthClientBuilder { options: Some(options) }
    }

    /// Sets the optional request timeout, in seconds, on the currently
    /// configured options.
    pub fn with_timeout(self, timeout_seconds: u64) -> (builder: BubbleHearthClientBuilder)
        ensures
            ({
                let base = spec_builder_base(self.options);
                &&& builder.options matches Some(o)
                &&& o.timeout == Some(timeout_seconds)
                &&& o.client_id == base.client_id
                &&& o.client_secret == base.client_secret
                &&& o.region == base.region
                &&& o.locale == base.locale
                &&& o.http == base.http
            }),
    {
        let options = match self.options {
            None => BubbleHearthClientOptions {
                client_id: None,
                client_secret: None,
                region: None,
                locale: None,
                timeout: Some(timeout_seconds),
                http: None,
            },
            Some(options) => BubbleHearthClientOptions {
                timeout: Some(timeout_seconds),
                ..options
            },
        };
        BubbleHearthClientBuilder { options: Some(options) }
    }

    /// Sets the optional preconfigured HTTP client on the currently
    /// configured options.
    pub fn with_http(self, client: InternalHttpClient) -> (builder: BubbleHearthClientBuilder)
        ensures
            ({
                let base = spec_builder_base(self.options);
                &&& builder.options matches Some(o)
                &&& o.http == Some(client)
                &&& o.client_id == base.client_id
                &&& o.client_secret == base.client_secret
                &&& o.region == base.region
                &&& o.locale == base.locale
                &&& o.timeout == base.timeout
            }),
    {
        let options = match self.options {
            None => BubbleHearthClientOptions {
                client_id: None,
                client_secret: None,
                region: None,
                locale: None,
                timeout: None,
                http: Some(client),
            },
            Some(options) => BubbleHearthClientOptions { http: Some(client), ..options },
        };
        BubbleHearthClientBuilder { options: Some(options) }
    }

    /// Attempts to construct the client instance, propagating errors for
    /// missing required client options.
    pub fn build(self) -> (r: BubbleHearthResult<BubbleHearthClient>)
        ensures
            self.options is None ==> r == Err::<BubbleHearthClient, BubbleHearthError>(
                BubbleHearthError::InvalidClientOptions,
            ),
            self.options matches Some(o) ==> ({
                &&& !spec_has_required_options(o) ==> r == Err::<
                    BubbleHearthClient,
                    BubbleHearthError,
                >(BubbleHearthError::InvalidClientOptionField)
                &&& spec_has_required_options(o) ==> (r matches Ok(client)
                    && spec_client_from_options(client, o))
            }),
    {
        match self.options {
            None => Err(BubbleHearthError::InvalidClientOptions),
            Some(options) => {
                if options.has_required_options() {
                    BubbleHearthClient::new_with_options(options)
                } else {
                    Err(BubbleHearthError::InvalidClientOptionField)
                }
            },
        }
    }
}

impl Default for BubbleHearthClientBuilder {
    /// Mirrors [`BubbleHearthClientBuilder::new`].
    fn default() -> (builder: BubbleHearthClientBuilder)
        ensures
            builder.options is None,
    {
        BubbleHearthClientBuilder::new()
    }
}

} // verus!
