//! Client connectors to the World of Warcraft Classic Game Data APIs.

use vstd::prelude::*;

use crate::auth::AuthenticationContext;
use crate::classic::realms::spec_realms_index_url;
use crate::localization::Locale;
use crate::regionality::AccountRegion;

verus! {

/// A standalone client for WoW Classic, carrying its own authentication
/// context.
pub struct WorldOfWarcraftClassicClient {
    /// Configured account region.
    pub region: AccountRegion,
    /// Internally cached authentication context, allowing for token reuse
    /// and smart refreshing.
    pub authentication: AuthenticationContext,
}

impl WorldOfWarcraftClassicClient {
    /// Constructs a new WoW Classic client composed of an authentication
    /// context for querying and authorization.
    pub fn new(region: AccountRegion, authentication: AuthenticationContext) -> (client:
        WorldOfWarcraftClassicClient)
        ensures
            client.region == region,
            client.authentication == authentication,
    {
        WorldOfWarcraftClassicClient { region, authentication }
    }

    /// The URL listing all available realms under the given locale.
    pub fn realms_index_url(&self, locale: Locale) -> (url: String)
        ensures
            url@ == spec_realms_index_url(self.region, locale),
    {
        crate::classic::realms::realms_index_url_for(self.region, locale)
    }
}

} // verus!
