//! Realm data and APIs for World of Warcraft Classic.

use vstd::prelude::*;

use crate::classic::WorldOfWarcraftClassicConnector;
use crate::client::spec_api_host;
use crate::documents::{DocumentKey, Links};
use crate::localization::{spec_locale_code, Locale, StringOrStructLocale};
use crate::regionality::AccountRegion;
use crate::strutil::{append_decimal, spec_decimal};
use crate::timezone::{spec_timezone_name, Timezone};

verus! {

/// Response structure from the realms index endpoint, listing all available
/// realms with associated metadata like name, status, slug, etc.
#[derive(Debug, Clone, PartialEq)]
pub struct RealmsIndex {
    /// Top-level document link to follow for a selected realm ID.
    pub links: Links,
    /// List of available realms and their metadata.
    pub realms: Vec<Realm>,
}

/// Realm metadata for all available World of Warcraft Classic servers.
#[derive(Debug, Clone, PartialEq)]
pub struct Realm {
    /// Top-level document link to follow of the selected realm ID.
    pub links: Option<Links>,
    /// Document key for the realm, defaults to the URL.
    pub key: Option<DocumentKey>,
    /// Localized realm name.
    pub name: StringOrStructLocale,
    /// Numeric realm ID.
    pub id: u64,
    /// Slugified realm name.
    pub slug: String,
    /// Realm category correlating to its location, i.e. US West, US East,
    /// Oceanic, etc.
    pub category: Option<StringOrStructLocale>,
    /// Realm locale.
    pub locale: Option<String>,
    /// Realm timezone name, i.e. America/New_York, America/Los_Angeles, etc.
    pub timezone: Option<Timezone>,
    /// Flag for indicating if the realm is a PVP-based tournament realm.
    pub is_tournament: Option<bool>,
    /// Realm region, including document links.
    pub region: Option<RealmRegion>,
    /// Realm type metadata.
    pub realm_type: Option<RealmType>,
}

/// Realm region data, including document links and name.
#[derive(Debug, Clone, PartialEq)]
pub struct RealmRegion {
    /// Document key of the realm region.
    pub key: Option<DocumentKey>,
    /// Name of the realm region.
    pub name: StringOrStructLocale,
    /// ID of the realm region.
    pub id: u64,
}

/// Realm type data, indicating PVP, PVE, Normal, etc.
#[derive(Debug, Clone, PartialEq)]
pub struct RealmType {
    /// Base realm type, i.e. Normal, RP, etc.
    pub realm_type: String,
    /// Realm environment, i.e. PVP, PVE, etc.
    pub name: StringOrStructLocale,
}

/// The URL listing all available realms for a region under a locale.
pub open spec fn spec_realms_index_url(region: AccountRegion, locale: Locale) -> Seq<char> {
    spec_api_host(region) + "/data/wow/realm/index?locale="@ + spec_locale_code(locale)
}

/// The URL of one realm's metadata, selected by its slug.
pub open spec fn spec_realm_url(region: AccountRegion, locale: Locale, slug: Seq<char>) -> Seq<
    char,
> {
    spec_api_host(region) + "/data/wow/realm/"@ + slug + "?locale="@ + spec_locale_code(locale)
}

/// The timezone query parameter of a realm search, empty when no timezone
/// was requested.
pub open spec fn spec_timezone_query(timezone: Option<Timezone>) -> Seq<char> {
    match timezone {
        Some(zone) => "&timezone="@ + spec_timezone_name(zone),
        None => Seq::<char>::empty(),
    }
}

/// The ordering query parameter of a realm search, empty when no ordering
/// was requested.
pub open spec fn spec_orderby_query(order_by: Option<String>) -> Seq<char> {
    match order_by {
        Some(order) => "&orderby="@ + order@,
        None => Seq::<char>::empty(),
    }
}

/// The page a realm search targets, defaulting to the first.
pub open spec fn spec_page_number(page: Option<u32>) -> int {
    match page {
        Some(p) => p as int,
        None => 1,
    }
}

/// The URL of a realm search with optional timezone, ordering, and page
/// query parameters.
pub open spec fn spec_realm_search_url(
    region: AccountRegion,
    timezone: Option<Timezone>,
    order_by: Option<String>,
    page: Option<u32>,
) -> Seq<char> {
    spec_api_host(region) + "/data/wow/search/realm?_page="@ + spec_decimal(spec_page_number(page))
        + spec_timezone_query(timezone) + spec_orderby_query(order_by)
}

/// Builds the realms index URL for a region and locale.
pub fn realms_index_url_for(region: AccountRegion, locale: Locale) -> (url: String)
    ensures
        url@ == spec_realms_index_url(region, locale),
{
    let mut url: String = "https://".to_owned();
    url.append(region.get_region_prefix());
    url.append(".api.blizzard.com");
    url.append("/data/wow/realm/index?locale=");
    url.append(locale.get_locale());
    assert(url@ =~= spec_realms_index_url(region, locale));
    url
}

impl<'a> WorldOfWarcraftClassicConnector<'a> {
    /// The URL listing all available realms, targeted by the next resource
    /// request.
    pub fn realms_index_url(&self) -> (url: String)
        ensures
            url@ == spec_realms_index_url(self.client.region, self.client.locale),
    {
        realms_index_url_for(self.client.region, self.client.locale)
    }

    /// The URL of one realm's metadata, selected by its slug. A missing
    /// realm is an expected outcome of this endpoint: a not-found response
    /// classifies as an absence, not an error.
    pub fn realm_url(&self, slug: String) -> (url: String)
        ensures
            url@ == spec_realm_url(self.client.region, self.client.locale, slug@),
    {
        let mut url = self.client.api_host();
        url.append("/data/wow/realm/");
        url.append(slug.as_str());
        url.append("?locale=");
        url.append(self.client.locale.get_locale());
        assert(url@ =~= spec_realm_url(self.client.region, self.client.locale, slug@));
        url
    }

    /// The URL of a realm search with optional timezone, ordering, and page
    /// query parameters.
    pub fn realm_search_url(
        &self,
        timezone: Option<Timezone>,
        order_by: Option<String>,
        page: Option<u32>,
    ) -> (url: String)
        ensures
            url@ == spec_realm_search_url(self.client.region, timezone, order_by, page),
    {
        let mut url = self.client.api_host();
        url.append("/data/wow/search/realm?_page=");
        let page_number: u32 = match page {
            Some(p) => p,
            None => 1,
        };
        append_decimal(&mut url, page_number);
        match timezone {
            Some(zone) => {
                url.append("&timezone=");
                url.append(zone.zone_name());
            },
            None => {},
        }
        match &order_by {
            Some(order) => {
                url.append("&orderby=");
                url.append(order.as_str());
            },
            None => {},
        }
        assert(url@ =~= spec_realm_search_url(self.client.region, timezone, order_by, page));
        url
    }
}

} // verus!
