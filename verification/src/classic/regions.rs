//! Region data models and various APIs for retrieval and searching.

use vstd::prelude::*;

use crate::classic::WorldOfWarcraftClassicConnector;
use crate::client::spec_api_host;
use crate::documents::Links;
use crate::localization::{spec_locale_code, Locale};
use crate::regionality::AccountRegion;
use crate::strutil::{append_decimal, spec_decimal};

verus! {

/// Response from the regions endpoint, containing a list of region
/// endpoints to retrieve further detail on each region.
#[derive(Debug, Clone, PartialEq)]
pub struct RegionsIndex {
    /// Top-level document link to follow for a selected region ID.
    pub links: Links,
    /// List of available regions and their metadata.
    pub regions: Vec<Region>,
}

/// Region metadata returned from the index endpoint.
#[derive(Debug, Clone, PartialEq)]
pub struct Region {
    /// Endpoint for retrieving further detail about the region.
    pub href: Option<String>,
    /// Region ID.
    pub id: Option<u32>,
    /// Name of the region.
    pub name: Option<String>,
    /// Regional tag, i.e. US, KR, etc.
    pub tag: Option<String>,
}

/// The URL listing all available regions for a region gateway and locale.
pub open spec fn spec_regions_index_url(region: AccountRegion, locale: Locale) -> Seq<char> {
    spec_api_host(region) + "/data/wow/region/index?locale="@ + spec_locale_code(locale)
}

/// The URL of one region's metadata, selected by its numeric ID.
pub open spec fn spec_region_url(region: AccountRegion, locale: Locale, region_id: int) -> Seq<
    char,
> {
    spec_api_host(region) + "/data/wow/region/"@ + spec_decimal(region_id) + "?locale="@
        + spec_locale_code(locale)
}

impl<'a> WorldOfWarcraftClassicConnector<'a> {
    /// The URL listing all available regions, targeted by the next resource
    /// request.
    pub fn regions_index_url(&self) -> (url: String)
        ensures
            url@ == spec_regions_index_url(self.client.region, self.client.locale),
    {
        let mut url = self.client.api_host();
        url.append("/data/wow/region/index?locale=");
        url.append(self.client.locale.get_locale());
        assert(url@ =~= spec_regions_index_url(self.client.region, self.client.locale));
        url
    }

    /// The URL of one region's metadata, selected by its numeric ID. A
    /// missing region is an expected outcome of this endpoint: a not-found
    /// response classifies as an absence, not an error.
    pub fn region_url(&self, region_id: u32) -> (url: String)
        ensures
            url@ == spec_region_url(self.client.region, self.client.locale, region_id as int),
    {
        let mut url = self.client.api_host();
        url.append("/data/wow/region/");
        append_decimal(&mut url, region_id);
        url.append("?locale=");
        url.append(self.client.locale.get_locale());
        assert(url@ =~= spec_region_url(self.client.region, self.client.locale, region_id as int));
        url
    }
}

} // verus!
