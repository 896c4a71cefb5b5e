//! Connectors for Classic WoW Game Data APIs. To date, Blizzard does not
//! offer Community APIs for Classic WoW, though it's on their radar.

use vstd::prelude::*;

use crate::client::BubbleHearthClient;
use crate::connectors::ClientConnector;

pub mod client;
pub mod realms;
pub mod regions;

verus! {

/// A client connector for WoW Classic, utilizing the base client
/// authentication.
pub struct WorldOfWarcraftClassicConnector<'a> {
    /// Parent client containing the request pipeline and authorization
    /// context.
    pub client: &'a BubbleHearthClient,
}

impl<'a> ClientConnector<'a> for WorldOfWarcraftClassicConnector<'a> {
    /// Constructs a new WoW Classic connector composed of the base client
    /// for querying and authorization.
    fn new_connector(client: &'a BubbleHearthClient) -> Self {
        WorldOfWarcraftClassicConnector { client }
    }
}

} // verus!
