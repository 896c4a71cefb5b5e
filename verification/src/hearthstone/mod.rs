//! Connectors for the Hearthstone Game Data APIs.
//! Offers searching for cards, decks, and general metadata.

use vstd::prelude::*;

use crate::client::BubbleHearthClient;
use crate::connectors::ClientConnector;

pub mod card_search;
pub mod cards;

verus! {

/// A client connector for Hearthstone, utilizing the base client
/// authentication.
pub struct HearthstoneConnector<'a> {
    /// Parent client containing the request pipeline and authorization
    /// context.
    pub client: &'a BubbleHearthClient,
}

impl<'a> ClientConnector<'a> for HearthstoneConnector<'a> {
    /// Constructs a new Hearthstone connector composed of the base client
    /// for querying and authorization.
    fn new_connector(client: &'a BubbleHearthClient) -> Self {
        HearthstoneConnector { client }
    }
}

} // verus!
