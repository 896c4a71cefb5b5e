//! Hearthstone card APIs for searching and retrieving cards and card backs.

use vstd::prelude::*;

use crate::client::spec_api_host;
use crate::hearthstone::HearthstoneConnector;
use crate::localization::spec_locale_code;
use crate::BubbleHearthId;

verus! {

/// A generalized cards response for all Hearthstone card-based responses.
#[derive(Debug, Clone, PartialEq)]
pub struct Cards {
    /// Cards based on the card search results.
    pub cards: Vec<Card>,
    /// Number of cards in the search result.
    pub card_count: BubbleHearthId,
    /// Number of pages based on the search result.
    pub page_count: BubbleHearthId,
    /// Current page of the search results.
    pub page: BubbleHearthId,
}

/// A card with all associated Hearthstone metadata for the result.
#[derive(Debug, Clone, PartialEq)]
pub struct Card {
    /// ID of the card.
    pub id: BubbleHearthId,
    /// ID of the card collectible.
    pub collectible: BubbleHearthId,
    /// Slugified title of the card.
    pub slug: String,
    /// Class ID of the card.
    pub class_id: BubbleHearthId,
    /// IDs of every class the card belongs to.
    pub multi_class_ids: Vec<BubbleHearthId>,
    /// ID of the card's spell school, if any.
    pub spell_school_id: Option<BubbleHearthId>,
    /// ID of the card's type.
    pub card_type_id: BubbleHearthId,
    /// ID of the set the card belongs to.
    pub card_set_id: BubbleHearthId,
    /// ID of the card's rarity.
    pub rarity_id: BubbleHearthId,
    /// Name of the card's artist.
    pub artist_name: String,
    /// Mana cost required to play the card.
    pub mana_cost: BubbleHearthId,
    /// Name of the card.
    pub name: String,
    /// Rules text of the card.
    pub text: String,
    /// URL of the card's image.
    pub image: String,
    /// URL of the card's golden image.
    pub image_gold: String,
    /// Flavor text of the card.
    pub flavor_text: String,
    /// URL of the card's cropped image.
    pub crop_image: String,
    /// IDs of the card's keywords, if any.
    pub keyword_ids: Option<Vec<BubbleHearthId>>,
    /// Duels-specific metadata, if any.
    pub duels: Option<Duels>,
    /// ID of the card this one copies, if any.
    pub copy_of_card_id: Option<BubbleHearthId>,
    /// Health of the card, if any.
    pub health: Option<BubbleHearthId>,
    /// Attack of the card, if any.
    pub attack: Option<BubbleHearthId>,
    /// ID of the card's minion type, if any.
    pub minion_type_id: Option<BubbleHearthId>,
    /// IDs of the card's children, if any.
    pub child_ids: Option<Vec<BubbleHearthId>>,
    /// Rune cost of the card, if any.
    pub rune_cost: Option<RuneCost>,
}

/// Duels-specific card metadata.
#[derive(Debug, Clone, Copy, PartialEq, Eq, Structural)]
pub struct Duels {
    /// Whether the card is relevant to Duels.
    pub relevant: bool,
    /// Whether the card is playable in constructed Duels decks.
    pub constructed: bool,
}

/// The rune cost required to play a card.
#[derive(Debug, Clone, Copy, PartialEq, Eq, Structural)]
pub struct RuneCost {
    /// Number of blood runes.
    pub blood: i64,
    /// Number of frost runes.
    pub frost: i64,
    /// Number of unholy runes.
    pub unholy: i64,
}

impl<'a> HearthstoneConnector<'a> {
    /// The URL searching for card fronts and backs under the configured
    /// region and locale, targeted by the next resource request.
    pub fn cards_search_url(&self) -> (url: String)
        ensures
            url@ == spec_api_host(self.client.region) + "/hearthstone/cards?locale="@
                + spec_locale_code(self.client.locale),
    {
        let mut url = self.client.api_host();
        url.append("/hearthstone/cards?locale=");
        url.append(self.client.locale.get_locale());
        assert(url@ =~= spec_api_host(self.client.region) + "/hearthstone/cards?locale="@
            + spec_locale_code(self.client.locale));
        url
    }
}

} // verus!
