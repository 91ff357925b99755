//! Actions on cards.

/// Information about a list of cards: fields, sides, note type, deck and
/// scheduling data of each.
pub mod cards_info;

/// The cards that a query finds.
pub mod find_cards;

/// Sets chosen values of a single card.
pub mod set_specific_value_of_card;

/// Whether a card is suspended.
pub mod suspended;
