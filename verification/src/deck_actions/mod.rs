//! Actions on decks.

/// The configuration group of a deck.
pub mod get_deck_config;

/// Statistics of decks, such as the number of cards that are due.
pub mod get_deck_stats;
