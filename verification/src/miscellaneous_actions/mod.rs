//! Actions that concern no single card or deck.

/// Tells the program to reload all data from the database.
pub mod reload_collection;

/// Asks for permission to use the interface. This should be the first call
/// of a client.
pub mod request_permission;
