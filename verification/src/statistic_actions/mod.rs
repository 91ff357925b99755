//! Actions on the record of reviews.

/// The number of cards reviewed on each day, as pairs of a date and a count.
pub mod get_num_cards_reviewed_by_day;

/// The rows of reviews as the database holds them, nine numbers each.
pub mod insert_reviews;
