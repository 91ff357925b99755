use crate::codec::{field, field_decodes, field_fits, member, object, FromJson, ToJson};
use crate::json::{members_of, Json, JsonValue};
use crate::request::AnkiRequest;
use std::collections::HashMap;
use vstd::prelude::*;

verus! {

/// Parameters for the "getDeckStats" action.
#[derive(Default, Debug, Clone, PartialEq, Eq)]
pub struct GetDeckStatsRequest {
    /// Names of the decks for which to retrieve statistics.
    pub decks: Vec<String>,
}

/// Statistics for a single deck.
#[derive(Debug, Clone, PartialEq, Eq)]
pub struct GetDeckStatsResponse {
    /// ID of the deck.
    pub deck_id: usize,
    /// Name of the deck.
    pub name: String,
    /// Number of new cards in the deck.
    pub new_count: usize,
    /// Number of cards in the learning phase in the deck.
    pub learn_count: usize,
    /// Number of cards in the review phase in the deck.
    pub review_count: usize,
    /// Total number of cards in the deck.
    pub total_in_deck: usize,
}

/// Written as an object with one member for each field, under the names
/// of the protocol.
impl ToJson for GetDeckStatsRequest {
    open spec fn json_model(&self) -> JsonValue {
        JsonValue::Object(seq![("decks"@, self.decks.json_model())])
    }

    fn to_value(&self) -> (r: Json) {
        let mut members: Vec<(String, Json)> = Vec::new();
        members.push(member("decks", &self.decks));
        assert(members_of(members@) =~= self.json_model()->Object_0);
        object(members)
    }
}

/// Read from an object. Every member has to be there and to fit; members
/// with other names are passed over.
impl FromJson for GetDeckStatsResponse {
    open spec fn fits(value: JsonValue) -> bool {
        &&& field_fits::<usize>(value, "deck_id"@)
        &&& field_fits::<String>(value, "name"@)
        &&& field_fits::<usize>(value, "new_count"@)
        &&& field_fits::<usize>(value, "learn_count"@)
        &&& field_fits::<usize>(value, "review_count"@)
        &&& field_fits::<usize>(value, "total_in_deck"@)
    }

    open spec fn decodes(value: JsonValue, decoded: GetDeckStatsResponse) -> bool {
        &&& field_decodes::<usize>(value, "deck_id"@, decoded.deck_id)
        &&& field_decodes::<String>(value, "name"@, decoded.name)
        &&& field_decodes::<usize>(value, "new_count"@, decoded.new_count)
        &&& field_decodes::<usize>(value, "learn_count"@, decoded.learn_count)
        &&& field_decodes::<usize>(value, "review_count"@, decoded.review_count)
        &&& field_decodes::<usize>(value, "total_in_deck"@, decoded.total_in_deck)
    }

    fn from_json(json: &Json) -> (r: Option<GetDeckStatsResponse>) {
        let deck_id = field::<usize>(json, "deck_id")?;
        let name = field::<String>(json, "name")?;
        let new_count = field::<usize>(json, "new_count")?;
        let learn_count = field::<usize>(json, "learn_count")?;
        let review_count = field::<usize>(json, "review_count")?;
        let total_in_deck = field::<usize>(json, "total_in_deck")?;
        Some(
            GetDeckStatsResponse {
                deck_id,
                name,
                new_count,
                learn_count,
                review_count,
                total_in_deck,
            },
        )
    }
}

impl Default for GetDeckStatsResponse {
    /// The statistics of no deck: an empty name and zeros.
    fn default() -> (r: GetDeckStatsResponse)
        ensures
            r.deck_id == 0,
            r.name@.len() == 0,
            r.new_count == 0,
            r.learn_count == 0,
            r.review_count == 0,
            r.total_in_deck == 0,
    {
        GetDeckStatsResponse {
            deck_id: 0,
            name: String::new(),
            new_count: 0,
            learn_count: 0,
            review_count: 0,
            total_in_deck: 0,
        }
    }
}

impl AnkiRequest for GetDeckStatsRequest {
    /// The statistics of each deck, by the ID of the deck.
    type Response = HashMap<usize, GetDeckStatsResponse>;

    const ACTION: &'static str = "getDeckStats";

    const VERSION: u8 = 6;
}

/// The name and the version under which a [`GetDeckStatsRequest`] is sent.
pub proof fn lemma_get_deck_stats_descriptor()
    ensures
        GetDeckStatsRequest::ACTION@ == "getDeckStats"@,
        GetDeckStatsRequest::VERSION == 6,
{
}

} // verus!
