use crate::codec::{member, object, ToJson};
use crate::json::{members_of, Json, JsonValue};
use crate::request::AnkiRequest;
use vstd::prelude::*;

verus! {

/// Parameters for the "findCards" action.
#[derive(Default, Debug, Clone, PartialEq, Eq)]
pub struct FindCardsRequest {
    /// The query, in the syntax of the card browser.
    pub query: String,
}

/// Written as an object with one member for each field, under the names
/// of the protocol.
impl ToJson for FindCardsRequest {
    open spec fn json_model(&self) -> JsonValue {
        JsonValue::Object(seq![("query"@, self.query.json_model())])
    }

    fn to_value(&self) -> (r: Json) {
        let mut members: Vec<(String, Json)> = Vec::new();
        members.push(member("query", &self.query));
        assert(members_of(members@) =~= self.json_model()->Object_0);
        object(members)
    }
}

impl AnkiRequest for FindCardsRequest {
    /// The IDs of the cards found.
    type Response = Vec<usize>;

    const ACTION: &'static str = "findCards";

    const VERSION: u8 = 6;
}

/// The name and the version under which a [`FindCardsRequest`] is sent.
pub proof fn lemma_find_cards_descriptor()
    ensures
        FindCardsRequest::ACTION@ == "findCards"@,
        FindCardsRequest::VERSION == 6,
{
}

} // verus!
