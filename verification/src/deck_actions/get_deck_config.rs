use crate::codec::{member, object, ToJson};
use crate::json::{members_of, Json, JsonValue};
use crate::request::AnkiRequest;
use vstd::prelude::*;

verus! {

/// Parameters for the "getDeckConfig" action.
#[derive(Default, Debug, Clone, PartialEq, Eq)]
pub struct GetDeckConfigRequest {
    /// The name of the deck.
    pub deck: String,
}

/// Written as an object with one member for each field, under the names
/// of the protocol.
impl ToJson for GetDeckConfigRequest {
    open spec fn json_model(&self) -> JsonValue {
        JsonValue::Object(seq![("deck"@, self.deck.json_model())])
    }

    fn to_value(&self) -> (r: Json) {
        let mut members: Vec<(String, Json)> = Vec::new();
        members.push(member("deck", &self.deck));
        assert(members_of(members@) =~= self.json_model()->Object_0);
        object(members)
    }
}

impl AnkiRequest for GetDeckConfigRequest {
    /// The configuration group as the server wrote it. Its delays and factors
    /// are fractions, so it is handed on as a JSON value.
    type Response = Json;

    const ACTION: &'static str = "getDeckConfig";

    const VERSION: u8 = 6;
}

/// The name and the version under which a [`GetDeckConfigRequest`] is sent.
pub proof fn lemma_get_deck_config_descriptor()
    ensures
        GetDeckConfigRequest::ACTION@ == "getDeckConfig"@,
        GetDeckConfigRequest::VERSION == 6,
{
}

} // verus!
