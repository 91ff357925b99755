use crate::codec::{member, object, ToJson};
use crate::json::{members_of, Json, JsonValue};
use crate::request::AnkiRequest;
use vstd::prelude::*;

verus! {

/// Parameters for the "setSpecificValueOfCard" action.
#[derive(Default, Debug, Clone, PartialEq, Eq)]
pub struct SetSpecificValueOfCardRequest {
    /// ID of the card for which to set specific values.
    pub card: usize,
    /// Keys of the specific values to set.
    pub keys: Vec<String>,
    /// New values to set for the corresponding keys.
    pub new_values: Vec<String>,
}

/// Written as an object with one member for each field, under the names
/// of the protocol.
impl ToJson for SetSpecificValueOfCardRequest {
    open spec fn json_model(&self) -> JsonValue {
        JsonValue::Object(
            seq![
                ("card"@, self.card.json_model()),
                ("keys"@, self.keys.json_model()),
                ("newValues"@, self.new_values.json_model()),
            ],
        )
    }

    fn to_value(&self) -> (r: Json) {
        let mut members: Vec<(String, Json)> = Vec::new();
        members.push(member("card", &self.card));
        members.push(member("keys", &self.keys));
        members.push(member("newValues", &self.new_values));
        assert(members_of(members@) =~= self.json_model()->Object_0);
        object(members)
    }
}

impl AnkiRequest for SetSpecificValueOfCardRequest {
    type Response = Vec<usize>;

    const ACTION: &'static str = "setSpecificValueOfCard";

    const VERSION: u8 = 6;
}

/// The name and the version under which a
/// [`SetSpecificValueOfCardRequest`] is sent.
pub proof fn lemma_set_specific_value_of_card_descriptor()
    ensures
        SetSpecificValueOfCardRequest::ACTION@ == "setSpecificValueOfCard"@,
        SetSpecificValueOfCardRequest::VERSION == 6,
{
}

} // verus!
