use crate::codec::{member, object, ToJson};
use crate::json::{members_of, Json, JsonValue};
use crate::request::AnkiRequest;
use vstd::prelude::*;

verus! {

/// Parameters for the "suspended" action.
#[derive(Default, Debug, Clone, PartialEq, Eq)]
pub struct SuspendedRequest {
    /// ID of the card to check.
    pub card: usize,
}

/// Written as an object with one member for each field, under the names
/// of the protocol.
impl ToJson for SuspendedRequest {
    open spec fn json_model(&self) -> JsonValue {
        JsonValue::Object(seq![("card"@, self.card.json_model())])
    }

    fn to_value(&self) -> (r: Json) {
        let mut members: Vec<(String, Json)> = Vec::new();
        members.push(member("card", &self.card));
        assert(members_of(members@) =~= self.json_model()->Object_0);
        object(members)
    }
}

impl AnkiRequest for SuspendedRequest {
    type Response = bool;

    const ACTION: &'static str = "suspended";

    const VERSION: u8 = 6;
}

/// The name and the version under which a [`SuspendedRequest`] is sent.
pub proof fn lemma_suspended_descriptor()
    ensures
        SuspendedRequest::ACTION@ == "suspended"@,
        SuspendedRequest::VERSION == 6,
{
}

} // verus!
