use crate::codec::ToJson;
use crate::json::{Json, JsonValue};
use crate::request::AnkiRequest;
use vstd::prelude::*;

verus! {

/// Parameters for the "reloadCollection" action: none.
#[derive(Default, Debug, Clone, PartialEq, Eq)]
pub struct ReloadCollectionRequest;

/// Written as `null`: the action takes no parameters.
impl ToJson for ReloadCollectionRequest {
    open spec fn json_model(&self) -> JsonValue {
        JsonValue::Null
    }

    fn to_value(&self) -> (r: Json) {
        Json::Null
    }
}

impl AnkiRequest for ReloadCollectionRequest {
    /// The action gives no data.
    type Response = ();

    const ACTION: &'static str = "reloadCollection";

    const VERSION: u8 = 6;
}

/// The name and the version under which a [`ReloadCollectionRequest`] is
/// sent.
pub proof fn lemma_reload_collection_descriptor()
    ensures
        ReloadCollectionRequest::ACTION@ == "reloadCollection"@,
        ReloadCollectionRequest::VERSION == 6,
{
}

} // verus!
