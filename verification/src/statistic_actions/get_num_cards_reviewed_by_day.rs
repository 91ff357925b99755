use crate::codec::{FromJson, ToJson};
use crate::json::{values_of, Json, JsonValue};
use crate::request::AnkiRequest;
use vstd::prelude::*;

verus! {

/// Parameters for the "getNumCardsReviewedByDay" action: none.
#[derive(Default, Debug, Clone, PartialEq, Eq)]
pub struct GetNumCardsReviewedByDayRequest;

/// The number of cards reviewed on one day.
#[derive(Debug, Clone, PartialEq, Eq)]
pub struct GetNumCardsReviewedByDayResponse {
    /// The day, as the server writes dates.
    pub date_string: String,
    /// The number of cards reviewed on that day.
    pub number: usize,
}

/// Written as `null`: the action takes no parameters.
impl ToJson for GetNumCardsReviewedByDayRequest {
    open spec fn json_model(&self) -> JsonValue {
        JsonValue::Null
    }

    fn to_value(&self) -> (r: Json) {
        Json::Null
    }
}

/// Read from an array of exactly two items: the date, then the number.
impl FromJson for GetNumCardsReviewedByDayResponse {
    open spec fn fits(value: JsonValue) -> bool {
        value matches JsonValue::Array(items) && items.len() == 2 && String::fits(items[0])
            && usize::fits(items[1])
    }

    open spec fn decodes(value: JsonValue, decoded: GetNumCardsReviewedByDayResponse) -> bool {
        value matches JsonValue::Array(items) && items.len() == 2 && String::decodes(
            items[0],
            decoded.date_string,
        ) && usize::decodes(items[1], decoded.number)
    }

    fn from_json(json: &Json) -> (r: Option<GetNumCardsReviewedByDayResponse>) {
        let items = json.as_array()?;
        if items.len() != 2 {
            return None;
        }
        assert(values_of(items@)[0] == items@[0]@);
        assert(values_of(items@)[1] == items@[1]@);
        let date_string = String::from_json(&items[0])?;
        let number = usize::from_json(&items[1])?;
        Some(GetNumCardsReviewedByDayResponse { date_string, number })
    }
}

impl Default for GetNumCardsReviewedByDayResponse {
    /// No date and no cards.
    fn default() -> (r: GetNumCardsReviewedByDayResponse)
        ensures
            r.date_string@.len() == 0,
            r.number == 0,
    {
        GetNumCardsReviewedByDayResponse { date_string: String::new(), number: 0 }
    }
}

impl AnkiRequest for GetNumCardsReviewedByDayRequest {
    type Response = Vec<GetNumCardsReviewedByDayResponse>;

    const ACTION: &'static str = "getNumCardsReviewedByDay";

    const VERSION: u8 = 6;
}

/// The name and the version under which a
/// [`GetNumCardsReviewedByDayRequest`] is sent.
pub proof fn lemma_get_num_cards_reviewed_by_day_descriptor()
    ensures
        GetNumCardsReviewedByDayRequest::ACTION@ == "getNumCardsReviewedByDay"@,
        GetNumCardsReviewedByDayRequest::VERSION == 6,
{
}

} // verus!
