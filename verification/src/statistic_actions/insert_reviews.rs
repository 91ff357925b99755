use crate::codec::ToJson;
use crate::json::{lemma_array_view, values_of, Json, JsonValue};
use vstd::prelude::*;

verus! {

/// The reviews of an "insertReviews" call, one row each.
#[derive(Default, Debug, Clone, PartialEq, Eq)]
pub struct InsertReviewsRequest {
    data: Vec<InsertReviewsData>,
}

/// One review, as the database holds it.
#[derive(Default, Debug, Clone, PartialEq, Eq)]
pub struct InsertReviewsData {
    review_time: usize,
    card_id: usize,
    usn: isize,
    button_pressed: usize,
    new_interval: isize,
    previous_interval: isize,
    new_factor: usize,
    review_duration: usize,
    review_type: usize,
}

impl InsertReviewsData {
    /// The nine numbers of the review, in the order of the database's
    /// columns: time of the review, card, update sequence number, button
    /// pressed, new interval, previous interval, new factor, duration, type.
    pub closed spec fn columns(&self) -> Seq<int> {
        seq![
            self.review_time as int,
            self.card_id as int,
            self.usn as int,
            self.button_pressed as int,
            self.new_interval as int,
            self.previous_interval as int,
            self.new_factor as int,
            self.review_duration as int,
            self.review_type as int,
        ]
    }
}

/// Written as the array of its nine numbers.
impl ToJson for InsertReviewsData {
    open spec fn json_model(&self) -> JsonValue {
        JsonValue::Array(Seq::new(9, |i: int| JsonValue::Integer(self.columns()[i])))
    }

    fn to_value(&self) -> (r: Json) {
        let mut items: Vec<Json> = Vec::new();
        items.push(self.review_time.to_value());
        items.push(self.card_id.to_value());
        items.push(self.usn.to_value());
        items.push(self.button_pressed.to_value());
        items.push(self.new_interval.to_value());
        items.push(self.previous_interval.to_value());
        items.push(self.new_factor.to_value());
        items.push(self.review_duration.to_value());
        items.push(self.review_type.to_value());
        proof {
            lemma_array_view(items);
            assert(values_of(items@) =~= self.json_model()->Array_0);
        }
        Json::Array(items)
    }
}

} // verus!
