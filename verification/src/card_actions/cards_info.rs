use crate::codec::{field, field_decodes, field_fits, member, object, FromJson, ToJson};
use crate::json::{members_of, Json, JsonValue};
use crate::keyed::distinct_keys;
use crate::request::AnkiRequest;
use vstd::prelude::*;

verus! {

/// Parameters for retrieving information about cards.
#[derive(Default, Debug, Clone, PartialEq, Eq)]
pub struct CardsInfoRequest {
    /// The list of card IDs.
    pub cards: Vec<usize>,
}

/// Represents the information about a card.
#[derive(Debug, Clone, PartialEq, Eq)]
pub struct CardsInfoResponse {
    /// The answer side of the card.
    pub answer: String,
    /// The question side of the card.
    pub question: String,
    /// The name of the deck the card belongs to.
    pub deck_name: String,
    /// The name of the model (note type) of the card.
    pub model_name: String,
    /// The order of the fields.
    pub field_order: usize,
    /// The fields of the card by name; no name occurs twice.
    pub fields: Vec<(String, CardsInfoField)>,
    /// The CSS style applied to the card.
    pub css: String,
    /// The ID of the card.
    pub card_id: usize,
    /// The interval of the card.
    pub interval: usize,
    /// The ID of the note that the card belongs to.
    pub note: usize,
    /// The ordinal value of the card.
    pub ord: usize,
    /// The type of the card.
    pub type_field: usize,
    /// The queue of the card.
    pub queue: usize,
    /// The due date of the card.
    pub due: usize,
    /// The number of repetitions of the card.
    pub reps: usize,
    /// The number of lapses of the card.
    pub lapses: usize,
    /// The number of cards left in the card's queue.
    pub left: usize,
    /// The modification time of the card.
    pub mod_: usize,
}

/// Represents the facade of a card.
#[derive(Debug, Clone, PartialEq, Eq)]
pub struct CardsInfoField {
    /// The value of the facade.
    pub value: String,
    /// The order of the facade.
    pub order: usize,
}

/// Written as an object with one member for each field, under the names
/// of the protocol.
impl ToJson for CardsInfoRequest {
    open spec fn json_model(&self) -> JsonValue {
        JsonValue::Object(seq![("cards"@, self.cards.json_model())])
    }

    fn to_value(&self) -> (r: Json) {
        let mut members: Vec<(String, Json)> = Vec::new();
        members.push(member("cards", &self.cards));
        assert(members_of(members@) =~= self.json_model()->Object_0);
        object(members)
    }
}

/// Read from an object. Every member has to be there and to fit; members
/// with other names are passed over.
impl FromJson for CardsInfoField {
    open spec fn fits(value: JsonValue) -> bool {
        &&& field_fits::<String>(value, "value"@)
        &&& field_fits::<usize>(value, "order"@)
    }

    open spec fn decodes(value: JsonValue, decoded: CardsInfoField) -> bool {
        &&& field_decodes::<String>(value, "value"@, decoded.value)
        &&& field_decodes::<usize>(value, "order"@, decoded.order)
    }

    fn from_json(json: &Json) -> (r: Option<CardsInfoField>) {
        let value = field::<String>(json, "value")?;
        let order = field::<usize>(json, "order")?;
        Some(CardsInfoField { value, order })
    }
}

impl Default for CardsInfoField {
    /// An empty facade.
    fn default() -> (r: CardsInfoField)
        ensures
            r.value@.len() == 0,
            r.order == 0,
    {
        CardsInfoField {
            value: String::new(),
            order: 0,
        }
    }
}

/// Read from an object. Every member has to be there and to fit; members
/// with other names are passed over.
impl FromJson for CardsInfoResponse {
    open spec fn fits(value: JsonValue) -> bool {
        &&& field_fits::<String>(value, "answer"@)
        &&& field_fits::<String>(value, "question"@)
        &&& field_fits::<String>(value, "deckName"@)
        &&& field_fits::<String>(value, "modelName"@)
        &&& field_fits::<usize>(value, "fieldOrder"@)
        &&& field_fits::<Vec<(String, CardsInfoField)>>(value, "fields"@)
        &&& field_fits::<String>(value, "css"@)
        &&& field_fits::<usize>(value, "cardId"@)
        &&& field_fits::<usize>(value, "interval"@)
        &&& field_fits::<usize>(value, "note"@)
        &&& field_fits::<usize>(value, "ord"@)
        &&& field_fits::<usize>(value, "type"@)
        &&& field_fits::<usize>(value, "queue"@)
        &&& field_fits::<usize>(value, "due"@)
        &&& field_fits::<usize>(value, "reps"@)
        &&& field_fits::<usize>(value, "lapses"@)
        &&& field_fits::<usize>(value, "left"@)
        &&& field_fits::<usize>(value, "mod"@)
    }

    open spec fn decodes(value: JsonValue, decoded: CardsInfoResponse) -> bool {
        &&& field_decodes::<String>(value, "answer"@, decoded.answer)
        &&& field_decodes::<String>(value, "question"@, decoded.question)
        &&& field_decodes::<String>(value, "deckName"@, decoded.deck_name)
        &&& field_decodes::<String>(value, "modelName"@, decoded.model_name)
        &&& field_decodes::<usize>(value, "fieldOrder"@, decoded.field_order)
        &&& field_decodes::<Vec<(String, CardsInfoField)>>(value, "fields"@, decoded.fields)
        &&& field_decodes::<String>(value, "css"@, decoded.css)
        &&& field_decodes::<usize>(value, "cardId"@, decoded.card_id)
        &&& field_decodes::<usize>(value, "interval"@, decoded.interval)
        &&& field_decodes::<usize>(value, "note"@, decoded.note)
        &&& field_decodes::<usize>(value, "ord"@, decoded.ord)
        &&& field_decodes::<usize>(value, "type"@, decoded.type_field)
        &&& field_decodes::<usize>(value, "queue"@, decoded.queue)
        &&& field_decodes::<usize>(value, "due"@, decoded.due)
        &&& field_decodes::<usize>(value, "reps"@, decoded.reps)
        &&& field_decodes::<usize>(value, "lapses"@, decoded.lapses)
        &&& field_decodes::<usize>(value, "left"@, decoded.left)
        &&& field_decodes::<usize>(value, "mod"@, decoded.mod_)
    }

    fn from_json(json: &Json) -> (r: Option<CardsInfoResponse>) {
        let answer = field::<String>(json, "answer")?;
        let question = field::<String>(json, "question")?;
        let deck_name = field::<String>(json, "deckName")?;
        let model_name = field::<String>(json, "modelName")?;
        let field_order = field::<usize>(json, "fieldOrder")?;
        let fields = field::<Vec<(String, CardsInfoField)>>(json, "fields")?;
        let css = field::<String>(json, "css")?;
        let card_id = field::<usize>(json, "cardId")?;
        let interval = field::<usize>(json, "interval")?;
        let note = field::<usize>(json, "note")?;
        let ord = field::<usize>(json, "ord")?;
        let type_field = field::<usize>(json, "type")?;
        let queue = field::<usize>(json, "queue")?;
        let due = field::<usize>(json, "due")?;
        let reps = field::<usize>(json, "reps")?;
        let lapses = field::<usize>(json, "lapses")?;
        let left = field::<usize>(json, "left")?;
        let mod_ = field::<usize>(json, "mod")?;
        Some(
            CardsInfoResponse {
                answer,
                question,
                deck_name,
                model_name,
                field_order,
                fields,
                css,
                card_id,
                interval,
                note,
                ord,
                type_field,
                queue,
                due,
                reps,
                lapses,
                left,
                mod_,
            },
        )
    }
}

impl CardsInfoResponse {
    /// Whether `fields` is a map: no name occurs twice in it.
    pub open spec fn well_formed(&self) -> bool {
        distinct_keys(self.fields@)
    }

    /// What is read from a JSON value is well formed.
    pub proof fn lemma_decoded_is_well_formed(value: JsonValue, decoded: CardsInfoResponse)
        requires
            Self::decodes(value, decoded),
        ensures
            decoded.well_formed(),
    {
    }
}

impl Default for CardsInfoResponse {
    /// A card without content: empty texts, no fields, zeros.
    fn default() -> (r: CardsInfoResponse)
        ensures
            r.well_formed(),
            r.answer@.len() == 0,
            r.question@.len() == 0,
            r.deck_name@.len() == 0,
            r.model_name@.len() == 0,
            r.field_order == 0,
            r.fields@.len() == 0,
            r.css@.len() == 0,
            r.card_id == 0,
            r.interval == 0,
            r.note == 0,
            r.ord == 0,
            r.type_field == 0,
            r.queue == 0,
            r.due == 0,
            r.reps == 0,
            r.lapses == 0,
            r.left == 0,
            r.mod_ == 0,
    {
        CardsInfoResponse {
            answer: String::new(),
            question: String::new(),
            deck_name: String::new(),
            model_name: String::new(),
            field_order: 0,
            fields: Vec::new(),
            css: String::new(),
            card_id: 0,
            interval: 0,
            note: 0,
            ord: 0,
            type_field: 0,
            queue: 0,
            due: 0,
            reps: 0,
            lapses: 0,
            left: 0,
            mod_: 0,
        }
    }
}

impl AnkiRequest for CardsInfoRequest {
    type Response = Vec<CardsInfoResponse>;

    const ACTION: &'static str = "cardsInfo";

    const VERSION: u8 = 6;
}

/// The name and the version under which a [`CardsInfoRequest`] is sent.
pub proof fn lemma_cards_info_descriptor()
    ensures
        CardsInfoRequest::ACTION@ == "cardsInfo"@,
        CardsInfoRequest::VERSION == 6,
{
}

} // verus!
