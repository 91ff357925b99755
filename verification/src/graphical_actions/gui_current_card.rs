use crate::codec::{field, field_decodes, field_fits, member, object, FromJson, ToJson};
use crate::json::{members_of, Json, JsonValue};
use crate::keyed::distinct_keys;
use crate::request::AnkiRequest;
use vstd::prelude::*;

verus! {

/// Parameters for the "guiCurrentCard" action: none.
#[derive(Default, Debug, Clone, PartialEq, Eq)]
pub struct GuiCurrentCardRequest;

/// Written as `null`: the action takes no parameters.
impl ToJson for GuiCurrentCardRequest {
    open spec fn json_model(&self) -> JsonValue {
        JsonValue::Null
    }

    fn to_value(&self) -> (r: Json) {
        Json::Null
    }
}

/// Represents the current card being reviewed.
#[derive(Debug, Clone, PartialEq, Eq)]
pub struct GuiCurrentCardResponse {
    /// The answer of the current card.
    pub answer: String,
    /// The question of the current card.
    pub question: String,
    /// The deck name of the current card.
    pub deck_name: String,
    /// The model name of the current card.
    pub model_name: String,
    /// The field order of the current card.
    pub field_order: isize,
    /// The fields of the current card by name; no name occurs twice.
    pub fields: Vec<(String, GuiCurrentCardField)>,
    /// The CSS of the current card.
    pub css: String,
    /// The template of the current card.
    pub template: String,
    /// The ID of the current card.
    pub card_id: usize,
    /// The buttons associated with the current card.
    pub buttons: Vec<isize>,
    /// The next reviews for the current card.
    pub next_reviews: Vec<String>,
}

/// Represents a face of the fields of the current card being reviewed.
#[derive(Debug, Clone, PartialEq, Eq)]
pub struct GuiCurrentCardField {
    /// The value of the face.
    pub value: String,
    /// The order of the face.
    pub order: isize,
}

/// Written as an object with one member for each field, under the names
/// of the protocol.
impl ToJson for GuiCurrentCardField {
    open spec fn json_model(&self) -> JsonValue {
        JsonValue::Object(
            seq![
                ("value"@, self.value.json_model()),
                ("order"@, self.order.json_model()),
            ],
        )
    }

    fn to_value(&self) -> (r: Json) {
        let mut members: Vec<(String, Json)> = Vec::new();
        members.push(member("value", &self.value));
        members.push(member("order", &self.order));
        assert(members_of(members@) =~= self.json_model()->Object_0);
        object(members)
    }
}

/// Read from an object. Every member has to be there and to fit; members
/// with other names are passed over.
impl FromJson for GuiCurrentCardField {
    open spec fn fits(value: JsonValue) -> bool {
        &&& field_fits::<String>(value, "value"@)
        &&& field_fits::<isize>(value, "order"@)
    }

    open spec fn decodes(value: JsonValue, decoded: GuiCurrentCardField) -> bool {
        &&& field_decodes::<String>(value, "value"@, decoded.value)
        &&& field_decodes::<isize>(value, "order"@, decoded.order)
    }

    fn from_json(json: &Json) -> (r: Option<GuiCurrentCardField>) {
        let value = field::<String>(json, "value")?;
        let order = field::<isize>(json, "order")?;
        Some(GuiCurrentCardField { value, order })
    }
}

impl Default for GuiCurrentCardField {
    /// An empty face.
    fn default() -> (r: GuiCurrentCardField)
        ensures
            r.value@.len() == 0,
            r.order == 0,
    {
        GuiCurrentCardField {
            value: String::new(),
            order: 0,
        }
    }
}

/// Read from an object. Every member has to be there and to fit; members
/// with other names are passed over.
impl FromJson for GuiCurrentCardResponse {
    open spec fn fits(value: JsonValue) -> bool {
        &&& field_fits::<String>(value, "answer"@)
        &&& field_fits::<String>(value, "question"@)
        &&& field_fits::<String>(value, "deckName"@)
        &&& field_fits::<String>(value, "modelName"@)
        &&& field_fits::<isize>(value, "fieldOrder"@)
        &&& field_fits::<Vec<(String, GuiCurrentCardField)>>(value, "fields"@)
        &&& field_fits::<String>(value, "css"@)
        &&& field_fits::<String>(value, "template"@)
        &&& field_fits::<usize>(value, "cardId"@)
        &&& field_fits::<Vec<isize>>(value, "buttons"@)
        &&& field_fits::<Vec<String>>(value, "nextReviews"@)
    }

    open spec fn decodes(value: JsonValue, decoded: GuiCurrentCardResponse) -> bool {
        &&& field_decodes::<String>(value, "answer"@, decoded.answer)
        &&& field_decodes::<String>(value, "question"@, decoded.question)
        &&& field_decodes::<String>(value, "deckName"@, decoded.deck_name)
        &&& field_decodes::<String>(value, "modelName"@, decoded.model_name)
        &&& field_decodes::<isize>(value, "fieldOrder"@, decoded.field_order)
        &&& field_decodes::<Vec<(String, GuiCurrentCardField)>>(value, "fields"@, decoded.fields)
        &&& field_decodes::<String>(value, "css"@, decoded.css)
        &&& field_decodes::<String>(value, "template"@, decoded.template)
        &&& field_decodes::<usize>(value, "cardId"@, decoded.card_id)
        &&& field_decodes::<Vec<isize>>(value, "buttons"@, decoded.buttons)
        &&& field_decodes::<Vec<String>>(value, "nextReviews"@, decoded.next_reviews)
    }

    fn from_json(json: &Json) -> (r: Option<GuiCurrentCardResponse>) {
        let answer = field::<String>(json, "answer")?;
        let question = field::<String>(json, "question")?;
        let deck_name = field::<String>(json, "deckName")?;
        let model_name = field::<String>(json, "modelName")?;
        let field_order = field::<isize>(json, "fieldOrder")?;
        let fields = field::<Vec<(String, GuiCurrentCardField)>>(json, "fields")?;
        let css = field::<String>(json, "css")?;
        let template = field::<String>(json, "template")?;
        let card_id = field::<usize>(json, "cardId")?;
        let buttons = field::<Vec<isize>>(json, "buttons")?;
        let next_reviews = field::<Vec<String>>(json, "nextReviews")?;
        Some(
            GuiCurrentCardResponse {
                answer,
                question,
                deck_name,
                model_name,
                field_order,
                fields,
                css,
                template,
                card_id,
                buttons,
                next_reviews,
            },
        )
    }
}

impl GuiCurrentCardResponse {
    /// Whether `fields` is a map: no name occurs twice in it.
    pub open spec fn well_formed(&self) -> bool {
        distinct_keys(self.fields@)
    }

    /// What is read from a JSON value is well formed.
    pub proof fn lemma_decoded_is_well_formed(value: JsonValue, decoded: GuiCurrentCardResponse)
        requires
            Self::decodes(value, decoded),
        ensures
            decoded.well_formed(),
    {
    }
}

impl Default for GuiCurrentCardResponse {
    /// No card: empty texts, no fields, zeros.
    fn default() -> (r: GuiCurrentCardResponse)
        ensures
            r.well_formed(),
            r.answer@.len() == 0,
            r.question@.len() == 0,
            r.deck_name@.len() == 0,
            r.model_name@.len() == 0,
            r.field_order == 0,
            r.fields@.len() == 0,
            r.css@.len() == 0,
            r.template@.len() == 0,
            r.card_id == 0,
            r.buttons@.len() == 0,
            r.next_reviews@.len() == 0,
    {
        GuiCurrentCardResponse {
            answer: String::new(),
            question: String::new(),
            deck_name: String::new(),
            model_name: String::new(),
            field_order: 0,
            fields: Vec::new(),
            css: String::new(),
            template: String::new(),
            card_id: 0,
            buttons: Vec::new(),
            next_reviews: Vec::new(),
        }
    }
}

impl AnkiRequest for GuiCurrentCardRequest {
    type Response = GuiCurrentCardResponse;

    const ACTION: &'static str = "guiCurrentCard";

    const VERSION: u8 = 6;
}

/// The name and the version under which a [`GuiCurrentCardRequest`] is sent.
pub proof fn lemma_gui_current_card_descriptor()
    ensures
        GuiCurrentCardRequest::ACTION@ == "guiCurrentCard"@,
        GuiCurrentCardRequest::VERSION == 6,
{
}

} // verus!
