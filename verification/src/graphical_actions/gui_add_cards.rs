use crate::codec::{field, field_decodes, field_fits, member, object, FromJson, ToJson};
use crate::json::{members_of, Json, JsonValue};
use crate::request::AnkiRequest;
use vstd::prelude::*;

verus! {

/// Parameters for adding cards using the Add Cards dialog.
#[derive(Debug, Clone, PartialEq, Eq)]
pub struct GuiAddCardsRequest {
    /// The note to add using the Add Cards dialog.
    pub note: GuiAddCardsNote,
}

/// A note for adding cards using the Add Cards dialog.
#[derive(Debug, Clone, PartialEq, Eq)]
pub struct GuiAddCardsNote {
    /// The deck name for the note.
    pub deck_name: String,
    /// The model name for the note.
    pub model_name: String,
    /// The fields of the note.
    pub fields: GuiAddCardsNoteFields,
    /// The tags of the note.
    pub tags: Vec<String>,
    /// The pictures attached to the note.
    pub picture: Vec<GuiAddCardsNotePicture>,
}

/// Fields of the note for adding cards using the Add Cards dialog.
#[derive(Debug, Clone, PartialEq, Eq)]
pub struct GuiAddCardsNoteFields {
    /// The "Text" field of the note.
    pub text: String,
    /// The "Extra" field of the note.
    pub extra: String,
}

/// Picture attached to the note for adding cards using the Add Cards dialog.
#[derive(Debug, Clone, PartialEq, Eq)]
pub struct GuiAddCardsNotePicture {
    /// The URL of the picture.
    pub url: String,
    /// The filename of the picture.
    pub filename: String,
    /// The fields associated with the picture.
    pub fields: Vec<String>,
}

/// Written as an object with one member for each field, under the names
/// of the protocol.
impl ToJson for GuiAddCardsNoteFields {
    open spec fn json_model(&self) -> JsonValue {
        JsonValue::Object(
            seq![
                ("Text"@, self.text.json_model()),
                ("Extra"@, self.extra.json_model()),
            ],
        )
    }

    fn to_value(&self) -> (r: Json) {
        let mut members: Vec<(String, Json)> = Vec::new();
        members.push(member("Text", &self.text));
        members.push(member("Extra", &self.extra));
        assert(members_of(members@) =~= self.json_model()->Object_0);
        object(members)
    }
}

/// Read from an object. Every member has to be there and to fit; members
/// with other names are passed over.
impl FromJson for GuiAddCardsNoteFields {
    open spec fn fits(value: JsonValue) -> bool {
        &&& field_fits::<String>(value, "Text"@)
        &&& field_fits::<String>(value, "Extra"@)
    }

    open spec fn decodes(value: JsonValue, decoded: GuiAddCardsNoteFields) -> bool {
        &&& field_decodes::<String>(value, "Text"@, decoded.text)
        &&& field_decodes::<String>(value, "Extra"@, decoded.extra)
    }

    fn from_json(json: &Json) -> (r: Option<GuiAddCardsNoteFields>) {
        let text = field::<String>(json, "Text")?;
        let extra = field::<String>(json, "Extra")?;
        Some(GuiAddCardsNoteFields { text, extra })
    }
}

impl Default for GuiAddCardsNoteFields {
    /// Two empty fields.
    fn default() -> (r: GuiAddCardsNoteFields)
        ensures
            r.text@.len() == 0,
            r.extra@.len() == 0,
    {
        GuiAddCardsNoteFields {
            text: String::new(),
            extra: String::new(),
        }
    }
}

/// Written as an object with one member for each field, under the names
/// of the protocol.
impl ToJson for GuiAddCardsNotePicture {
    open spec fn json_model(&self) -> JsonValue {
        JsonValue::Object(
            seq![
                ("url"@, self.url.json_model()),
                ("filename"@, self.filename.json_model()),
                ("fields"@, self.fields.json_model()),
            ],
        )
    }

    fn to_value(&self) -> (r: Json) {
        let mut members: Vec<(String, Json)> = Vec::new();
        members.push(member("url", &self.url));
        members.push(member("filename", &self.filename));
        members.push(member("fields", &self.fields));
        assert(members_of(members@) =~= self.json_model()->Object_0);
        object(members)
    }
}

/// Read from an object. Every member has to be there and to fit; members
/// with other names are passed over.
impl FromJson for GuiAddCardsNotePicture {
    open spec fn fits(value: JsonValue) -> bool {
        &&& field_fits::<String>(value, "url"@)
        &&& field_fits::<String>(value, "filename"@)
        &&& field_fits::<Vec<String>>(value, "fields"@)
    }

    open spec fn decodes(value: JsonValue, decoded: GuiAddCardsNotePicture) -> bool {
        &&& field_decodes::<String>(value, "url"@, decoded.url)
        &&& field_decodes::<String>(value, "filename"@, decoded.filename)
        &&& field_decodes::<Vec<String>>(value, "fields"@, decoded.fields)
    }

    fn from_json(json: &Json) -> (r: Option<GuiAddCardsNotePicture>) {
        let url = field::<String>(json, "url")?;
        let filename = field::<String>(json, "filename")?;
        let fields = field::<Vec<String>>(json, "fields")?;
        Some(GuiAddCardsNotePicture { url, filename, fields })
    }
}

impl Default for GuiAddCardsNotePicture {
    /// A picture without address, name and fields.
    fn default() -> (r: GuiAddCardsNotePicture)
        ensures
            r.url@.len() == 0,
            r.filename@.len() == 0,
            r.fields@.len() == 0,
    {
        GuiAddCardsNotePicture {
            url: String::new(),
            filename: String::new(),
            fields: Vec::new(),
        }
    }
}

/// Written as an object with one member for each field, under the names
/// of the protocol.
impl ToJson for GuiAddCardsNote {
    open spec fn json_model(&self) -> JsonValue {
        JsonValue::Object(
            seq![
                ("deckName"@, self.deck_name.json_model()),
                ("modelName"@, self.model_name.json_model()),
                ("fields"@, self.fields.json_model()),
                ("tags"@, self.tags.json_model()),
                ("picture"@, self.picture.json_model()),
            ],
        )
    }

    fn to_value(&self) -> (r: Json) {
        let mut members: Vec<(String, Json)> = Vec::new();
        members.push(member("deckName", &self.deck_name));
        members.push(member("modelName", &self.model_name));
        members.push(member("fields", &self.fields));
        members.push(member("tags", &self.tags));
        members.push(member("picture", &self.picture));
        assert(members_of(members@) =~= self.json_model()->Object_0);
        object(members)
    }
}

/// Read from an object. Every member has to be there and to fit; members
/// with other names are passed over.
impl FromJson for GuiAddCardsNote {
    open spec fn fits(value: JsonValue) -> bool {
        &&& field_fits::<String>(value, "deckName"@)
        &&& field_fits::<String>(value, "modelName"@)
        &&& field_fits::<GuiAddCardsNoteFields>(value, "fields"@)
        &&& field_fits::<Vec<String>>(value, "tags"@)
        &&& field_fits::<Vec<GuiAddCardsNotePicture>>(value, "picture"@)
    }

    open spec fn decodes(value: JsonValue, decoded: GuiAddCardsNote) -> bool {
        &&& field_decodes::<String>(value, "deckName"@, decoded.deck_name)
        &&& field_decodes::<String>(value, "modelName"@, decoded.model_name)
        &&& field_decodes::<GuiAddCardsNoteFields>(value, "fields"@, decoded.fields)
        &&& field_decodes::<Vec<String>>(value, "tags"@, decoded.tags)
        &&& field_decodes::<Vec<GuiAddCardsNotePicture>>(value, "picture"@, decoded.picture)
    }

    fn from_json(json: &Json) -> (r: Option<GuiAddCardsNote>) {
        let deck_name = field::<String>(json, "deckName")?;
        let model_name = field::<String>(json, "modelName")?;
        let fields = field::<GuiAddCardsNoteFields>(json, "fields")?;
        let tags = field::<Vec<String>>(json, "tags")?;
        let picture = field::<Vec<GuiAddCardsNotePicture>>(json, "picture")?;
        Some(GuiAddCardsNote { deck_name, model_name, fields, tags, picture })
    }
}

impl Default for GuiAddCardsNote {
    /// A note without content.
    fn default() -> (r: GuiAddCardsNote)
        ensures
            r.deck_name@.len() == 0,
            r.model_name@.len() == 0,
            r.fields.text@.len() == 0 && r.fields.extra@.len() == 0,
            r.tags@.len() == 0,
            r.picture@.len() == 0,
    {
        GuiAddCardsNote {
            deck_name: String::new(),
            model_name: String::new(),
            fields: GuiAddCardsNoteFields::default(),
            tags: Vec::new(),
            picture: Vec::new(),
        }
    }
}

/// Written as an object with one member for each field, under the names
/// of the protocol.
impl ToJson for GuiAddCardsRequest {
    open spec fn json_model(&self) -> JsonValue {
        JsonValue::Object(seq![("note"@, self.note.json_model())])
    }

    fn to_value(&self) -> (r: Json) {
        let mut members: Vec<(String, Json)> = Vec::new();
        members.push(member("note", &self.note));
        assert(members_of(members@) =~= self.json_model()->Object_0);
        object(members)
    }
}

impl Default for GuiAddCardsRequest {
    /// A request with a note without content.
    fn default() -> (r: GuiAddCardsRequest)
        ensures
            r.note.deck_name@.len() == 0,
            r.note.model_name@.len() == 0,
            r.note.fields.text@.len() == 0 && r.note.fields.extra@.len() == 0,
            r.note.tags@.len() == 0,
            r.note.picture@.len() == 0,
    {
        GuiAddCardsRequest { note: GuiAddCardsNote::default() }
    }
}

impl AnkiRequest for GuiAddCardsRequest {
    type Response = usize;

    const ACTION: &'static str = "guiAddCards";

    const VERSION: u8 = 6;
}

/// The name and the version under which a [`GuiAddCardsRequest`] is sent.
pub proof fn lemma_gui_add_cards_descriptor()
    ensures
        GuiAddCardsRequest::ACTION@ == "guiAddCards"@,
        GuiAddCardsRequest::VERSION == 6,
{
}

} // verus!
