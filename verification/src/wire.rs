//! JSON text: reading bytes into a [`Json`] and writing one out.
//!
//! The grammar is `serde_json`'s, built with `preserve_order`, so that the
//! members of an object stay in the order of the text. The items of this
//! module are the only ones that call it, and what they state of it is taken
//! on trust.

use crate::error::Error;
use crate::json::{Json, JsonValue};
use serde_json::{Number, Value};
use vstd::prelude::*;

verus! {

/// `serde_json::Value`: what `serde_json` reads JSON text into and writes it
/// from. A value of it only passes between the calls below.
#[verifier::external_type_specification]
#[verifier::external_body]
pub struct ExValue(Value);

/// What `serde_json::from_slice` makes of `bytes` when it is asked for a
/// `serde_json::Value`: the model of that value, or the text of its error.
pub uninterp spec fn json_parsed(bytes: Seq<u8>) -> Result<JsonValue, Seq<char>>;

/// The bytes that `serde_json::to_vec` writes for a `serde_json::Value` with
/// this model.
pub uninterp spec fn json_text(value: JsonValue) -> Seq<u8>;

/// Moves a `serde_json::Value` into a [`Json`], variant by variant. A number
/// becomes `Unsigned` where `as_u64` gives it, else `Signed` where `as_i64`
/// gives it, else `Real` with the literal that its `Display` writes. Nothing
/// is claimed of the result: only [`read_json`] calls this.
#[verifier::external_body]
fn lift(value: Value) -> Json {
    match value {
        Value::Null => Json::Null,
        Value::Bool(b) => Json::Bool(b),
        Value::Number(n) => match (n.as_u64(), n.as_i64()) {
            (Some(u), _) => Json::Unsigned(u),
            (None, Some(i)) => Json::Signed(i),
            (None, None) => Json::Real(n.to_string()),
        },
        Value::String(text) => Json::Text(text),
        Value::Array(items) => Json::Array(items.into_iter().map(lift).collect()),
        Value::Object(map) => Json::Object(map.into_iter().map(|(k, v)| (k, lift(v))).collect()),
    }
}

/// Moves a [`Json`] into a `serde_json::Value`, variant by variant. The
/// literal of a `Real` goes through `Number::from_str`, and one that it
/// refuses becomes `Value::Null`. The members of an object are collected into
/// a `serde_json::Map`, which keeps the first place and the last value of a
/// key that occurs twice. Nothing is claimed of the result: only
/// [`write_json`] calls this.
#[verifier::external_body]
fn lower(json: &Json) -> Value {
    match json {
        Json::Null => Value::Null,
        Json::Bool(b) => Value::Bool(*b),
        Json::Unsigned(n) => Value::from(*n),
        Json::Signed(n) => Value::from(*n),
        Json::Real(literal) => literal.parse::<Number>().map_or(Value::Null, Value::Number),
        Json::Text(text) => Value::String(text.clone()),
        Json::Array(items) => Value::Array(items.iter().map(lower).collect()),
        Json::Object(members) => Value::Object(
            members.iter().map(|(k, v)| (k.clone(), lower(v))).collect(),
        ),
    }
}

/// Calls `serde_json::from_slice` for a `serde_json::Value`. The contract
/// says that the outcome depends on the bytes alone, and gives it its name:
/// the value read, or the text that `serde_json::Error` displays.
#[verifier::external_body]
fn read_json(bytes: &[u8]) -> (r: Result<Json, String>)
    ensures
        match r {
            Ok(json) => json_parsed(bytes@) == Ok::<JsonValue, Seq<char>>(json@),
            Err(message) => json_parsed(bytes@) == Err::<JsonValue, Seq<char>>(message@),
        },
{
    serde_json::from_slice::<Value>(bytes).map(lift).map_err(|e| e.to_string())
}

/// Calls `serde_json::to_vec` on the `serde_json::Value` that stands for
/// `json`. Writing a `Value` does not fail. The contract says that the bytes
/// depend on the model of `json` alone, and gives them their name.
#[verifier::external_body]
fn write_json(json: &Json) -> (r: Vec<u8>)
    ensures
        r@ == json_text(json@),
{
    serde_json::to_vec(&lower(json)).unwrap_or_default()
}

/// Reads JSON text.
///
/// Gives the value that the text denotes, or `Error::Serde` with the reason
/// why the bytes are no JSON text.
pub fn parse(bytes: &[u8]) -> (r: Result<Json, Error>)
    ensures
        match json_parsed(bytes@) {
            Ok(value) => r matches Ok(json) && json@ == value,
            Err(reason) => r matches Err(Error::Serde(message)) && message@ == reason,
        },
{
    match read_json(bytes) {
        Ok(json) => Ok(json),
        Err(message) => Err(Error::Serde(message)),
    }
}

/// Writes a value as JSON text, without blanks between the tokens.
pub fn render(json: &Json) -> (r: Vec<u8>)
    ensures
        r@ == json_text(json@),
{
    write_json(json)
}

} // verus!
