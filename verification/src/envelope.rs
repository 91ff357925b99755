//! The two envelopes of the protocol.
//!
//! A request is the object `{"action": .., "version": .., "params": ..}`, in
//! which `params` is left out when the payload is `null`. A reply is an
//! object with an optional `result` and an optional `error`; other members
//! are ignored.

use crate::error::Error;
use crate::json::{lemma_lookup_push, lemma_object_view, members_of, Json, JsonValue};
use crate::wire::{json_parsed, parse};
use vstd::prelude::*;

verus! {

/// The reason given when a reply is no JSON object.
pub const NOT_AN_OBJECT: &'static str = "the reply is not an object";

/// The reason given when the `error` of a reply is neither text nor `null`.
pub const ERROR_NOT_TEXT: &'static str = "the error of the reply is not a string";

/// The request envelope for an action: `action` and `version` always, and
/// `params` exactly when the payload is not `null`.
pub open spec fn envelope(action: Seq<char>, version: u8, params: JsonValue) -> JsonValue {
    if params == JsonValue::Null {
        JsonValue::Object(
            seq![
                ("action"@, JsonValue::Text(action)),
                ("version"@, JsonValue::Integer(version as int)),
            ],
        )
    } else {
        JsonValue::Object(
            seq![
                ("action"@, JsonValue::Text(action)),
                ("version"@, JsonValue::Integer(version as int)),
                ("params"@, params),
            ],
        )
    }
}

/// The three keys of a request envelope differ from each other.
proof fn lemma_request_keys()
    ensures
        "action"@ != "version"@,
        "action"@ != "params"@,
        "version"@ != "params"@,
{
    reveal_strlit("action");
    reveal_strlit("version");
    reveal_strlit("params");
    assert("action"@.len() == 6);
    assert("version"@.len() == 7);
    assert("action"@[0] == 'a');
    assert("params"@[0] == 'p');
}

/// Every envelope names its action and its version.
pub proof fn law_envelope_names_the_action(action: Seq<char>, version: u8, params: JsonValue)
    ensures
        envelope(action, version, params).get("action"@) == Some(JsonValue::Text(action)),
        envelope(action, version, params).get("version"@) == Some(
            JsonValue::Integer(version as int),
        ),
{
    lemma_request_keys();
    let first = (seq![("action"@, JsonValue::Text(action))]);
    let second = first.push(("version"@, JsonValue::Integer(version as int)));
    let third = second.push(("params"@, params));
    assert(first =~= Seq::empty().push(("action"@, JsonValue::Text(action))));
    lemma_lookup_push(Seq::empty(), "action"@, JsonValue::Text(action), "action"@);
    lemma_lookup_push(Seq::empty(), "action"@, JsonValue::Text(action), "version"@);
    lemma_lookup_push(first, "version"@, JsonValue::Integer(version as int), "action"@);
    lemma_lookup_push(first, "version"@, JsonValue::Integer(version as int), "version"@);
    lemma_lookup_push(second, "params"@, params, "action"@);
    lemma_lookup_push(second, "params"@, params, "version"@);
    if params == JsonValue::Null {
        assert(envelope(action, version, params)->Object_0 =~= second);
    } else {
        assert(envelope(action, version, params)->Object_0 =~= third);
    }
}

/// A payload that is `null` leaves no `params` member in the envelope.
pub proof fn law_null_params_are_omitted(action: Seq<char>, version: u8, params: JsonValue)
    requires
        params == JsonValue::Null,
    ensures
        !envelope(action, version, params).has("params"@),
{
    lemma_request_keys();
    let first = (seq![("action"@, JsonValue::Text(action))]);
    let second = first.push(("version"@, JsonValue::Integer(version as int)));
    assert(first =~= Seq::empty().push(("action"@, JsonValue::Text(action))));
    lemma_lookup_push(Seq::empty(), "action"@, JsonValue::Text(action), "params"@);
    lemma_lookup_push(first, "version"@, JsonValue::Integer(version as int), "params"@);
    assert(envelope(action, version, params)->Object_0 =~= second);
}

/// A payload that is not `null` stands in the envelope under `params`, as it
/// is.
pub proof fn law_params_are_included(action: Seq<char>, version: u8, params: JsonValue)
    requires
        params != JsonValue::Null,
    ensures
        envelope(action, version, params).get("params"@) == Some(params),
{
    let first = (seq![("action"@, JsonValue::Text(action))]);
    let second = first.push(("version"@, JsonValue::Integer(version as int)));
    lemma_lookup_push(second, "params"@, params, "params"@);
    assert(envelope(action, version, params)->Object_0 =~= second.push(("params"@, params)));
}

/// Builds the request envelope for a payload that is already a JSON value.
pub fn encode(action: &str, version: u8, params: Json) -> (r: Json)
    ensures
        r@ == envelope(action@, version, params@),
        params@ == JsonValue::Null ==> !r@.has("params"@),
        params@ != JsonValue::Null ==> r@.get("params"@) == Some(params@),
{
    let mut members: Vec<(String, Json)> = Vec::new();
    members.push(("action".to_owned(), Json::Text(action.to_owned())));
    members.push(("version".to_owned(), Json::Unsigned(version as u64)));
    if !params.is_null() {
        members.push(("params".to_owned(), params));
    }
    proof {
        lemma_object_view(members);
        assert(members_of(members@) =~= envelope(action@, version, params@)->Object_0);
        if params@ == JsonValue::Null {
            law_null_params_are_omitted(action@, version, params@);
        } else {
            law_params_are_included(action@, version, params@);
        }
    }
    Json::Object(members)
}

/// A reply as contracts see it: the result and the error message, each
/// present or not.
pub struct ReplyModel {
    pub result: Option<JsonValue>,
    pub error: Option<Seq<char>>,
}

/// A reply envelope, taken apart.
///
/// A well-formed reply has one of the two; both may be missing, and then the
/// call has succeeded without data.
#[derive(Debug, PartialEq, Eq)]
pub struct AnkiConnectResponse {
    /// The result of the call, if the reply has one that is not `null`.
    pub result: Option<Json>,
    /// The error message, if the reply has one.
    pub error: Option<String>,
}

impl View for AnkiConnectResponse {
    type V = ReplyModel;

    open spec fn view(&self) -> ReplyModel {
        ReplyModel {
            result: match self.result {
                Some(json) => Some(json@),
                None => None,
            },
            error: match self.error {
                Some(message) => Some(message@),
                None => None,
            },
        }
    }
}

/// Why `value` is no reply envelope, if it is none: it is no object, or its
/// `error` is something other than text or `null`.
pub open spec fn shape_fault(value: JsonValue) -> Option<Seq<char>> {
    if !(value is Object) {
        Some(NOT_AN_OBJECT@)
    } else {
        match value.get("error"@) {
            None => None,
            Some(JsonValue::Null) => None,
            Some(JsonValue::Text(_)) => None,
            Some(_) => Some(ERROR_NOT_TEXT@),
        }
    }
}

/// What a reply envelope holds. A member that is missing and one that is
/// `null` both count as absent.
pub open spec fn reply_of(value: JsonValue) -> ReplyModel {
    ReplyModel {
        result: match value.get("result"@) {
            None => None,
            Some(JsonValue::Null) => None,
            Some(result) => Some(result),
        },
        error: match value.get("error"@) {
            Some(JsonValue::Text(message)) => Some(message),
            _ => None,
        },
    }
}

/// The reply envelope that carries `reply`: an absent member is written as
/// `null`.
pub open spec fn reply_envelope(reply: ReplyModel) -> JsonValue {
    JsonValue::Object(
        seq![
            (
                "result"@,
                match reply.result {
                    Some(result) => result,
                    None => JsonValue::Null,
                },
            ),
            (
                "error"@,
                match reply.error {
                    Some(message) => JsonValue::Text(message),
                    None => JsonValue::Null,
                },
            ),
        ],
    )
}

/// Taking apart the envelope that was built for a reply gives the reply
/// back, whatever of result and error it holds, as long as the result is not
/// `null` itself: a `null` result is read as none.
pub proof fn law_reply_round_trip(reply: ReplyModel)
    requires
        reply.result != Some(JsonValue::Null),
    ensures
        shape_fault(reply_envelope(reply)) is None,
        reply_of(reply_envelope(reply)) == reply,
{
    reveal_strlit("result");
    reveal_strlit("error");
    assert("result"@.len() == 6);
    assert("error"@.len() == 5);
    let result = match reply.result {
        Some(result) => result,
        None => JsonValue::Null,
    };
    let error = match reply.error {
        Some(message) => JsonValue::Text(message),
        None => JsonValue::Null,
    };
    let first = (seq![("result"@, result)]);
    assert(first =~= Seq::empty().push(("result"@, result)));
    lemma_lookup_push(Seq::empty(), "result"@, result, "result"@);
    lemma_lookup_push(Seq::empty(), "result"@, result, "error"@);
    lemma_lookup_push(first, "error"@, error, "result"@);
    lemma_lookup_push(first, "error"@, error, "error"@);
    assert(reply_envelope(reply)->Object_0 =~= first.push(("error"@, error)));
}

/// Builds the reply envelope for a result and an error message.
pub fn encode_reply(result: Option<Json>, error: Option<String>) -> (r: Json)
    ensures
        r@ == reply_envelope((AnkiConnectResponse { result, error })@),
{
    let ghost reply = (AnkiConnectResponse { result, error })@;
    let mut members: Vec<(String, Json)> = Vec::new();
    let result_member = match result {
        Some(json) => json,
        None => Json::Null,
    };
    let error_member = match error {
        Some(message) => Json::Text(message),
        None => Json::Null,
    };
    members.push(("result".to_owned(), result_member));
    members.push(("error".to_owned(), error_member));
    proof {
        lemma_object_view(members);
        assert(members_of(members@) =~= reply_envelope(reply)->Object_0);
    }
    Json::Object(members)
}

/// Takes a reply envelope apart.
///
/// Fails with `Error::Serde` exactly when `value` is no reply envelope, and
/// says why.
pub fn decode_value(value: &Json) -> (r: Result<AnkiConnectResponse, Error>)
    ensures
        match shape_fault(value@) {
            None => r matches Ok(reply) && reply@ == reply_of(value@),
            Some(reason) => r matches Err(Error::Serde(message)) && message@ == reason,
        },
{
    if value.as_object().is_none() {
        return Err(Error::Serde(NOT_AN_OBJECT.to_owned()));
    }
    let error = match value.get("error") {
        None => None,
        Some(member) => match member {
            Json::Null => None,
            Json::Text(message) => Some(message.clone()),
            _ => {
                return Err(Error::Serde(ERROR_NOT_TEXT.to_owned()));
            },
        },
    };
    let result = match value.get("result") {
        None => None,
        Some(member) => if member.is_null() {
            None
        } else {
            Some(member.clone())
        },
    };
    Ok(AnkiConnectResponse { result, error })
}

/// What the bytes of a reply hold: the reply, or the reason why they are no
/// reply envelope.
pub open spec fn decoded(body: Seq<u8>) -> Result<ReplyModel, Seq<char>> {
    match json_parsed(body) {
        Err(reason) => Err(reason),
        Ok(value) => match shape_fault(value) {
            Some(reason) => Err(reason),
            None => Ok(reply_of(value)),
        },
    }
}

/// Reads the bytes of a reply and takes the envelope apart.
///
/// Fails with `Error::Serde` when the bytes are no JSON text or the text is
/// no reply envelope.
pub fn decode(body: &[u8]) -> (r: Result<AnkiConnectResponse, Error>)
    ensures
        match decoded(body@) {
            Ok(reply) => r matches Ok(taken) && taken@ == reply,
            Err(reason) => r matches Err(Error::Serde(message)) && message@ == reason,
        },
{
    match parse(body) {
        Ok(value) => decode_value(&value),
        Err(error) => Err(error),
    }
}

} // verus!
