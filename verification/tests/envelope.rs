use anki_bridge::card_actions::suspended::SuspendedRequest;
use anki_bridge::dispatch::request_body;
use anki_bridge::envelope::{
    decode, decode_value, encode, encode_reply, AnkiConnectResponse, ERROR_NOT_TEXT, NOT_AN_OBJECT,
};
use anki_bridge::miscellaneous_actions::reload_collection::ReloadCollectionRequest;
use anki_bridge::wire::{parse, render};
use anki_bridge::{AnkiRequest, Error, Json};

fn text(json: &Json) -> String {
    String::from_utf8(render(json)).unwrap()
}

#[test]
fn suspended_request_encodes_with_params() {
    let request = SuspendedRequest { card: 42 };
    assert_eq!(
        String::from_utf8(request_body(&request)).unwrap(),
        "{\"action\":\"suspended\",\"version\":6,\"params\":{\"card\":42}}"
    );
}

#[test]
fn unit_payload_encodes_without_params() {
    let request = ReloadCollectionRequest;
    assert_eq!(
        String::from_utf8(request_body(&request)).unwrap(),
        "{\"action\":\"reloadCollection\",\"version\":6}"
    );
}

#[test]
fn null_payload_leaves_no_params_member() {
    let wrapped = encode("sync", 6, Json::Null);
    assert_eq!(wrapped.get("params"), None);
    assert_eq!(wrapped.get("action"), Some(&Json::Text("sync".to_string())));
    assert_eq!(wrapped.get("version"), Some(&Json::Unsigned(6)));
    assert!(!text(&wrapped).contains("params"));
}

#[test]
fn payload_that_is_not_null_stands_under_params() {
    for params in [
        Json::Bool(false),
        Json::Unsigned(0),
        Json::Text(String::new()),
        Json::Array(vec![]),
        Json::Object(vec![]),
        Json::Object(vec![("card".to_string(), Json::Unsigned(42))]),
    ] {
        let wrapped = encode("anything", 5, params.clone());
        assert_eq!(wrapped.get("params"), Some(&params));
        assert_eq!(wrapped.get("version"), Some(&Json::Unsigned(5)));
    }
}

#[test]
fn empty_object_payload_is_kept() {
    let wrapped = encode("multi", 6, Json::Object(vec![]));
    assert_eq!(text(&wrapped), "{\"action\":\"multi\",\"version\":6,\"params\":{}}");
}

#[test]
fn to_json_is_the_envelope_of_the_descriptor() {
    let request = SuspendedRequest { card: 7 };
    assert_eq!(
        request.to_json(),
        Json::Object(vec![
            ("action".to_string(), Json::Text("suspended".to_string())),
            ("version".to_string(), Json::Unsigned(6)),
            (
                "params".to_string(),
                Json::Object(vec![("card".to_string(), Json::Unsigned(7))])
            ),
        ])
    );
    assert_eq!(SuspendedRequest::ACTION, "suspended");
    assert_eq!(SuspendedRequest::VERSION, 6);
}

#[test]
fn reply_with_result_round_trips() {
    for result in [
        Json::Bool(true),
        Json::Unsigned(17),
        Json::Signed(-3),
        Json::Text("x".to_string()),
        Json::Array(vec![Json::Unsigned(1), Json::Null]),
        Json::Object(vec![("a".to_string(), Json::Null)]),
    ] {
        let wrapped = encode_reply(Some(result.clone()), None);
        assert_eq!(
            decode_value(&wrapped),
            Ok(AnkiConnectResponse {
                result: Some(result.clone()),
                error: None
            })
        );
        assert_eq!(
            decode(&render(&wrapped)),
            Ok(AnkiConnectResponse {
                result: Some(result),
                error: None
            })
        );
    }
}

#[test]
fn reply_with_error_round_trips() {
    let wrapped = encode_reply(None, Some("deck was not found".to_string()));
    assert_eq!(text(&wrapped), "{\"result\":null,\"error\":\"deck was not found\"}");
    let expected = AnkiConnectResponse {
        result: None,
        error: Some("deck was not found".to_string()),
    };
    assert_eq!(decode_value(&wrapped), Ok(expected));
    let expected = AnkiConnectResponse {
        result: None,
        error: Some("deck was not found".to_string()),
    };
    assert_eq!(decode(&render(&wrapped)), Ok(expected));
}

#[test]
fn reply_with_neither_round_trips() {
    let wrapped = encode_reply(None, None);
    assert_eq!(text(&wrapped), "{\"result\":null,\"error\":null}");
    assert_eq!(
        decode_value(&wrapped),
        Ok(AnkiConnectResponse {
            result: None,
            error: None
        })
    );
}

#[test]
fn reply_with_both_keeps_both() {
    let wrapped = encode_reply(Some(Json::Unsigned(1)), Some("late".to_string()));
    assert_eq!(
        decode_value(&wrapped),
        Ok(AnkiConnectResponse {
            result: Some(Json::Unsigned(1)),
            error: Some("late".to_string())
        })
    );
}

#[test]
fn null_result_is_read_as_none() {
    let wrapped = encode_reply(Some(Json::Null), None);
    assert_eq!(
        decode_value(&wrapped),
        Ok(AnkiConnectResponse {
            result: None,
            error: None
        })
    );
}

#[test]
fn missing_members_are_absent() {
    assert_eq!(
        decode(b"{}"),
        Ok(AnkiConnectResponse {
            result: None,
            error: None
        })
    );
    assert_eq!(
        decode(b"{\"result\":[1,2]}"),
        Ok(AnkiConnectResponse {
            result: Some(Json::Array(vec![Json::Unsigned(1), Json::Unsigned(2)])),
            error: None
        })
    );
    assert_eq!(
        decode(b"{\"error\":\"no\"}"),
        Ok(AnkiConnectResponse {
            result: None,
            error: Some("no".to_string())
        })
    );
}

#[test]
fn other_members_are_ignored() {
    assert_eq!(
        decode(b" {\"id\": 7, \"result\": true, \"error\": null, \"more\": {\"result\": 1}} "),
        Ok(AnkiConnectResponse {
            result: Some(Json::Bool(true)),
            error: None
        })
    );
}

#[test]
fn reply_that_is_no_object_is_refused() {
    for body in ["null", "true", "17", "\"text\"", "[true, null]", "[]"] {
        assert_eq!(
            decode(body.as_bytes()),
            Err(Error::Serde(NOT_AN_OBJECT.to_string())),
            "{}",
            body
        );
    }
    assert_eq!(
        decode_value(&Json::Array(vec![])),
        Err(Error::Serde("the reply is not an object".to_string()))
    );
}

#[test]
fn error_that_is_no_text_is_refused() {
    for body in [
        "{\"result\":1,\"error\":5}",
        "{\"error\":false}",
        "{\"error\":[\"a\"]}",
        "{\"error\":{}}",
    ] {
        assert_eq!(
            decode(body.as_bytes()),
            Err(Error::Serde(ERROR_NOT_TEXT.to_string())),
            "{}",
            body
        );
    }
    assert_eq!(ERROR_NOT_TEXT, "the error of the reply is not a string");
}

#[test]
fn bytes_that_are_no_json_are_refused() {
    for body in ["", "{", "{\"result\":}", "nul", "{\"result\":1,}", "{} {}", "\u{0}"] {
        match decode(body.as_bytes()) {
            Err(Error::Serde(reason)) => assert!(!reason.is_empty()),
            other => panic!("{:?} for {:?}", other, body),
        }
    }
    assert_eq!(
        parse(b"{"),
        Err(Error::Serde(
            "EOF while parsing an object at line 1 column 1".to_string()
        ))
    );
}

#[test]
fn last_member_of_a_key_counts() {
    let value = Json::Object(vec![
        ("error".to_string(), Json::Text("first".to_string())),
        ("result".to_string(), Json::Unsigned(1)),
        ("error".to_string(), Json::Null),
        ("result".to_string(), Json::Unsigned(2)),
    ]);
    assert_eq!(
        decode_value(&value),
        Ok(AnkiConnectResponse {
            result: Some(Json::Unsigned(2)),
            error: None
        })
    );
    assert_eq!(
        decode(b"{\"result\":1,\"error\":\"a\",\"result\":null,\"error\":\"b\"}"),
        Ok(AnkiConnectResponse {
            result: None,
            error: Some("b".to_string())
        })
    );
}
