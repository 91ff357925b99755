use anki_bridge::wire::{parse, render};
use anki_bridge::{Error, Json};

fn read(text: &str) -> Json {
    parse(text.as_bytes()).unwrap()
}

fn written(json: &Json) -> String {
    String::from_utf8(render(json)).unwrap()
}

#[test]
fn parse_reads_every_kind_of_value() {
    assert_eq!(read("null"), Json::Null);
    assert_eq!(read("true"), Json::Bool(true));
    assert_eq!(read("false"), Json::Bool(false));
    assert_eq!(read("0"), Json::Unsigned(0));
    assert_eq!(read("42"), Json::Unsigned(42));
    assert_eq!(read("18446744073709551615"), Json::Unsigned(u64::MAX));
    assert_eq!(read("-1"), Json::Signed(-1));
    assert_eq!(read("-9223372036854775808"), Json::Signed(i64::MIN));
    assert_eq!(read("1.5"), Json::Real("1.5".to_string()));
    assert_eq!(read("-0.25"), Json::Real("-0.25".to_string()));
    assert_eq!(read("\"a\\nb\""), Json::Text("a\nb".to_string()));
    assert_eq!(read("[]"), Json::Array(vec![]));
    assert_eq!(read("{}"), Json::Object(vec![]));
    assert_eq!(
        read(" [1, [2, \"x\"], {\"k\": null}] "),
        Json::Array(vec![
            Json::Unsigned(1),
            Json::Array(vec![Json::Unsigned(2), Json::Text("x".to_string())]),
            Json::Object(vec![("k".to_string(), Json::Null)]),
        ])
    );
}

#[test]
fn parse_keeps_numbers_beyond_64_bits_as_literals() {
    match read("18446744073709551616") {
        Json::Real(literal) => assert_eq!(literal, "1.8446744073709552e+19"),
        other => panic!("{:?}", other),
    }
    match read("1e3") {
        Json::Real(literal) => assert_eq!(literal, "1000.0"),
        other => panic!("{:?}", other),
    }
}

#[test]
fn parse_keeps_the_order_of_members() {
    assert_eq!(
        read("{\"b\":1,\"a\":2,\"c\":3}"),
        Json::Object(vec![
            ("b".to_string(), Json::Unsigned(1)),
            ("a".to_string(), Json::Unsigned(2)),
            ("c".to_string(), Json::Unsigned(3)),
        ])
    );
}

#[test]
fn parse_folds_a_repeated_key() {
    assert_eq!(
        read("{\"a\":1,\"b\":2,\"a\":3}"),
        Json::Object(vec![
            ("a".to_string(), Json::Unsigned(3)),
            ("b".to_string(), Json::Unsigned(2)),
        ])
    );
}

#[test]
fn parse_refuses_what_is_no_json() {
    for text in ["", "nul", "{\"a\"}", "[1,]", "01", "'a'", "{\"a\":1}x"] {
        match parse(text.as_bytes()) {
            Err(Error::Serde(reason)) => assert!(!reason.is_empty(), "{}", text),
            other => panic!("{:?} for {:?}", other, text),
        }
    }
    assert_eq!(
        parse(b"[1,]"),
        Err(Error::Serde("trailing comma at line 1 column 4".to_string()))
    );
    assert_eq!(
        parse(&[0xff, 0xfe]),
        Err(Error::Serde("expected value at line 1 column 1".to_string()))
    );
}

#[test]
fn render_writes_every_kind_of_value() {
    assert_eq!(written(&Json::Null), "null");
    assert_eq!(written(&Json::Bool(true)), "true");
    assert_eq!(written(&Json::Unsigned(42)), "42");
    assert_eq!(written(&Json::Unsigned(u64::MAX)), "18446744073709551615");
    assert_eq!(written(&Json::Signed(-7)), "-7");
    assert_eq!(written(&Json::Signed(7)), "7");
    assert_eq!(written(&Json::Real("1.5".to_string())), "1.5");
    assert_eq!(written(&Json::Text("a\"b\n".to_string())), "\"a\\\"b\\n\"");
    assert_eq!(written(&Json::Array(vec![])), "[]");
    assert_eq!(written(&Json::Object(vec![])), "{}");
    assert_eq!(
        written(&Json::Object(vec![
            ("b".to_string(), Json::Array(vec![Json::Unsigned(1), Json::Null])),
            ("a".to_string(), Json::Text("x".to_string())),
        ])),
        "{\"b\":[1,null],\"a\":\"x\"}"
    );
}

#[test]
fn render_writes_null_for_a_literal_that_is_no_number() {
    assert_eq!(written(&Json::Real("one".to_string())), "null");
    assert_eq!(written(&Json::Real(String::new())), "null");
}

#[test]
fn render_keeps_the_last_value_of_a_repeated_key() {
    assert_eq!(
        written(&Json::Object(vec![
            ("a".to_string(), Json::Unsigned(1)),
            ("b".to_string(), Json::Unsigned(2)),
            ("a".to_string(), Json::Unsigned(3)),
        ])),
        "{\"a\":3,\"b\":2}"
    );
}

#[test]
fn render_then_parse_gives_the_value_back() {
    for value in [
        Json::Null,
        Json::Bool(false),
        Json::Unsigned(9),
        Json::Signed(-9),
        Json::Real("2.5".to_string()),
        Json::Text("\u{0}\u{7f}\u{e9}\\".to_string()),
        Json::Array(vec![Json::Array(vec![]), Json::Object(vec![])]),
        Json::Object(vec![
            ("z".to_string(), Json::Unsigned(1)),
            ("a".to_string(), Json::Object(vec![("z".to_string(), Json::Null)])),
        ]),
    ] {
        assert_eq!(parse(&render(&value)), Ok(value));
    }
}

#[test]
fn get_finds_the_last_member_of_a_key() {
    let value = Json::Object(vec![
        ("a".to_string(), Json::Unsigned(1)),
        ("b".to_string(), Json::Unsigned(2)),
        ("a".to_string(), Json::Unsigned(3)),
    ]);
    assert_eq!(value.get("a"), Some(&Json::Unsigned(3)));
    assert_eq!(value.get("b"), Some(&Json::Unsigned(2)));
    assert_eq!(value.get("c"), None);
    assert_eq!(value.get(""), None);
    assert_eq!(Json::Array(vec![Json::Null]).get("a"), None);
    assert_eq!(Json::Null.get("a"), None);
}

#[test]
fn is_null_holds_of_null_only() {
    assert!(Json::Null.is_null());
    assert!(!Json::Bool(false).is_null());
    assert!(!Json::Unsigned(0).is_null());
    assert!(!Json::Text(String::new()).is_null());
    assert!(!Json::Array(vec![]).is_null());
    assert!(!Json::Object(vec![]).is_null());
}

#[test]
fn numbers_are_read_within_their_range() {
    assert_eq!(Json::Unsigned(5).as_u64(), Some(5));
    assert_eq!(Json::Signed(5).as_u64(), Some(5));
    assert_eq!(Json::Signed(-5).as_u64(), None);
    assert_eq!(Json::Unsigned(5).as_i64(), Some(5));
    assert_eq!(Json::Unsigned(i64::MAX as u64).as_i64(), Some(i64::MAX));
    assert_eq!(Json::Unsigned(i64::MAX as u64 + 1).as_i64(), None);
    assert_eq!(Json::Signed(i64::MIN).as_i64(), Some(i64::MIN));
    assert_eq!(Json::Unsigned(7).as_usize(), Some(7));
    assert_eq!(Json::Signed(-1).as_usize(), None);
    assert_eq!(Json::Signed(-1).as_isize(), Some(-1));
    assert_eq!(Json::Unsigned(u64::MAX).as_isize(), None);
    assert_eq!(Json::Real("1.0".to_string()).as_u64(), None);
    assert_eq!(Json::Real("1.0".to_string()).as_i64(), None);
    assert_eq!(Json::Text("1".to_string()).as_usize(), None);
    assert_eq!(Json::Null.as_isize(), None);
}

#[test]
fn accessors_tell_the_kinds_apart() {
    assert_eq!(Json::Bool(true).as_bool(), Some(true));
    assert_eq!(Json::Unsigned(1).as_bool(), None);
    assert_eq!(Json::Text("x".to_string()).as_str(), Some("x"));
    assert_eq!(Json::Null.as_str(), None);
    let items = vec![Json::Null, Json::Bool(true)];
    assert_eq!(Json::Array(items.clone()).as_array(), Some(&items));
    assert_eq!(Json::Object(vec![]).as_array(), None);
    let members = vec![("k".to_string(), Json::Null)];
    assert_eq!(Json::Object(members.clone()).as_object(), Some(&members));
    assert_eq!(Json::Array(vec![]).as_object(), None);
}

#[test]
fn clone_copies_the_whole_tree() {
    let value = Json::Object(vec![
        ("a".to_string(), Json::Array(vec![Json::Unsigned(1), Json::Signed(-1)])),
        ("b".to_string(), Json::Real("0.5".to_string())),
        ("c".to_string(), Json::Text("x".to_string())),
        ("d".to_string(), Json::Bool(true)),
        ("e".to_string(), Json::Null),
    ]);
    assert_eq!(value.clone(), value);
    assert_eq!(Json::default(), Json::Null);
}
