use anki_bridge::codec::{field, member, object};
use anki_bridge::keyed::parse_index;
use anki_bridge::wire::parse;
use anki_bridge::{FromJson, Json, ToJson};
use std::collections::HashMap;

fn read(text: &str) -> Json {
    parse(text.as_bytes()).unwrap()
}

#[test]
fn plain_values_are_written() {
    assert_eq!(true.to_value(), Json::Bool(true));
    assert_eq!(0usize.to_value(), Json::Unsigned(0));
    assert_eq!(usize::MAX.to_value(), Json::Unsigned(usize::MAX as u64));
    assert_eq!((-4isize).to_value(), Json::Signed(-4));
    assert_eq!("a".to_string().to_value(), Json::Text("a".to_string()));
    assert_eq!(
        vec![1usize, 2, 3].to_value(),
        Json::Array(vec![Json::Unsigned(1), Json::Unsigned(2), Json::Unsigned(3)])
    );
    assert_eq!(Vec::<String>::new().to_value(), Json::Array(vec![]));
    assert_eq!(Json::Bool(false).to_value(), Json::Bool(false));
    assert_eq!(
        vec![vec!["a".to_string()], vec![]].to_value(),
        Json::Array(vec![
            Json::Array(vec![Json::Text("a".to_string())]),
            Json::Array(vec![])
        ])
    );
}

#[test]
fn plain_values_are_read() {
    assert_eq!(bool::from_json(&Json::Bool(true)), Some(true));
    assert_eq!(bool::from_json(&Json::Unsigned(1)), None);
    assert_eq!(bool::from_json(&Json::Null), None);
    assert_eq!(usize::from_json(&Json::Unsigned(5)), Some(5));
    assert_eq!(usize::from_json(&Json::Signed(5)), Some(5));
    assert_eq!(usize::from_json(&Json::Signed(-5)), None);
    assert_eq!(usize::from_json(&Json::Real("5.0".to_string())), None);
    assert_eq!(usize::from_json(&Json::Text("5".to_string())), None);
    assert_eq!(isize::from_json(&Json::Signed(-5)), Some(-5));
    assert_eq!(isize::from_json(&Json::Unsigned(u64::MAX)), None);
    assert_eq!(String::from_json(&Json::Text("x".to_string())), Some("x".to_string()));
    assert_eq!(String::from_json(&Json::Null), None);
    assert_eq!(<()>::from_json(&Json::Null), Some(()));
    assert_eq!(<()>::from_json(&Json::Object(vec![])), None);
    assert_eq!(Json::from_json(&Json::Unsigned(1)), Some(Json::Unsigned(1)));
    assert_eq!(Json::from_json(&Json::Null), Some(Json::Null));
}

#[test]
fn arrays_are_read_item_by_item() {
    assert_eq!(Vec::<usize>::from_json(&read("[]")), Some(vec![]));
    assert_eq!(Vec::<usize>::from_json(&read("[3,1,2]")), Some(vec![3, 1, 2]));
    assert_eq!(Vec::<usize>::from_json(&read("[3,\"1\",2]")), None);
    assert_eq!(Vec::<usize>::from_json(&read("[3,1,null]")), None);
    assert_eq!(Vec::<usize>::from_json(&read("{}")), None);
    assert_eq!(Vec::<usize>::from_json(&read("3")), None);
    assert_eq!(
        Vec::<Vec<bool>>::from_json(&read("[[true],[],[false,true]]")),
        Some(vec![vec![true], vec![], vec![false, true]])
    );
}

#[test]
fn members_are_read_by_key() {
    let value = read("{\"a\":1,\"b\":\"x\",\"c\":null}");
    assert_eq!(field::<usize>(&value, "a"), Some(1));
    assert_eq!(field::<String>(&value, "b"), Some("x".to_string()));
    assert_eq!(field::<usize>(&value, "b"), None);
    assert_eq!(field::<usize>(&value, "c"), None);
    assert_eq!(field::<usize>(&value, "d"), None);
    assert_eq!(field::<()>(&value, "c"), Some(()));
    assert_eq!(field::<usize>(&read("[1]"), "a"), None);
}

#[test]
fn members_are_written_in_order() {
    let members = vec![member("b", &1usize), member("a", &"x".to_string())];
    assert_eq!(
        object(members),
        Json::Object(vec![
            ("b".to_string(), Json::Unsigned(1)),
            ("a".to_string(), Json::Text("x".to_string())),
        ])
    );
    assert_eq!(object(vec![]), Json::Object(vec![]));
}

#[test]
fn keys_are_read_as_indices() {
    assert_eq!(parse_index("0"), Some(0));
    assert_eq!(parse_index("7"), Some(7));
    assert_eq!(parse_index("1651445861967"), Some(1651445861967));
    assert_eq!(parse_index(&usize::MAX.to_string()), Some(usize::MAX));
    assert_eq!(parse_index("18446744073709551616"), None);
    assert_eq!(parse_index("99999999999999999999999"), None);
    assert_eq!(parse_index(""), None);
    assert_eq!(parse_index("00"), None);
    assert_eq!(parse_index("01"), None);
    assert_eq!(parse_index("-1"), None);
    assert_eq!(parse_index("+1"), None);
    assert_eq!(parse_index("1.0"), None);
    assert_eq!(parse_index("1e2"), None);
    assert_eq!(parse_index(" 1"), None);
    assert_eq!(parse_index("1a"), None);
    assert_eq!(parse_index("a"), None);
    assert_eq!(parse_index("\u{661}"), None);
    assert_eq!(parse_index("10"), Some(10));
    assert_eq!(parse_index("1000000"), Some(1000000));
}

#[test]
fn text_keyed_object_is_read_as_entries() {
    type Entries = Vec<(String, usize)>;
    assert_eq!(Entries::from_json(&read("{}")), Some(vec![]));
    assert_eq!(
        Entries::from_json(&read("{\"b\":1,\"a\":2}")),
        Some(vec![("b".to_string(), 1), ("a".to_string(), 2)])
    );
    assert_eq!(Entries::from_json(&read("{\"b\":1,\"a\":\"2\"}")), None);
    assert_eq!(Entries::from_json(&read("[]")), None);
    assert_eq!(Entries::from_json(&read("null")), None);
}

#[test]
fn text_keyed_object_keeps_one_entry_for_each_key() {
    type Entries = Vec<(String, usize)>;
    let value = Json::Object(vec![
        ("a".to_string(), Json::Unsigned(1)),
        ("b".to_string(), Json::Unsigned(2)),
        ("a".to_string(), Json::Unsigned(3)),
        ("c".to_string(), Json::Unsigned(4)),
        ("b".to_string(), Json::Unsigned(5)),
    ]);
    assert_eq!(
        Entries::from_json(&value),
        Some(vec![
            ("a".to_string(), 3),
            ("c".to_string(), 4),
            ("b".to_string(), 5)
        ])
    );
    let value = Json::Object(vec![
        ("a".to_string(), Json::Text("no number".to_string())),
        ("a".to_string(), Json::Unsigned(3)),
    ]);
    assert_eq!(Entries::from_json(&value), None);
}

#[test]
fn index_keyed_object_is_read_as_a_map() {
    type ByIndex = HashMap<usize, String>;
    assert_eq!(ByIndex::from_json(&read("{}")), Some(HashMap::new()));
    let mut expected = HashMap::new();
    expected.insert(1usize, "one".to_string());
    expected.insert(20usize, "twenty".to_string());
    assert_eq!(
        ByIndex::from_json(&read("{\"20\":\"twenty\",\"1\":\"one\"}")),
        Some(expected)
    );
    assert_eq!(ByIndex::from_json(&read("{\"one\":\"one\"}")), None);
    assert_eq!(ByIndex::from_json(&read("{\"01\":\"one\"}")), None);
    assert_eq!(ByIndex::from_json(&read("{\"-1\":\"one\"}")), None);
    assert_eq!(ByIndex::from_json(&read("{\"1\":1}")), None);
    assert_eq!(ByIndex::from_json(&read("[]")), None);
}

#[test]
fn index_keyed_object_keeps_the_last_value_of_an_index() {
    type ByIndex = HashMap<usize, usize>;
    let value = Json::Object(vec![
        ("1".to_string(), Json::Unsigned(10)),
        ("2".to_string(), Json::Unsigned(20)),
        ("1".to_string(), Json::Unsigned(30)),
    ]);
    let mut expected = HashMap::new();
    expected.insert(1usize, 30usize);
    expected.insert(2usize, 20usize);
    assert_eq!(ByIndex::from_json(&value), Some(expected));
}
