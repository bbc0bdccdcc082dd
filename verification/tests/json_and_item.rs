use fcgiq::dictionary::{Dictionary, StringMap};
use fcgiq::item::Item;
use fcgiq::json::JsonValue;

fn item_with(data: &[u8]) -> Item {
    let mut metadata: StringMap = Dictionary::new();
    metadata.insert("receipt_handle".to_string(), "r".to_string());
    Item { id: "m1".to_string(), data: data.to_vec(), metadata }
}

#[test]
fn parse_data_as_json_reads_an_object() {
    let item = item_with(br#"{"user":"alice","n":3,"ok":true,"none":null,"list":[1,"x"],"in":{"k":"v"}}"#);
    let parsed = item.parse_data_as_json();
    let document = match parsed {
        Ok(document) => document,
        Err(e) => panic!("no document: {}", e.message),
    };
    let members = match &document {
        JsonValue::Object(members) => members,
        other => panic!("no object: {:?}", other),
    };
    assert_eq!(members.len(), 6);
    assert!(matches!(document.member("user"), Some(JsonValue::String(s)) if s == "alice"));
    assert!(matches!(document.member("n"), Some(JsonValue::Number(n)) if n == "3"));
    assert!(matches!(document.member("ok"), Some(JsonValue::Bool(true))));
    assert!(matches!(document.member("none"), Some(JsonValue::Null)));
    match document.member("list") {
        Some(JsonValue::Array(items)) => {
            assert_eq!(items.len(), 2);
            assert!(matches!(&items[0], JsonValue::Number(n) if n == "1"));
            assert!(matches!(&items[1], JsonValue::String(s) if s == "x"));
        },
        other => panic!("no array: {:?}", other),
    }
    match document.member("in") {
        Some(inner) => assert_eq!(inner.string_member("k"), Some("v".to_string())),
        None => panic!("no inner object"),
    }
    assert!(document.member("absent").is_none());
}

#[test]
fn parse_data_as_json_rejects_what_is_no_json() {
    let item = item_with(b"{not json");
    match item.parse_data_as_json() {
        Ok(value) => panic!("parsed: {:?}", value),
        Err(e) => assert!(!e.message.is_empty()),
    }
    assert!(item_with(b"").parse_data_as_json().is_err());
    assert!(item_with(&[0xff, 0xfe]).parse_data_as_json().is_err());
}

#[test]
fn get_string_returns_a_string_member() {
    let item = item_with(br#"{"user":"alice","count":2}"#);
    assert_eq!(item.get_string_from_data_json_object("user"), Some("alice".to_string()));
}

#[test]
fn get_string_is_none_for_a_missing_key() {
    let item = item_with(br#"{"user":"alice"}"#);
    assert_eq!(item.get_string_from_data_json_object("name"), None);
    assert_eq!(item.get_string_from_data_json_object("User"), None);
}

#[test]
fn get_string_is_none_for_a_member_that_is_no_string() {
    let item = item_with(br#"{"count":2,"flag":true,"none":null,"list":["a"],"in":{"a":"b"}}"#);
    assert_eq!(item.get_string_from_data_json_object("count"), None);
    assert_eq!(item.get_string_from_data_json_object("flag"), None);
    assert_eq!(item.get_string_from_data_json_object("none"), None);
    assert_eq!(item.get_string_from_data_json_object("list"), None);
    assert_eq!(item.get_string_from_data_json_object("in"), None);
}

#[test]
fn get_string_is_none_for_a_document_that_is_no_object() {
    assert_eq!(item_with(br#"["user"]"#).get_string_from_data_json_object("user"), None);
    assert_eq!(item_with(br#""user""#).get_string_from_data_json_object("user"), None);
    assert_eq!(item_with(b"12").get_string_from_data_json_object("user"), None);
}

#[test]
fn get_string_is_none_for_a_payload_that_is_no_json() {
    assert_eq!(item_with(b"").get_string_from_data_json_object("user"), None);
    assert_eq!(item_with(b"user=alice").get_string_from_data_json_object("user"), None);
    assert_eq!(item_with(&[0xff]).get_string_from_data_json_object("user"), None);
}

#[test]
fn get_string_takes_the_last_of_repeated_members() {
    let item = item_with(br#"{"user":"alice","user":"bob"}"#);
    assert_eq!(item.get_string_from_data_json_object("user"), Some("bob".to_string()));
}

#[test]
fn member_takes_the_last_of_repeated_names() {
    let value = JsonValue::Object(vec![
        ("a".to_string(), JsonValue::String("first".to_string())),
        ("b".to_string(), JsonValue::Null),
        ("a".to_string(), JsonValue::String("last".to_string())),
    ]);
    assert_eq!(value.string_member("a"), Some("last".to_string()));
    assert_eq!(value.string_member("b"), None);
    assert_eq!(value.string_member("c"), None);
    assert!(JsonValue::Null.member("a").is_none());
    assert!(JsonValue::String("a".to_string()).member("a").is_none());
}

#[test]
fn as_str_is_the_text_of_a_string_only() {
    assert_eq!(JsonValue::String("x".to_string()).as_str(), Some(&"x".to_string()));
    assert_eq!(JsonValue::Number("1".to_string()).as_str(), None);
    assert_eq!(JsonValue::Null.as_str(), None);
    assert_eq!(JsonValue::Bool(true).as_str(), None);
}

#[test]
fn item_clone_copies_all_fields() {
    let item = item_with(b"{}");
    let copy = item.clone();
    assert_eq!(copy.id, "m1");
    assert_eq!(copy.data, b"{}".to_vec());
    assert_eq!(copy.metadata.get("receipt_handle"), Some(&"r".to_string()));
}
