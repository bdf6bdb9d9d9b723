use std::str::FromStr;

use serde_json::Value;
use surrealdb::sql::{Id, Thing};
use surreal_chat::record::{RecordId, RecordKey};
use surreal_chat::serde::string_thing::{deserialize, serialize, ParseRecordError};

fn id_object(raw: &str) -> Value {
    let mut m = serde_json::Map::new();
    m.insert("id".to_string(), Value::String(raw.to_string()));
    Value::Object(m)
}

#[test]
fn test_deserialize() {
    let value = id_object("test:xyz");
    let result = deserialize(value["id"].as_str().unwrap());
    assert!(result.is_ok());
    if let Ok(s) = result {
        assert_eq!(s, RecordId::from_parts("test", "xyz"));
    }
}

#[test]
fn test_serialize_alphanumeric() {
    let test = RecordId::from_parts("test", "xyz");
    let result = serde_json::to_string(&id_object(&serialize(&test)));
    assert!(result.is_ok());
    if let Ok(s) = result {
        assert_eq!(s, r#"{"id":"test:xyz"}"#);
    }
}

#[test]
fn test_serialize_numeric() {
    let test = RecordId::from_parts("test", "123");
    let result = serde_json::to_string(&id_object(&serialize(&test)));
    assert!(result.is_ok());
}

#[test]
fn serialize_brackets_digit_only_text_key() {
    let test = RecordId::from_parts("test", "123");
    assert_eq!(serialize(&test), "test:\u{27E8}123\u{27E9}");
}

#[test]
fn serialize_number_key_is_plain_decimal() {
    let test = RecordId { tb: "user".to_string(), id: RecordKey::Number(42) };
    assert_eq!(serialize(&test), "user:42");
    let negative = RecordId { tb: "user".to_string(), id: RecordKey::Number(-7) };
    assert_eq!(negative.to_raw(), "user:-7");
}

#[test]
fn serialize_brackets_keys_with_other_characters() {
    assert_eq!(serialize(&RecordId::from_parts("chat", "a b")), "chat:\u{27E8}a b\u{27E9}");
    assert_eq!(
        serialize(&RecordId::from_parts("chat", "a\u{27E9}b")),
        "chat:\u{27E8}a\\\u{27E9}b\u{27E9}"
    );
    assert_eq!(serialize(&RecordId::from_parts("my-table", "x")), "\u{27E8}my-table\u{27E9}:x");
    assert_eq!(serialize(&RecordId::from_parts("chat", "")), "chat:\u{27E8}\u{27E9}");
    assert_eq!(serialize(&RecordId::from_parts("chat", "_x1")), "chat:_x1");
}

#[test]
fn deserialize_refuses_text_without_exactly_one_colon() {
    assert_eq!(deserialize("testxyz"), Err(ParseRecordError::InvalidString));
    assert_eq!(deserialize("a:b:c"), Err(ParseRecordError::InvalidString));
    assert_eq!(deserialize(""), Err(ParseRecordError::InvalidString));
    assert_eq!(ParseRecordError::InvalidString.message(), "invalid string");
}

#[test]
fn deserialize_keeps_empty_and_unusual_parts() {
    assert_eq!(deserialize(":"), Ok(RecordId::from_parts("", "")));
    assert_eq!(deserialize("user:42"), Ok(RecordId::from_parts("user", "42")));
    assert_eq!(deserialize("ch\u{e4}t:x y"), Ok(RecordId::from_parts("ch\u{e4}t", "x y")));
}

#[test]
fn plain_identifiers_read_back_after_writing() {
    let t = RecordId::from_parts("user", "john_1");
    assert_eq!(deserialize(&serialize(&t)), Ok(t.clone()));
    let raw = "chat:general";
    assert_eq!(serialize(&deserialize(raw).unwrap()), raw);
}

#[test]
fn composite_keys_are_written_as_the_database_writes_them() {
    let t = RecordId { tb: "temperature".to_string(), id: RecordKey::Composite("['London', 2024]".to_string()) };
    assert_eq!(serialize(&t), "temperature:['London', 2024]");
    let odd = RecordId { tb: "my-table".to_string(), id: RecordKey::Composite("[1, 2]".to_string()) };
    assert_eq!(odd.to_raw(), "\u{27E8}my-table\u{27E9}:[1, 2]");
}

#[test]
fn raw_form_matches_the_database_for_every_key_kind() {
    for raw in ["temperature:['London', 2024]", "weather:{ city: 'London' }", "user:42", "user:john", "user:\u{27E8}123\u{27E9}"] {
        let thing = Thing::from_str(raw).unwrap();
        let id = match thing.id.clone() {
            Id::Number(n) => RecordKey::Number(n),
            Id::String(s) => RecordKey::Text(s),
            other => RecordKey::Composite(other.to_raw()),
        };
        let rid = RecordId { tb: thing.tb.clone(), id };
        assert_eq!(serialize(&rid), thing.to_raw());
    }
}
