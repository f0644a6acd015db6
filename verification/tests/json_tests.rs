use foundry_mcp::json::JsonEntry;
use foundry_mcp::json::JsonObject;
use foundry_mcp::json::JsonValue;

fn text(s: &str) -> JsonValue {
    JsonValue::Text(s.to_string())
}

#[test]
fn object_insert_get_and_replace() {
    let mut map = JsonObject::new();
    assert!(map.is_empty());
    map.insert("a".to_string(), JsonValue::Int(1));
    map.insert("b".to_string(), text("x"));
    map.insert("a".to_string(), JsonValue::Bool(true));
    assert_eq!(map.len(), 2);
    assert!(!map.is_empty());
    assert_eq!(map.get("a"), Some(&JsonValue::Bool(true)));
    assert_eq!(map.get("b"), Some(&text("x")));
    assert_eq!(map.get("c"), None);
    assert!(map.contains_key("a"));
    assert!(!map.contains_key("A"));
    assert_eq!(
        map.entries,
        vec![
            JsonEntry { key: "a".to_string(), value: JsonValue::Bool(true) },
            JsonEntry { key: "b".to_string(), value: text("x") },
        ]
    );
}

#[test]
fn first_member_of_a_name_wins() {
    let map = JsonObject {
        entries: vec![
            JsonEntry { key: "k".to_string(), value: JsonValue::Int(1) },
            JsonEntry { key: "k".to_string(), value: JsonValue::Int(2) },
        ],
    };
    assert_eq!(map.get("k"), Some(&JsonValue::Int(1)));
}

#[test]
fn readers_tell_the_kinds_apart() {
    assert_eq!(text("s").as_str(), Some("s"));
    assert_eq!(JsonValue::Int(1).as_str(), None);
    assert_eq!(JsonValue::Bool(false).as_bool(), Some(false));
    assert_eq!(text("true").as_bool(), None);
    assert_eq!(JsonValue::Int(0).as_u64(), Some(0));
    assert_eq!(JsonValue::Int(-1).as_u64(), None);
    assert_eq!(JsonValue::Int(i64::MAX).as_u64(), Some(9223372036854775807));
    assert_eq!(JsonValue::UInt(u64::MAX).as_u64(), Some(u64::MAX));
    assert_eq!(JsonValue::Decimal("1.0".to_string()).as_u64(), None);
    assert_eq!(JsonValue::Null.as_u64(), None);
    assert_eq!(JsonValue::Array(vec![JsonValue::Null]).as_array(), Some(&vec![JsonValue::Null]));
    assert_eq!(JsonValue::Null.as_array(), None);
    assert!(JsonValue::Object(JsonObject::new()).as_object().is_some());
    assert!(JsonValue::Array(vec![]).as_object().is_none());
}

#[test]
fn get_reaches_into_objects_only() {
    let mut inner = JsonObject::new();
    inner.insert("tokenAddress".to_string(), text("0x1"));
    let value = JsonValue::Object(inner);
    assert_eq!(value.get("tokenAddress"), Some(&text("0x1")));
    assert_eq!(value.get("other"), None);
    assert_eq!(text("tokenAddress").get("tokenAddress"), None);
    assert_eq!(JsonValue::Array(vec![text("a")]).get("0"), None);
}

#[test]
fn clone_is_deep() {
    let mut inner = JsonObject::new();
    inner.insert("list".to_string(), JsonValue::Array(vec![JsonValue::Int(1), text("two")]));
    inner.insert("n".to_string(), JsonValue::Decimal("0.5".to_string()));
    let mut outer = JsonObject::new();
    outer.insert("inner".to_string(), JsonValue::Object(inner));
    outer.insert("u".to_string(), JsonValue::UInt(7));
    let value = JsonValue::Object(outer);
    let copy = value.clone();
    assert_eq!(copy, value);
    let object_copy = value.as_object().unwrap().clone();
    assert_eq!(&object_copy, value.as_object().unwrap());
}
