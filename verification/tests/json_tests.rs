use blog_backend::json::{json_i64_field, json_str_field, json_u64_field, JsonNumber, JsonValue};

fn member(name: &str, value: JsonValue) -> (String, JsonValue) {
    (name.to_string(), value)
}

fn sample() -> JsonValue {
    JsonValue::Object(vec![
        member("name", JsonValue::Str("ann".to_string())),
        member("small", JsonValue::Number(JsonNumber::PosInt(7))),
        member("big", JsonValue::Number(JsonNumber::PosInt(u64::MAX))),
        member("neg", JsonValue::Number(JsonNumber::NegInt(-3))),
        member("ratio", JsonValue::Number(JsonNumber::Float)),
        member("flag", JsonValue::Bool(true)),
        member("none", JsonValue::Null),
        member("list", JsonValue::Array(vec![JsonValue::Str("x".to_string())])),
    ])
}

#[test]
fn string_members_are_read() {
    let doc = sample();
    assert_eq!(json_str_field(&doc, "name"), Some("ann".to_string()));
    assert_eq!(json_str_field(&doc, "small"), None);
    assert_eq!(json_str_field(&doc, "missing"), None);
    assert_eq!(json_str_field(&doc, "list"), None);
}

#[test]
fn integer_members_follow_serde_json() {
    let doc = sample();
    assert_eq!(json_i64_field(&doc, "small"), Some(7));
    assert_eq!(json_u64_field(&doc, "small"), Some(7));
    assert_eq!(json_i64_field(&doc, "big"), None);
    assert_eq!(json_u64_field(&doc, "big"), Some(u64::MAX));
    assert_eq!(json_i64_field(&doc, "neg"), Some(-3));
    assert_eq!(json_u64_field(&doc, "neg"), None);
    assert_eq!(json_i64_field(&doc, "ratio"), None);
    assert_eq!(json_u64_field(&doc, "flag"), None);
    assert_eq!(json_i64_field(&doc, "none"), None);
}

#[test]
fn members_of_non_objects_are_absent() {
    let doc = JsonValue::Array(vec![JsonValue::Str("name".to_string())]);
    assert!(doc.get("name").is_none());
    assert_eq!(json_str_field(&JsonValue::Str("name".to_string()), "name"), None);
}

#[test]
fn first_member_of_a_name_is_read() {
    let doc = JsonValue::Object(vec![
        member("k", JsonValue::Str("first".to_string())),
        member("k", JsonValue::Str("second".to_string())),
    ]);
    assert_eq!(json_str_field(&doc, "k"), Some("first".to_string()));
    assert_eq!(doc.get("k").and_then(|v| v.as_str()), Some("first"));
}
