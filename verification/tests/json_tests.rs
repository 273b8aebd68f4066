use ilert::json::JsonValue;
use ilert::json::json_to_string;

#[test]
fn scalars_serialize() {
    assert_eq!(json_to_string(&JsonValue::Null), "null");
    assert_eq!(json_to_string(&JsonValue::Bool(true)), "true");
    assert_eq!(json_to_string(&JsonValue::Bool(false)), "false");
    assert_eq!(json_to_string(&JsonValue::Int(0)), "0");
    assert_eq!(json_to_string(&JsonValue::Int(-42)), "-42");
    assert_eq!(json_to_string(&JsonValue::Int(i64::MAX)), "9223372036854775807");
    assert_eq!(json_to_string(&JsonValue::Int(i64::MIN)), "-9223372036854775808");
}

#[test]
fn strings_escape() {
    let v = JsonValue::Str("plain".to_string());
    assert_eq!(json_to_string(&v), "\"plain\"");
    let v = JsonValue::Str("say \"hi\"\\now".to_string());
    assert_eq!(json_to_string(&v), "\"say \\\"hi\\\"\\\\now\"");
    let v = JsonValue::Str("a\nb\tc\rd".to_string());
    assert_eq!(json_to_string(&v), "\"a\\nb\\tc\\rd\"");
    let v = JsonValue::Str("\u{8}\u{c}\u{1}\u{1f}".to_string());
    assert_eq!(json_to_string(&v), "\"\\b\\f\\u0001\\u001f\"");
    let v = JsonValue::Str("snowman \u{2603}".to_string());
    assert_eq!(json_to_string(&v), "\"snowman \u{2603}\"");
}

#[test]
fn arrays_and_objects_serialize() {
    let v = JsonValue::Array(vec![]);
    assert_eq!(json_to_string(&v), "[]");
    let v = JsonValue::Array(vec![JsonValue::Int(1), JsonValue::Null, JsonValue::Bool(false)]);
    assert_eq!(json_to_string(&v), "[1,null,false]");
    let v = JsonValue::Object(vec![]);
    assert_eq!(json_to_string(&v), "{}");
    let v = JsonValue::Object(vec![
        ("a".to_string(), JsonValue::Int(1)),
        ("b".to_string(), JsonValue::Array(vec![JsonValue::Str("x".to_string())])),
    ]);
    assert_eq!(json_to_string(&v), "{\"a\":1,\"b\":[\"x\"]}");
}

#[test]
fn serialized_output_parses_as_json() {
    let v = JsonValue::Object(vec![
        ("key with \"quotes\"".to_string(), JsonValue::Str("line\nbreak".to_string())),
        ("nested".to_string(), JsonValue::Array(vec![JsonValue::Int(-5), JsonValue::Null])),
    ]);
    let text = json_to_string(&v);
    let parsed: serde_json::Value = serde_json::from_str(&text).unwrap();
    assert_eq!(
        parsed.get("key with \"quotes\"").unwrap().as_str().unwrap(),
        "line\nbreak"
    );
    let nested = parsed.get("nested").unwrap();
    assert_eq!(nested[0].as_i64().unwrap(), -5);
    assert!(nested[1].is_null());
}
