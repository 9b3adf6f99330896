use tool_registry::json::JsonValue;
use tool_registry::redact::{redact_error_message, redact_outcome_content, redact_parameters};

fn convert(v: serde_json::Value) -> JsonValue {
    match v {
        serde_json::Value::Null => JsonValue::Null,
        serde_json::Value::Bool(b) => JsonValue::Bool(b),
        serde_json::Value::Number(n) => JsonValue::Number(n.to_string()),
        serde_json::Value::String(s) => JsonValue::String(s),
        serde_json::Value::Array(a) => JsonValue::Array(a.into_iter().map(convert).collect()),
        serde_json::Value::Object(m) => {
            JsonValue::Object(m.into_iter().map(|(k, v)| (k, convert(v))).collect())
        }
    }
}

fn json(text: &str) -> JsonValue {
    convert(serde_json::from_str(text).expect("test JSON should parse"))
}

#[test]
fn replaces_string_values() {
    let params = json(r#"{"path": "/tmp/secret.txt", "mode": "read"}"#);
    let redacted = redact_parameters(&params);
    assert_eq!(redacted, json(r#"{"path": "[REDACTED]", "mode": "[REDACTED]"}"#));
}

#[test]
fn preserves_non_string_leaves() {
    let params = json(r#"{"count": 42, "flag": true, "empty": null}"#);
    let redacted = redact_parameters(&params);
    assert_eq!(redacted, json(r#"{"count": 42, "flag": true, "empty": null}"#));
}

#[test]
fn handles_nested_objects() {
    let params = json(r#"{"outer": {"inner": "secret"}}"#);
    let redacted = redact_parameters(&params);
    assert_eq!(redacted, json(r#"{"outer": {"inner": "[REDACTED]"}}"#));
}

#[test]
fn handles_arrays() {
    let params = json(r#"{"items": ["a", "b", 3]}"#);
    let redacted = redact_parameters(&params);
    assert_eq!(redacted, json(r#"{"items": ["[REDACTED]", "[REDACTED]", 3]}"#));
}

#[test]
fn redacts_outcome_content_text() {
    let content = json(r#"[{"type": "text", "text": "sensitive output"}]"#);
    let redacted = redact_outcome_content(&content);
    assert_eq!(redacted, json(r#"[{"type": "[REDACTED]", "text": "[REDACTED]"}]"#));
}

#[test]
fn handles_empty_object() {
    let params = json("{}");
    let redacted = redact_parameters(&params);
    assert_eq!(redacted, json("{}"));
}

#[test]
fn redaction_is_idempotent() {
    let params = json(r#"{"a": ["x", {"b": "y", "c": 1}], "d": false}"#);
    let once = redact_parameters(&params);
    let twice = redact_parameters(&once);
    assert_eq!(once, twice);
}

#[test]
fn redacts_a_bare_string() {
    assert_eq!(redact_parameters(&json(r#""secret""#)), json(r#""[REDACTED]""#));
}

#[test]
fn error_messages_are_redacted_whole() {
    assert_eq!(redact_error_message("token abc leaked"), "[REDACTED]");
}
