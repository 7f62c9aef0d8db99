use telegram_mcp::{json_to_string, response_to_json, JsonValue, McpError, McpResponse};

/// Serializes a response with the library's own encoder and parses the
/// text back with an independent JSON parser.
fn round_trip(resp: McpResponse) -> serde_json::Value {
    let text = json_to_string(&response_to_json(resp));
    serde_json::from_str(&text).unwrap()
}

#[test]
fn result_round_trip_keeps_id_and_exactly_one_of_result_error() {
    let resp = McpResponse::Success {
        result: JsonValue::Obj(vec![]),
        id: Some(JsonValue::Str("abc".to_string())),
    };
    let parsed = round_trip(resp);
    let o = parsed.as_object().unwrap();
    assert!(o.contains_key("result"));
    assert!(!o.contains_key("error"));
    assert_eq!(o.get("jsonrpc").unwrap(), "2.0");
    assert_eq!(o.get("id").unwrap(), "abc");
}

#[test]
fn result_round_trip_with_null_id_keeps_the_null() {
    let resp = McpResponse::Success { result: JsonValue::Bool(true), id: Some(JsonValue::Null) };
    let parsed = round_trip(resp);
    let o = parsed.as_object().unwrap();
    assert!(o.contains_key("result"));
    assert!(!o.contains_key("error"));
    assert!(o.get("id").unwrap().is_null());
}

#[test]
fn absent_id_is_encoded_as_null() {
    let resp = McpResponse::Success { result: JsonValue::Int(1), id: None };
    let parsed = round_trip(resp);
    let o = parsed.as_object().unwrap();
    assert!(o.get("id").unwrap().is_null());
}

#[test]
fn error_round_trip_carries_code_and_message_and_no_result() {
    let resp = McpResponse::Failure {
        error: McpError {
            code: -32601,
            message: "Method not found: nope".to_string(),
            data: None,
        },
        id: Some(JsonValue::Int(9)),
    };
    let parsed = round_trip(resp);
    let o = parsed.as_object().unwrap();
    assert!(!o.contains_key("result"));
    let e = o.get("error").unwrap().as_object().unwrap();
    assert_eq!(e.get("code").unwrap().as_i64().unwrap(), -32601);
    assert_eq!(e.get("message").unwrap(), "Method not found: nope");
    assert!(!e.contains_key("data"), "absent error data must be omitted");
    assert_eq!(o.get("id").unwrap().as_i64().unwrap(), 9);
}

#[test]
fn error_data_is_kept_when_present() {
    let resp = McpResponse::Failure {
        error: McpError {
            code: -32602,
            message: "Invalid parameters for notify_telegram".to_string(),
            data: Some(JsonValue::Str("message must be a string".to_string())),
        },
        id: None,
    };
    let parsed = round_trip(resp);
    let e = parsed.as_object().unwrap().get("error").unwrap().as_object().unwrap();
    assert_eq!(e.get("data").unwrap(), "message must be a string");
}

#[test]
fn encoder_renders_each_value_kind_exactly() {
    assert_eq!(json_to_string(&JsonValue::Null), "null");
    assert_eq!(json_to_string(&JsonValue::Bool(true)), "true");
    assert_eq!(json_to_string(&JsonValue::Bool(false)), "false");
    assert_eq!(json_to_string(&JsonValue::Int(0)), "0");
    assert_eq!(json_to_string(&JsonValue::Int(-42)), "-42");
    assert_eq!(json_to_string(&JsonValue::Int(i64::MIN)), "-9223372036854775808");
    assert_eq!(json_to_string(&JsonValue::Int(i64::MAX)), "9223372036854775807");
    assert_eq!(json_to_string(&JsonValue::Str("hi".to_string())), "\"hi\"");
    let arr = JsonValue::Arr(vec![JsonValue::Int(1), JsonValue::Null]);
    assert_eq!(json_to_string(&arr), "[1,null]");
    let o = JsonValue::Obj(vec![
        ("a".to_string(), JsonValue::Int(1)),
        ("b".to_string(), JsonValue::Arr(vec![])),
    ]);
    assert_eq!(json_to_string(&o), "{\"a\":1,\"b\":[]}");
}

#[test]
fn encoder_escapes_strings_so_they_parse_back_unchanged() {
    let tricky = "a\"b\\c\nd\re\tf\u{1}g \u{2705} ü";
    let text = json_to_string(&JsonValue::Str(tricky.to_string()));
    let parsed: serde_json::Value = serde_json::from_str(&text).unwrap();
    assert_eq!(parsed.as_str().unwrap(), tricky);
    assert_eq!(text, "\"a\\\"b\\\\c\\nd\\re\\tf\\u0001g \u{2705} ü\"");
}
