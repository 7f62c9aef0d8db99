use telegram_mcp::{
    complete_tool_call, dispatch, envelope_from_json, handle_mcp_request, parse_error_response,
    DeliveryError, HandleStep, JsonValue, McpRequest, McpResponse,
};

fn obj(members: Vec<(&str, JsonValue)>) -> JsonValue {
    JsonValue::Obj(members.into_iter().map(|(k, v)| (k.to_string(), v)).collect())
}

fn jstr(s: &str) -> JsonValue {
    JsonValue::Str(s.to_string())
}

fn request(method: &str, params: Option<JsonValue>, id: Option<JsonValue>) -> McpRequest {
    McpRequest::JsonRpc2_0 { method: method.to_string(), params, id }
}

fn expect_error(step: HandleStep, code: i32, message: &str, id: Option<i64>) {
    match step {
        HandleStep::Reply(McpResponse::Failure { error, id: rid }) => {
            assert_eq!(error.code, code);
            assert_eq!(error.message, message);
            assert!(error.data.is_none());
            match (id, rid) {
                (Some(want), Some(JsonValue::Int(got))) => assert_eq!(want, got),
                (None, None) => {}
                _ => panic!("unexpected id echoed"),
            }
        }
        _ => panic!("expected an error reply"),
    }
}

#[test]
fn unknown_method_is_method_not_found_with_same_id() {
    let step = dispatch(request("resources/read", None, Some(JsonValue::Int(7))));
    expect_error(step, -32601, "Method not found: resources/read", Some(7));
}

#[test]
fn notification_gets_no_response_even_for_known_method() {
    let step = dispatch(request("tools/list", None, None));
    assert!(matches!(step, HandleStep::Acknowledge));
}

#[test]
fn initialized_notification_is_silently_acknowledged() {
    let step = dispatch(request("initialized", None, None));
    assert!(matches!(step, HandleStep::Acknowledge));
}

#[test]
fn initialize_without_id_is_invalid_request() {
    let step = handle_mcp_request(request("initialize", None, None));
    expect_error(step, -32600, "Invalid Request: initialize requires an id", None);
}

#[test]
fn initialize_with_id_returns_server_descriptor() {
    let step = handle_mcp_request(request("initialize", None, Some(JsonValue::Int(1))));
    match step {
        HandleStep::Reply(McpResponse::Success { result, id }) => {
            assert!(matches!(id, Some(JsonValue::Int(1))));
            let pv = result.get("protocolVersion").unwrap().as_str().unwrap();
            assert_eq!(pv, "2024-11-05");
            let info = result.get("serverInfo").unwrap();
            assert_eq!(info.get("name").unwrap().as_str().unwrap(), "telegram-notification-mcp");
            assert_eq!(info.get("version").unwrap().as_str().unwrap(), "0.1.0");
            let caps = result.get("capabilities").unwrap();
            assert!(caps.get("tools").is_some());
        }
        _ => panic!("expected a result reply"),
    }
}

#[test]
fn tools_list_describes_the_one_tool() {
    let step = dispatch(request("tools/list", None, Some(JsonValue::Int(2))));
    match step {
        HandleStep::Reply(McpResponse::Success { result, id }) => {
            assert!(matches!(id, Some(JsonValue::Int(2))));
            let tools = result.get("tools").unwrap();
            match tools {
                JsonValue::Arr(items) => {
                    assert_eq!(items.len(), 1);
                    let tool = &items[0];
                    assert_eq!(tool.get("name").unwrap().as_str().unwrap(), "notify_telegram");
                    let schema = tool.get("inputSchema").unwrap();
                    assert_eq!(schema.get("type").unwrap().as_str().unwrap(), "object");
                    let required = schema.get("required").unwrap();
                    match required {
                        JsonValue::Arr(keys) => {
                            assert_eq!(keys.len(), 1);
                            assert_eq!(keys[0].as_str().unwrap(), "message");
                        }
                        _ => panic!("required must be an array"),
                    }
                }
                _ => panic!("tools must be an array"),
            }
        }
        _ => panic!("expected a result reply"),
    }
}

#[test]
fn tools_call_known_tool_asks_for_delivery_then_succeeds() {
    let params = obj(vec![
        ("name", jstr("notify_telegram")),
        ("arguments", obj(vec![("message", jstr("hi"))])),
    ]);
    let step = dispatch(request("tools/call", Some(params), Some(JsonValue::Int(3))));
    match step {
        HandleStep::CallTool { message, id } => {
            assert_eq!(message, "hi");
            let r = complete_tool_call(id, Ok(())).unwrap();
            match r {
                McpResponse::Success { result, id } => {
                    assert!(matches!(id, Some(JsonValue::Int(3))));
                    let content = result.get("content").unwrap();
                    match content {
                        JsonValue::Arr(blocks) => {
                            assert_eq!(blocks.len(), 1);
                            let block = &blocks[0];
                            assert_eq!(block.get("type").unwrap().as_str().unwrap(), "text");
                            assert_eq!(
                                block.get("text").unwrap().as_str().unwrap(),
                                "Notification sent successfully"
                            );
                        }
                        _ => panic!("content must be an array"),
                    }
                }
                _ => panic!("expected a result response"),
            }
        }
        _ => panic!("expected a tool call step"),
    }
}

#[test]
fn tools_call_delivery_failure_is_passed_through() {
    let outcome = Err(DeliveryError { description: Some("chat not found".to_string()) });
    let r = complete_tool_call(Some(JsonValue::Int(4)), outcome);
    match r {
        Err(e) => assert_eq!(e.description.as_deref(), Some("chat not found")),
        Ok(_) => panic!("a failed delivery must not produce a protocol response"),
    }
}

#[test]
fn tools_call_unknown_tool_names_the_tool() {
    let params = obj(vec![
        ("name", jstr("send_pigeon")),
        ("arguments", obj(vec![("message", jstr("hi"))])),
    ]);
    let step = dispatch(request("tools/call", Some(params), Some(JsonValue::Int(5))));
    expect_error(step, -32602, "Unknown tool: send_pigeon", Some(5));
}

#[test]
fn tools_call_without_params_is_invalid_params() {
    let step = dispatch(request("tools/call", None, Some(JsonValue::Int(6))));
    expect_error(
        step,
        -32602,
        "Invalid params: expected {name: string, arguments: object}",
        Some(6),
    );
}

#[test]
fn tools_call_with_null_params_is_invalid_params() {
    let step = dispatch(request("tools/call", Some(JsonValue::Null), Some(JsonValue::Int(6))));
    expect_error(
        step,
        -32602,
        "Invalid params: expected {name: string, arguments: object}",
        Some(6),
    );
}

#[test]
fn tools_call_with_non_string_name_is_invalid_params() {
    let params = obj(vec![("name", JsonValue::Int(9)), ("arguments", obj(vec![]))]);
    let step = dispatch(request("tools/call", Some(params), Some(JsonValue::Int(6))));
    expect_error(
        step,
        -32602,
        "Invalid params: expected {name: string, arguments: object}",
        Some(6),
    );
}

#[test]
fn tools_call_with_bad_arguments_is_invalid_parameters() {
    let params = obj(vec![
        ("name", jstr("notify_telegram")),
        ("arguments", obj(vec![("text", jstr("hi"))])),
    ]);
    let step = dispatch(request("tools/call", Some(params), Some(JsonValue::Int(8))));
    expect_error(step, -32602, "Invalid parameters for notify_telegram", Some(8));
}

#[test]
fn subscribe_and_unsubscribe_are_acknowledged_with_empty_result() {
    for method in ["notifications/subscribe", "notifications/unsubscribe"] {
        let step = dispatch(request(method, None, Some(JsonValue::Int(10))));
        match step {
            HandleStep::Reply(McpResponse::Success { result, id }) => {
                assert!(matches!(id, Some(JsonValue::Int(10))));
                match result {
                    JsonValue::Obj(members) => assert!(members.is_empty()),
                    _ => panic!("expected an empty object result"),
                }
            }
            _ => panic!("expected a result reply"),
        }
    }
}

#[test]
fn request_with_null_id_is_still_a_request() {
    let step = dispatch(request("initialize", None, Some(JsonValue::Null)));
    match step {
        HandleStep::Reply(McpResponse::Success { id, .. }) => {
            assert!(matches!(id, Some(JsonValue::Null)));
        }
        _ => panic!("a null id still marks a request"),
    }
}

#[test]
fn parse_error_response_has_reserved_code_and_null_id() {
    match parse_error_response() {
        McpResponse::Failure { error, id } => {
            assert_eq!(error.code, -32700);
            assert_eq!(error.message, "Parse error");
            assert!(id.is_none());
        }
        _ => panic!("expected an error response"),
    }
}

#[test]
fn envelope_needs_exact_protocol_tag_and_string_method() {
    let good = obj(vec![
        ("jsonrpc", jstr("2.0")),
        ("method", jstr("initialize")),
        ("id", JsonValue::Int(1)),
    ]);
    let req = envelope_from_json(good).unwrap();
    match &req {
        McpRequest::JsonRpc2_0 { method, params, id } => {
            assert_eq!(method, "initialize");
            assert!(params.is_none());
            assert!(matches!(id, Some(JsonValue::Int(1))));
        }
    }

    let wrong_tag = obj(vec![("jsonrpc", jstr("1.0")), ("method", jstr("initialize"))]);
    assert!(envelope_from_json(wrong_tag).is_none());

    let no_method = obj(vec![("jsonrpc", jstr("2.0"))]);
    assert!(envelope_from_json(no_method).is_none());

    let method_not_string = obj(vec![("jsonrpc", jstr("2.0")), ("method", JsonValue::Int(3))]);
    assert!(envelope_from_json(method_not_string).is_none());

    assert!(envelope_from_json(JsonValue::Arr(vec![])).is_none());
}

#[test]
fn id_presence_decides_notification_status() {
    let with_null_id = obj(vec![
        ("jsonrpc", jstr("2.0")),
        ("method", jstr("x")),
        ("id", JsonValue::Null),
    ]);
    let req = envelope_from_json(with_null_id).unwrap();
    assert!(!req.is_notification());

    let without_id = obj(vec![("jsonrpc", jstr("2.0")), ("method", jstr("x"))]);
    let note = envelope_from_json(without_id).unwrap();
    assert!(note.is_notification());
}
