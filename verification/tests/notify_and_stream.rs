use telegram_mcp::{
    classify, delivery_error_text, delivery_outcome, dispatch, endpoint_url, icon,
    notification_text, resolve_message, str_eq, title, u16_to_string, DeliveryError, HandleStep,
    JsonValue, McpRequest, NotificationCategory, SseSession, HEARTBEAT_INTERVAL_SECS,
};

fn obj(members: Vec<(&str, JsonValue)>) -> JsonValue {
    JsonValue::Obj(members.into_iter().map(|(k, v)| (k.to_string(), v)).collect())
}

fn jstr(s: &str) -> JsonValue {
    JsonValue::Str(s.to_string())
}

#[test]
fn task_complete_notification_sends_one_classified_message() {
    let params = obj(vec![("message", jstr("done"))]);
    let req = McpRequest::JsonRpc2_0 {
        method: "$/taskComplete".to_string(),
        params: Some(params),
        id: None,
    };
    match dispatch(req) {
        HandleStep::Notify { text } => {
            assert!(text.contains('\u{2705}'));
            assert!(text.contains("Task Completed"));
            assert!(text.contains("done"));
            assert_eq!(text, "\u{2705} Task Completed\n\ndone");
        }
        _ => panic!("expected exactly one outbound notification and no response body"),
    }
}

#[test]
fn each_actionable_method_maps_to_its_icon_and_title() {
    let cases = [
        ("$/userInputRequired", "\u{26a0}\u{fe0f}", "User Input Required"),
        ("$/progress", "\u{23f3}", "Task in Progress"),
        ("$/error", "\u{274c}", "Error Occurred"),
        ("$/taskComplete", "\u{2705}", "Task Completed"),
    ];
    for (method, want_icon, want_title) in cases {
        let (cat, text) = classify(method, &None).unwrap();
        assert_eq!(icon(&cat), want_icon);
        assert_eq!(title(&cat), want_title);
        assert_eq!(text, format!("{} {}\n\n{}", want_icon, want_title, want_title));
    }
}

#[test]
fn unlisted_notification_methods_are_not_classified() {
    assert!(classify("initialized", &None).is_none());
    assert!(classify("$/somethingElse", &None).is_none());
    assert!(classify("taskComplete", &None).is_none());
}

#[test]
fn message_resolution_prefers_message_then_description_then_default() {
    let both = obj(vec![("message", jstr("m")), ("description", jstr("d"))]);
    assert_eq!(resolve_message(&Some(both), "fallback"), "m");

    let described = obj(vec![("description", jstr("d"))]);
    assert_eq!(resolve_message(&Some(described), "fallback"), "d");

    let message_not_string = obj(vec![("message", JsonValue::Int(1)), ("description", jstr("d"))]);
    assert_eq!(resolve_message(&Some(message_not_string), "fallback"), "d");

    let neither = obj(vec![("other", jstr("x"))]);
    assert_eq!(resolve_message(&Some(neither), "fallback"), "fallback");

    assert_eq!(resolve_message(&None, "fallback"), "fallback");
}

#[test]
fn notification_text_is_icon_title_blank_line_message() {
    let text = notification_text(&NotificationCategory::ErrorOccurred, "boom");
    assert_eq!(text, "\u{274c} Error Occurred\n\nboom");
}

#[test]
fn delivery_outcome_reads_the_provider_envelope() {
    assert!(delivery_outcome(true, None).is_ok());
    assert!(delivery_outcome(true, Some("ignored".to_string())).is_ok());
    let e = delivery_outcome(false, Some("bad chat".to_string())).unwrap_err();
    assert_eq!(delivery_error_text(&e), "Telegram API error: bad chat");
    let unexplained = delivery_outcome(false, None).unwrap_err();
    assert_eq!(delivery_error_text(&unexplained), "Telegram API error: Unknown error");
}

#[test]
fn delivery_error_keeps_the_description() {
    let e = DeliveryError { description: Some("quota".to_string()) };
    assert_eq!(delivery_error_text(&e), "Telegram API error: quota");
}

#[test]
fn sse_opens_with_one_endpoint_event_then_heartbeats() {
    let mut session = SseSession::accept("example.com", None);
    let first = session.next_event().unwrap();
    assert_eq!(first, "event: endpoint\ndata: https://example.com/mcp\n\n");
    for _ in 0..5 {
        let beat = session.next_event().unwrap();
        assert_eq!(beat, ":ping\n\n");
        assert!(!beat.contains("endpoint"));
    }
    session.close();
    assert!(session.next_event().is_none());
    assert!(session.next_event().is_none());
}

#[test]
fn loopback_hosts_announce_http_and_keep_the_port() {
    assert_eq!(endpoint_url("localhost", Some(8787)), "http://localhost:8787/mcp");
    assert_eq!(endpoint_url("localhost", None), "http://localhost/mcp");
    assert_eq!(endpoint_url("worker.example.dev", Some(443)), "https://worker.example.dev:443/mcp");
    assert_eq!(endpoint_url("worker.example.dev", None), "https://worker.example.dev/mcp");
}

#[test]
fn heartbeat_interval_is_thirty_seconds() {
    assert_eq!(HEARTBEAT_INTERVAL_SECS, 30);
}

#[test]
fn decimal_rendering_of_ports() {
    assert_eq!(u16_to_string(0), "0");
    assert_eq!(u16_to_string(7), "7");
    assert_eq!(u16_to_string(80), "80");
    assert_eq!(u16_to_string(8080), "8080");
    assert_eq!(u16_to_string(65535), "65535");
}

#[test]
fn string_equality_is_by_contents() {
    assert!(str_eq("abc", "abc"));
    assert!(!str_eq("abc", "abd"));
    assert!(!str_eq("", "a"));
    assert!(str_eq("", ""));
}
