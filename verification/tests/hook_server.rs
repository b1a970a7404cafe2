use mini_term::hook_server::{
    bind_step, hook_body_reply, hook_server_ports, map_event_to_status, port_file_content,
    screen_hook_request, BindStep, HookBody, HookPayload, HookResponse, HookState, DEFAULT_PORT,
    HOOK_ACTIVE_TIMEOUT_SECS, MAX_PORT_ATTEMPTS, NANOS_PER_SEC,
};

fn payload(pty_id: Option<u32>, event: Option<&str>) -> HookPayload {
    HookPayload {
        pty_id,
        event: event.map(|e| e.to_string()),
        agent: Some("agent-a".to_string()),
        session_id: Some("s-1".to_string()),
        cwd: Some("/work".to_string()),
        tool_name: None,
    }
}

#[test]
fn working_events_map_to_ai_working() {
    for e in ["UserPromptSubmit", "PreToolUse", "PostToolUse", "SubagentStart", "PreCompact", "PostCompact"] {
        assert_eq!(map_event_to_status(e), Some("ai-working"), "{e}");
    }
}

#[test]
fn idle_events_map_to_ai_idle() {
    for e in [
        "SessionStart",
        "SessionEnd",
        "Stop",
        "PermissionRequest",
        "Notification",
        "Elicitation",
        "SubagentStop",
    ] {
        assert_eq!(map_event_to_status(e), Some("ai-idle"), "{e}");
    }
}

#[test]
fn other_events_map_to_nothing() {
    for e in ["", "stop", "Stop ", "PreToolUsed", "Unknown", "SessionStar", "预处理"] {
        assert_eq!(map_event_to_status(e), None, "{e:?}");
    }
}

#[test]
fn new_hook_state_is_empty() {
    let s = HookState::new();
    assert_eq!(s.get_port(), 0);
    assert_eq!(s.get_status(1), None);
    assert!(!s.is_hook_active(1));
}

#[test]
fn update_then_read_status_and_activity() {
    let mut s = HookState::new();
    s.update(7, "ai-working".to_string());
    assert_eq!(s.get_status(7), Some("ai-working".to_string()));
    assert!(s.is_hook_active(7));
    assert!(!s.is_hook_active(8));
    s.update(7, "ai-idle".to_string());
    assert_eq!(s.get_status(7), Some("ai-idle".to_string()));
}

#[test]
fn activity_window_is_thirty_seconds() {
    let mut s = HookState::new();
    let timeout = HOOK_ACTIVE_TIMEOUT_SECS as u128 * NANOS_PER_SEC;
    s.update_at(3, "ai-idle".to_string(), 1_000);
    assert!(s.is_hook_active_at(3, 1_000));
    // 29.999999999 s is fewer than 30 whole seconds
    assert!(s.is_hook_active_at(3, 1_000 + timeout - 1));
    assert!(!s.is_hook_active_at(3, 1_000 + timeout));
    assert!(!s.is_hook_active_at(3, 1_000 + 100 * NANOS_PER_SEC));
    // a clock reading before the report counts as no time passed
    assert!(s.is_hook_active_at(3, 10));
    assert!(!s.is_hook_active_at(4, 1_000));
}

#[test]
fn remove_forgets_only_that_pty() {
    let mut s = HookState::new();
    s.update_at(1, "ai-working".to_string(), 500);
    s.update_at(2, "ai-idle".to_string(), 500);
    s.remove(1);
    assert_eq!(s.get_status(1), None);
    assert!(!s.is_hook_active_at(1, 500));
    assert_eq!(s.get_status(2), Some("ai-idle".to_string()));
    assert!(s.is_hook_active_at(2, 600));
    s.remove(99);
    assert_eq!(s.get_status(2), Some("ai-idle".to_string()));
}

#[test]
fn set_port_then_get_port() {
    let mut s = HookState::new();
    s.set_port(23458);
    assert_eq!(s.get_port(), 23458);
    s.update(1, "ai-idle".to_string());
    assert_eq!(s.get_port(), 23458);
}

#[test]
fn non_post_is_method_not_allowed() {
    assert_eq!(screen_hook_request(false, "/hook"), Some(HookResponse::MethodNotAllowed));
    assert_eq!(screen_hook_request(false, "/x"), Some(HookResponse::MethodNotAllowed));
}

#[test]
fn wrong_path_is_not_found() {
    assert_eq!(screen_hook_request(true, "/"), Some(HookResponse::NotFound));
    assert_eq!(screen_hook_request(true, "/hook/"), Some(HookResponse::NotFound));
    assert_eq!(screen_hook_request(true, "/Hook"), Some(HookResponse::NotFound));
    assert_eq!(screen_hook_request(true, "/hook?x=1"), Some(HookResponse::NotFound));
}

#[test]
fn post_to_hook_reads_body() {
    assert_eq!(screen_hook_request(true, "/hook"), None);
}

#[test]
fn response_codes_and_bodies() {
    assert_eq!(HookResponse::MethodNotAllowed.status_code(), 405);
    assert_eq!(HookResponse::MethodNotAllowed.body(), "Method Not Allowed");
    assert_eq!(HookResponse::NotFound.status_code(), 404);
    assert_eq!(HookResponse::NotFound.body(), "Not Found");
    assert_eq!(HookResponse::BadRequest.status_code(), 400);
    assert_eq!(HookResponse::BadRequest.body(), "Bad Request");
    assert_eq!(HookResponse::Accepted.status_code(), 200);
    assert_eq!(HookResponse::Accepted.body(), "OK");
}

#[test]
fn unreadable_or_malformed_body_is_bad_request() {
    let mut s = HookState::new();
    assert_eq!(hook_body_reply(&HookBody::Unreadable), HookResponse::BadRequest);
    assert!(s.apply_hook_body(HookBody::Unreadable).is_none());
    assert_eq!(hook_body_reply(&HookBody::Malformed), HookResponse::BadRequest);
    assert!(s.apply_hook_body(HookBody::Malformed).is_none());
}

#[test]
fn known_event_is_recorded_and_announced() {
    let mut s = HookState::new();
    let body = HookBody::Payload(payload(Some(12), Some("PreToolUse")));
    assert_eq!(hook_body_reply(&body), HookResponse::Accepted);
    let c = s.apply_hook_body(body);
    let c = c.expect("announced");
    assert_eq!(c.pty_id, 12);
    assert_eq!(c.status, "ai-working");
    assert_eq!(s.get_status(12), Some("ai-working".to_string()));
    assert!(s.is_hook_active(12));
}

#[test]
fn payload_without_effect_is_accepted_and_ignored() {
    let mut s = HookState::new();
    for p in [payload(None, Some("Stop")), payload(Some(3), None), payload(Some(3), Some("Whatever"))] {
        let body = HookBody::Payload(p);
        assert_eq!(hook_body_reply(&body), HookResponse::Accepted);
        assert!(s.apply_hook_body(body).is_none());
    }
    assert_eq!(s.get_status(3), None);
    assert!(!s.is_hook_active(3));
}

#[test]
fn ports_tried_in_order() {
    assert_eq!(hook_server_ports(), vec![23456, 23457, 23458, 23459, 23460]);
    assert_eq!(DEFAULT_PORT, 23456);
    assert_eq!(MAX_PORT_ATTEMPTS, 5);
}

#[test]
fn port_file_renders_json() {
    assert_eq!(port_file_content(23456), "{\"port\":23456}");
    assert_eq!(port_file_content(0), "{\"port\":0}");
    assert_eq!(port_file_content(9), "{\"port\":9}");
    assert_eq!(port_file_content(65535), "{\"port\":65535}");
    let v: serde_json::Value = serde_json::from_str(&port_file_content(23460)).unwrap();
    assert_eq!(v["port"], 23460);
}

#[test]
fn binding_takes_first_port_that_binds() {
    assert_eq!(bind_step(0, false), BindStep::Try(23456));
    assert_eq!(bind_step(1, false), BindStep::Try(23457));
    assert_eq!(bind_step(1, true), BindStep::Listen(23456));
    assert_eq!(bind_step(3, true), BindStep::Listen(23458));
    assert_eq!(bind_step(4, false), BindStep::Try(23460));
    assert_eq!(bind_step(5, true), BindStep::Listen(23460));
    assert_eq!(bind_step(5, false), BindStep::GiveUp);
    assert_eq!(bind_step(0, true), BindStep::Try(23456));
}
