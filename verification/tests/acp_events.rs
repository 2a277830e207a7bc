use agenter_runner::acp_events::{
    acp_permission_event, acp_session_id, is_response_to, normalize_acp_message,
    normalize_acp_permission_request, normalize_acp_prompt_response,
};
use agenter_runner::events::{ApprovalKind, NormalizedEvent};
use agenter_runner::json::JsonValue;
use agenter_runner::model::{PlanEntryStatus, SessionId};

#[allow(dead_code)]
fn conv(v: &serde_json::Value) -> JsonValue {
    match v {
        serde_json::Value::Null => JsonValue::Null,
        serde_json::Value::Bool(b) => JsonValue::Bool(*b),
        serde_json::Value::Number(n) => {
            if let Some(i) = n.as_i64() {
                JsonValue::Int(i)
            } else if let Some(u) = n.as_u64() {
                JsonValue::UInt(u)
            } else {
                JsonValue::Float(n.to_string())
            }
        }
        serde_json::Value::String(s) => JsonValue::Str(s.clone()),
        serde_json::Value::Array(a) => JsonValue::Array(a.iter().map(conv).collect()),
        serde_json::Value::Object(o) => {
            JsonValue::Object(o.iter().map(|(k, v)| (k.clone(), conv(v))).collect())
        }
    }
}

#[allow(dead_code)]
fn back(v: &JsonValue) -> serde_json::Value {
    match v {
        JsonValue::Null => serde_json::Value::Null,
        JsonValue::Bool(b) => serde_json::Value::Bool(*b),
        JsonValue::Int(i) => serde_json::Value::from(*i),
        JsonValue::UInt(u) => serde_json::Value::from(*u),
        JsonValue::Float(t) => serde_json::from_str(t).unwrap(),
        JsonValue::Str(s) => serde_json::Value::String(s.clone()),
        JsonValue::Array(a) => serde_json::Value::Array(a.iter().map(back).collect()),
        JsonValue::Object(o) => {
            serde_json::Value::Object(o.iter().map(|(k, v)| (k.clone(), back(v))).collect())
        }
    }
}

#[allow(dead_code)]
fn j(text: &str) -> JsonValue {
    conv(&serde_json::from_str::<serde_json::Value>(text).unwrap())
}

#[allow(dead_code)]
fn sj(text: &str) -> serde_json::Value {
    serde_json::from_str(text).unwrap()
}

const NIL: SessionId = SessionId(0);

#[test]
fn unknown_acp_session_update_becomes_provider_event() {
    let message = j(r#"{
        "jsonrpc": "2.0",
        "method": "session/update",
        "params": {
            "sessionId": "native-1",
            "update": {
                "sessionUpdate": "new_provider_thing",
                "title": "Provider thing"
            }
        }
    }"#);

    let events = normalize_acp_message(NIL, "opencode", &message);

    assert_eq!(events.len(), 1);
    let NormalizedEvent::ProviderEvent(event) = &events[0] else {
        panic!("expected provider event fallback");
    };
    assert_eq!(event.provider_id.as_str(), "opencode");
    assert_eq!(event.method, "session/update");
    assert_eq!(event.category, "new_provider_thing");
    assert_eq!(event.title, "Provider thing");
}

#[test]
fn acp_message_chunk_becomes_delta_with_message_id() {
    let message = j(r#"{"jsonrpc":"2.0","method":"session/update","params":{"sessionId":"native-1",
        "update":{"sessionUpdate":"agent_message_chunk","id":"chunk-1","content":"hello"}}}"#);
    let events = normalize_acp_message(NIL, "qwen", &message);
    assert_eq!(events.len(), 1);
    let NormalizedEvent::AgentMessageDelta(delta) = &events[0] else {
        panic!("expected a message delta");
    };
    assert_eq!(delta.message_id, "chunk-1");
    assert_eq!(delta.delta, "hello");
    assert_eq!(delta.provider_payload.as_ref(), Some(&message));

    let textless = j(r#"{"method":"session/update","params":{"update":{"sessionUpdate":"agent_message_chunk"}}}"#);
    assert!(normalize_acp_message(NIL, "qwen", &textless).is_empty());
}

#[test]
fn acp_messages_other_than_updates_give_no_events() {
    let message = j(r#"{"jsonrpc":"2.0","method":"session/prompt","params":{"update":{"sessionUpdate":"plan"}}}"#);
    assert!(normalize_acp_message(NIL, "qwen", &message).is_empty());
}

#[test]
fn acp_plan_update_maps_entries_and_statuses() {
    let message = j(r#"{"method":"session/update","params":{"update":{"sessionUpdate":"plan",
        "planId":"plan-1","isPartial":true,
        "entries":[{"content":"Inspect","status":"completed"},{"title":"Edit","status":"running"},
                   {"status":"done"},{"label":"Ship"},{"label":"Undo","status":"canceled"}]}}}"#);
    let events = normalize_acp_message(NIL, "gemini", &message);
    let NormalizedEvent::PlanUpdated(plan) = &events[0] else {
        panic!("expected a plan");
    };
    assert_eq!(plan.plan_id.as_deref(), Some("plan-1"));
    assert!(plan.append);
    let labels: Vec<&str> = plan.entries.iter().map(|e| e.label.as_str()).collect();
    assert_eq!(labels, vec!["Inspect", "Edit", "Ship", "Undo"]);
    assert_eq!(plan.entries[0].status, PlanEntryStatus::Completed);
    assert_eq!(plan.entries[1].status, PlanEntryStatus::InProgress);
    assert_eq!(plan.entries[2].status, PlanEntryStatus::Pending);
    assert_eq!(plan.entries[3].status, PlanEntryStatus::Cancelled);

    let steps = j(r#"{"method":"session/update","params":{"update":{"sessionUpdate":"plan_update",
        "steps":[{"label":"One","status":"error"}]}}}"#);
    let events = normalize_acp_message(NIL, "gemini", &steps);
    let NormalizedEvent::PlanUpdated(plan) = &events[0] else {
        panic!("expected a plan");
    };
    assert!(!plan.append);
    assert_eq!(plan.entries.len(), 1);
    assert_eq!(plan.entries[0].status, PlanEntryStatus::Failed);
}

#[test]
fn acp_tool_calls_start_and_update() {
    let started = j(r#"{"method":"session/update","params":{"update":{"sessionUpdate":"tool_call",
        "toolCallId":"tool-1","kind":"read","title":"Read file","input":{"path":"a"}}}}"#);
    let events = normalize_acp_message(NIL, "qwen", &started);
    let NormalizedEvent::ToolStarted(tool) = &events[0] else {
        panic!("expected a started tool");
    };
    assert_eq!(tool.tool_call_id, "tool-1");
    assert_eq!(tool.name, "read");
    assert_eq!(tool.title.as_deref(), Some("Read file"));
    assert_eq!(back(tool.input.as_ref().unwrap()), sj(r#"{"path":"a"}"#));
    assert!(tool.output.is_none());

    let updated = j(r#"{"method":"session/update","params":{"update":{"sessionUpdate":"tool_call_update"}}}"#);
    let events = normalize_acp_message(NIL, "qwen", &updated);
    let NormalizedEvent::ToolUpdated(tool) = &events[0] else {
        panic!("expected an updated tool");
    };
    assert_eq!(tool.tool_call_id, "acp-tool");
    assert_eq!(tool.name, "tool");
}

#[test]
fn acp_error_update_has_a_default_message() {
    let message = j(r#"{"method":"session/update","params":{"code":"E1","update":{"sessionUpdate":"error"}}}"#);
    let events = normalize_acp_message(NIL, "qwen", &message);
    let NormalizedEvent::Error(error) = &events[0] else {
        panic!("expected an error");
    };
    assert_eq!(error.session_id, Some(NIL));
    assert_eq!(error.code.as_deref(), Some("E1"));
    assert_eq!(error.message, "ACP provider reported an error");
}

#[test]
fn acp_update_without_kind_is_a_session_update_event() {
    let message = j(r#"{"method":"session/update","params":{"update":{}}}"#);
    let events = normalize_acp_message(NIL, "qwen", &message);
    let NormalizedEvent::ProviderEvent(event) = &events[0] else {
        panic!("expected provider event");
    };
    assert_eq!(event.category, "session_update");
    assert_eq!(event.title, "session/update");
}

#[test]
fn acp_permission_request_becomes_provider_specific_approval() {
    let message = j(r#"{"jsonrpc":"2.0","id":"permission-1","method":"session/request_permission",
        "params":{"toolCall":{"toolCallId":"tool-1","name":"write_file","content":[{"text":"write a.txt"}]},
        "options":[{"optionId":"allow_once","kind":"allow_once"}]}}"#);
    let NormalizedEvent::ApprovalRequested(approval) =
        acp_permission_event(NIL, "qwen", &message, 42).expect("permission")
    else {
        panic!("expected an approval");
    };
    assert_eq!(approval.approval_id, 42);
    assert_eq!(approval.kind, ApprovalKind::ProviderSpecific);
    assert_eq!(approval.title, "write_file");
    assert_eq!(approval.details.as_deref(), Some("write a.txt"));
    assert_eq!(approval.subject.as_deref(), Some("write a.txt"));
    assert_eq!(approval.native_request_id.as_deref(), Some("\"permission-1\""));
    assert!(approval.native_blocking);
    assert!(approval.options.iter().any(|o| o.option_id == "cancel_turn"));
    assert_eq!(
        back(approval.presentation.as_ref().unwrap()),
        sj(r#"{"provider_id":"qwen","options":[{"optionId":"allow_once","kind":"allow_once"}]}"#)
    );

    let (id, event) = normalize_acp_permission_request(NIL, "qwen", &message).expect("permission");
    let NormalizedEvent::ApprovalRequested(approval) = event else {
        panic!("expected an approval");
    };
    assert_eq!(approval.approval_id, id);
    assert_eq!((id >> 76) & 0xf, 4);

    let other = j(r#"{"method":"session/update","params":{}}"#);
    assert!(normalize_acp_permission_request(NIL, "qwen", &other).is_none());
}

#[test]
fn acp_permission_details_fall_back_to_params_text() {
    let message = j(r#"{"id":7,"method":"session/request_permission","params":{"title":"Run it"}}"#);
    let NormalizedEvent::ApprovalRequested(approval) =
        acp_permission_event(NIL, "gemini", &message, 1).expect("permission")
    else {
        panic!("expected an approval");
    };
    assert_eq!(approval.title, "Run it");
    assert_eq!(approval.details.as_deref(), Some(r#"{"title":"Run it"}"#));
    assert_eq!(approval.native_request_id.as_deref(), Some("7"));
    assert_eq!(back(approval.presentation.as_ref().unwrap())["options"], serde_json::Value::Null);
}

#[test]
fn acp_prompt_response_completes_the_message() {
    let message = j(r#"{"id":3,"result":{"sessionId":"native-1","content":{"text":"done"}}}"#);
    let NormalizedEvent::AgentMessageCompleted(done) = normalize_acp_prompt_response(NIL, &message) else {
        panic!("expected a completed message");
    };
    assert_eq!(done.message_id, "native-1");
    assert_eq!(done.content.as_deref(), Some("done"));

    let bare = j(r#"{"result":{}}"#);
    let NormalizedEvent::AgentMessageCompleted(done) = normalize_acp_prompt_response(NIL, &bare) else {
        panic!("expected a completed message");
    };
    assert_eq!(done.message_id, "acp-prompt");
    assert!(done.content.is_none());
}

#[test]
fn acp_responses_are_matched_by_id() {
    let response = j(r#"{"id":4,"result":{"sessionId":"s-1"}}"#);
    assert!(is_response_to(&response, &j("4")));
    assert!(!is_response_to(&response, &j("5")));
    assert!(!is_response_to(&j(r#"{"id":4,"method":"x"}"#), &j("4")));
    assert_eq!(acp_session_id(&response), Some("s-1"));
    assert_eq!(acp_session_id(&j(r#"{"sessionId":"top"}"#)), Some("top"));
    let _ = JsonValue::Null;
}
