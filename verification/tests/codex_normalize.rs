use agenter_runner::codex::normalize_codex_message;
use agenter_runner::codex_approvals::{unsupported_codex_server_request, unsupported_request_response};
use agenter_runner::codex_rpc::CodexTurnScope;
use agenter_runner::codex_turn::normalize_codex_message_for_scope;
use agenter_runner::events::NormalizedEvent;
use agenter_runner::json::JsonValue;
use agenter_runner::model::{CommandOutputStream, PlanEntryStatus, SessionId, SessionStatus};

#[allow(dead_code)]
fn conv(v: &serde_json::Value) -> JsonValue {
    match v {
        serde_json::Value::Null => JsonValue::Null,
        serde_json::Value::Bool(b) => JsonValue::Bool(*b),
        serde_json::Value::Number(n) => {
            if let Some(i) = n.as_i64() {
                JsonValue::Int(i)
            } else if let Some(u) = n.as_u64() {
                JsonValue::UInt(u)
            } else {
                JsonValue::Float(n.to_string())
            }
        }
        serde_json::Value::String(s) => JsonValue::Str(s.clone()),
        serde_json::Value::Array(a) => JsonValue::Array(a.iter().map(conv).collect()),
        serde_json::Value::Object(o) => {
            JsonValue::Object(o.iter().map(|(k, v)| (k.clone(), conv(v))).collect())
        }
    }
}

#[allow(dead_code)]
fn back(v: &JsonValue) -> serde_json::Value {
    match v {
        JsonValue::Null => serde_json::Value::Null,
        JsonValue::Bool(b) => serde_json::Value::Bool(*b),
        JsonValue::Int(i) => serde_json::Value::from(*i),
        JsonValue::UInt(u) => serde_json::Value::from(*u),
        JsonValue::Float(t) => serde_json::from_str(t).unwrap(),
        JsonValue::Str(s) => serde_json::Value::String(s.clone()),
        JsonValue::Array(a) => serde_json::Value::Array(a.iter().map(back).collect()),
        JsonValue::Object(o) => {
            serde_json::Value::Object(o.iter().map(|(k, v)| (k.clone(), back(v))).collect())
        }
    }
}

#[allow(dead_code)]
fn j(text: &str) -> JsonValue {
    conv(&serde_json::from_str::<serde_json::Value>(text).unwrap())
}

#[allow(dead_code)]
fn sj(text: &str) -> serde_json::Value {
    serde_json::from_str(text).unwrap()
}

fn nil() -> SessionId {
    SessionId(0)
}

#[test]
fn normalizes_codex_message_delta_fixture() {
    let message = j(r#"{"method": "agentMessage/delta", "params": {"messageId": "msg-1", "delta": "hello"}}"#);
    let events = normalize_codex_message(nil(), &message);
    assert_eq!(events.len(), 1);
    let NormalizedEvent::AgentMessageDelta(delta) = &events[0] else {
        panic!("expected message delta");
    };
    assert_eq!(delta.message_id, "msg-1");
    assert_eq!(delta.delta, "hello");
}

#[test]
fn normalizes_live_codex_item_agent_message_delta() {
    let message = j(r#"{"method": "item/agentMessage/delta", "params": {"threadId": "thread-1", "turnId": "turn-1", "itemId": "msg-live-1", "delta": "Under"}}"#);
    let events = normalize_codex_message(nil(), &message);
    assert_eq!(events.len(), 1);
    let NormalizedEvent::AgentMessageDelta(delta) = &events[0] else {
        panic!("expected message delta");
    };
    assert_eq!(delta.message_id, "msg-live-1");
    assert_eq!(delta.delta, "Under");
}

#[test]
fn normalizes_live_codex_completed_agent_message_item() {
    let message = j(r#"{"method": "item/completed", "params": {"threadId": "thread-1", "turnId": "turn-1", "item": {"id": "msg-live-1", "type": "agentMessage", "text": "Done."}}}"#);
    let events = normalize_codex_message(nil(), &message);
    assert_eq!(events.len(), 1);
    let NormalizedEvent::AgentMessageCompleted(completed) = &events[0] else {
        panic!("expected message completed");
    };
    assert_eq!(completed.message_id, "msg-live-1");
    assert_eq!(completed.content.as_deref(), Some("Done."));
}

#[test]
fn normalizes_codex_thread_compacted_as_native_notification() {
    let message = j(r#"{"method": "thread/compacted", "params": {"threadId": "thread-1", "turnId": "turn-1"}}"#);
    let events = normalize_codex_message(nil(), &message);
    assert_eq!(events.len(), 1);
    let NormalizedEvent::NativeNotification(event) = &events[0] else {
        panic!("expected native notification");
    };
    assert_eq!(event.provider_id.as_str(), "codex");
    assert_eq!(event.category, "compaction");
    assert_eq!(event.title, "Context compacted");
    assert_eq!(event.status.as_deref(), Some("completed"));
}

#[test]
fn normalizes_raw_codex_context_compaction_item_as_native_notification() {
    let text = r#"{"id": "item-237", "type": "contextCompaction"}"#;
    let message = j(text);
    let events = normalize_codex_message(nil(), &message);
    assert_eq!(events.len(), 1);
    let NormalizedEvent::NativeNotification(event) = &events[0] else {
        panic!("expected native notification");
    };
    assert_eq!(event.event_id.as_deref(), Some("item-237"));
    assert_eq!(event.category, "compaction");
    assert_eq!(event.title, "Context compacted");
    assert_eq!(event.status.as_deref(), Some("completed"));
    assert_eq!(event.provider_payload.as_ref().map(back), Some(sj(text)));
}

#[test]
fn normalizes_codex_context_compaction_item_as_native_notification() {
    let message = j(r#"{"method": "item/completed", "params": {"threadId": "thread-1", "turnId": "turn-1", "item": {"id": "compact-1", "type": "contextCompaction"}}}"#);
    let events = normalize_codex_message(nil(), &message);
    assert_eq!(events.len(), 1);
    let NormalizedEvent::NativeNotification(event) = &events[0] else {
        panic!("expected native notification");
    };
    assert_eq!(event.event_id.as_deref(), Some("compact-1"));
    assert_eq!(event.category, "compaction");
    assert_eq!(event.title, "Context compacted");
}

#[test]
fn normalizes_codex_slash_command_result_object_as_native_notification() {
    let text = r#"{"accepted": true, "arguments": {}, "command_id": "codex.compact", "danger_level": "safe", "message": "Codex compaction started.", "provider_payload": {"id": 12, "result": {}}, "raw_input": "/compact", "target": "provider"}"#;
    let message = j(text);
    let events = normalize_codex_message(nil(), &message);
    assert_eq!(events.len(), 1);
    let NormalizedEvent::NativeNotification(event) = &events[0] else {
        panic!("expected native notification");
    };
    assert_eq!(event.category, "slash_command");
    assert_eq!(event.title, "/compact");
    assert_eq!(event.detail.as_deref(), Some("Codex compaction started."));
    assert_eq!(event.status.as_deref(), Some("accepted"));
    assert_eq!(event.provider_payload.as_ref().map(back), Some(sj(text)));
}

#[test]
fn normalizes_active_thread_status_as_running_status_and_native_notification() {
    let message = j(r#"{"method": "thread/status/changed", "params": {"status": {"activeFlags": [], "type": "active"}, "threadId": "019dddf9-a2d8-7510-91b8-9e351bd666dc"}}"#);
    let events = normalize_codex_message(nil(), &message);
    assert_eq!(events.len(), 2);
    let NormalizedEvent::SessionStatusChanged(status) = &events[0] else {
        panic!("expected session status");
    };
    assert_eq!(status.status, SessionStatus::Running);
    let NormalizedEvent::NativeNotification(event) = &events[1] else {
        panic!("expected native notification");
    };
    assert_eq!(event.category, "thread");
    assert_eq!(event.status.as_deref(), Some("active"));
}

#[test]
fn normalizes_idle_thread_status_as_completed_status_and_native_notification() {
    let message = j(r#"{"method": "thread/status/changed", "params": {"status": {"type": "idle"}, "threadId": "019dddf9-a2d8-7510-91b8-9e351bd666dc"}}"#);
    let events = normalize_codex_message(nil(), &message);
    assert_eq!(events.len(), 2);
    let NormalizedEvent::SessionStatusChanged(status) = &events[0] else {
        panic!("expected session status");
    };
    assert_eq!(status.status, SessionStatus::Idle);
    let NormalizedEvent::NativeNotification(event) = &events[1] else {
        panic!("expected native notification");
    };
    assert_eq!(event.category, "thread");
    assert_eq!(event.status.as_deref(), Some("idle"));
}

#[test]
fn normalizes_turn_started_as_running_status_and_native_notification() {
    let message = j(r#"{"method": "turn/started", "params": {"threadId": "019dddf9-a2d8-7510-91b8-9e351bd666dc", "turn": {"completedAt": null, "durationMs": null, "error": null, "id": "019de387-4cb9-7e51-bbeb-35f5e1c7d0bd", "items": [], "startedAt": 1777638788, "status": "inProgress"}}}"#);
    let events = normalize_codex_message(nil(), &message);
    assert_eq!(events.len(), 2);
    let NormalizedEvent::SessionStatusChanged(status) = &events[0] else {
        panic!("expected session status");
    };
    assert_eq!(status.status, SessionStatus::Running);
    let NormalizedEvent::NativeNotification(event) = &events[1] else {
        panic!("expected native notification");
    };
    assert_eq!(event.event_id.as_deref(), Some("019de387-4cb9-7e51-bbeb-35f5e1c7d0bd"));
    assert_eq!(event.category, "turn");
    assert_eq!(event.status.as_deref(), Some("inProgress"));
}

#[test]
fn normalizes_token_usage_update_as_native_notification_with_summary() {
    let text = r#"{"method": "thread/tokenUsage/updated", "params": {"threadId": "019dddf9-a2d8-7510-91b8-9e351bd666dc", "tokenUsage": {"last": {"cachedInputTokens": 0, "inputTokens": 0, "outputTokens": 0, "reasoningOutputTokens": 0, "totalTokens": 10421}, "modelContextWindow": 258400, "total": {"cachedInputTokens": 137309056, "inputTokens": 140097909, "outputTokens": 301095, "reasoningOutputTokens": 44763, "totalTokens": 140399004}}, "turnId": "019de387-4cb9-7e51-bbeb-35f5e1c7d0bd"}}"#;
    let message = j(text);
    let events = normalize_codex_message(nil(), &message);
    assert_eq!(events.len(), 1);
    let NormalizedEvent::NativeNotification(event) = &events[0] else {
        panic!("expected native notification");
    };
    assert_eq!(event.category, "token_usage");
    assert_eq!(event.title, "Token usage updated");
    assert!(event.detail.as_deref().unwrap_or_default().contains("last 10421"));
    assert!(event.detail.as_deref().unwrap_or_default().contains("total 140399004"));
    assert!(event.detail.as_deref().unwrap_or_default().contains("window 258400"));
    assert_eq!(event.provider_payload.as_ref().map(back), Some(sj(text)));
}

#[test]
fn normalizes_rate_limit_update_as_native_notification_with_summary() {
    let text = r#"{"method": "account/rateLimits/updated", "params": {"rateLimits": {"credits": null, "limitId": "codex", "limitName": null, "planType": "prolite", "primary": {"resetsAt": 1777640533, "usedPercent": 57, "windowDurationMins": 300}, "rateLimitReachedType": null, "secondary": {"resetsAt": 1777968663, "usedPercent": 26, "windowDurationMins": 10080}}}}"#;
    let message = j(text);
    let events = normalize_codex_message(nil(), &message);
    assert_eq!(events.len(), 1);
    let NormalizedEvent::NativeNotification(event) = &events[0] else {
        panic!("expected native notification");
    };
    assert_eq!(event.category, "rate_limits");
    assert_eq!(event.title, "Rate limits updated");
    assert!(event.detail.as_deref().unwrap_or_default().contains("prolite"));
    assert!(event.detail.as_deref().unwrap_or_default().contains("primary 57%"));
    assert!(event.detail.as_deref().unwrap_or_default().contains("secondary 26%"));
    assert_eq!(event.provider_payload.as_ref().map(back), Some(sj(text)));
}

#[test]
fn normalizes_unknown_codex_notification_as_native_notification() {
    let text = r#"{"method": "model/rerouted", "params": {"threadId": "thread-1", "turnId": "turn-1", "from": "gpt-5.4", "to": "gpt-5.4-mini"}}"#;
    let message = j(text);
    let events = normalize_codex_message(nil(), &message);
    assert_eq!(events.len(), 1);
    let NormalizedEvent::NativeNotification(event) = &events[0] else {
        panic!("expected native notification");
    };
    assert_eq!(event.category, "model");
    assert_eq!(event.title, "Model rerouted");
    assert_eq!(event.provider_payload.as_ref().map(back), Some(sj(text)));
}

#[test]
fn normalizes_turn_diff_updated_as_turn_diff_event() {
    let message = j(r#"{"method": "turn/diff/updated", "params": {"threadId": "thread-1", "turnId": "turn-1", "message": "Added 3 lines"}}"#);
    let events = normalize_codex_message(nil(), &message);
    let NormalizedEvent::TurnDiffUpdated(event) = &events[0] else {
        panic!("expected turn diff event");
    };
    assert_eq!(event.method, "turn/diff/updated");
    assert_eq!(event.title, "Turn Diff Updated");
    assert_eq!(event.status.as_deref(), None);
}

#[test]
fn normalizes_reasoning_updates_as_reasoning_events() {
    let message = j(r#"{"method": "item/reasoning/textDelta", "params": {"threadId": "thread-1", "turnId": "turn-1", "message": "Thinking..."}}"#);
    let events = normalize_codex_message(nil(), &message);
    let NormalizedEvent::ItemReasoning(event) = &events[0] else {
        panic!("expected item reasoning event");
    };
    assert_eq!(event.method, "item/reasoning/textDelta");
    assert_eq!(event.title, "Item Reasoning TextDelta");
}

#[test]
fn normalizes_server_request_resolved_as_server_request_event() {
    let message = j(r#"{"method": "serverRequest/resolved", "params": {"threadId": "thread-1", "turnId": "turn-1"}}"#);
    let events = normalize_codex_message(nil(), &message);
    let NormalizedEvent::ServerRequestResolved(event) = &events[0] else {
        panic!("expected server request resolved event");
    };
    assert_eq!(event.method, "serverRequest/resolved");
    assert_eq!(event.title, "ServerRequest Resolved");
}

#[test]
fn normalizes_mcp_tool_call_progress_as_mcp_tool_call_progress_event() {
    let message = j(r#"{"method": "item/mcpToolCall/progress", "params": {"threadId": "thread-1", "turnId": "turn-1", "message": "Connecting"}}"#);
    let events = normalize_codex_message(nil(), &message);
    let NormalizedEvent::McpToolCallProgress(event) = &events[0] else {
        panic!("expected mcp tool call progress event");
    };
    assert_eq!(event.method, "item/mcpToolCall/progress");
    assert_eq!(event.title, "Item McpToolCall Progress");
}

#[test]
fn normalizes_thread_realtime_events_as_thread_realtime_event() {
    let message = j(r#"{"method": "thread/realtime/update", "params": {"threadId": "thread-1", "turnId": "turn-1", "message": "streaming"}}"#);
    let events = normalize_codex_message(nil(), &message);
    let NormalizedEvent::ThreadRealtimeEvent(event) = &events[0] else {
        panic!("expected thread realtime event");
    };
    assert_eq!(event.method, "thread/realtime/update");
    assert_eq!(event.title, "Thread Realtime Update");
}

#[test]
fn builds_error_response_for_unsupported_codex_server_request() {
    let message = j(r#"{"id": "tool-call-1", "method": "item/tool/call", "params": {"threadId": "thread-1", "turnId": "turn-1", "itemId": "tool-1"}}"#);
    let Some((native_request_id, method)) = unsupported_codex_server_request(&message) else {
        panic!("expected unsupported server request");
    };
    assert_eq!(back(&native_request_id), sj(r#""tool-call-1""#));
    assert_eq!(method, "item/tool/call");
    assert_eq!(
        back(&unsupported_request_response(native_request_id, method)),
        sj(r#"{"id": "tool-call-1", "error": {"code": -32601, "message": "unsupported Codex server request method: item/tool/call"}}"#)
    );
}

#[test]
fn normalizes_codex_plan_update_notification() {
    let message = j(r#"{"method": "turn/plan/updated", "params": {"threadId": "thread-1", "turnId": "turn-1", "explanation": "Implement in phases", "plan": [{"step": "Add tests", "status": "completed"}, {"step": "Implement mapping", "status": "inProgress"}, {"step": "Verify", "status": "pending"}]}}"#);
    let events = normalize_codex_message(nil(), &message);
    assert_eq!(events.len(), 1);
    let NormalizedEvent::PlanUpdated(plan) = &events[0] else {
        panic!("expected plan update");
    };
    assert_eq!(plan.plan_id.as_deref(), Some("turn-1"));
    assert_eq!(plan.content.as_deref(), Some("Implement in phases"));
    assert_eq!(plan.entries[1].label, "Implement mapping");
    assert_eq!(plan.entries[1].status, PlanEntryStatus::InProgress);
}

#[test]
fn normalizes_codex_plan_delta_against_turn_plan_when_turn_id_is_present() {
    let message = j(r#"{"method": "item/plan/delta", "params": {"threadId": "thread-1", "turnId": "turn-1", "itemId": "plan-item-1", "delta": "Add the reducer"}}"#);
    let events = normalize_codex_message(nil(), &message);
    assert_eq!(events.len(), 1);
    let NormalizedEvent::PlanUpdated(plan) = &events[0] else {
        panic!("expected plan update");
    };
    assert_eq!(plan.plan_id.as_deref(), Some("turn-1"));
    assert_eq!(plan.content.as_deref(), Some("Add the reducer"));
    assert!(plan.append);
}

#[test]
fn normalizes_codex_command_output_delta() {
    let message = j(r#"{"method": "item/commandExecution/outputDelta", "params": {"threadId": "thread-1", "turnId": "turn-1", "itemId": "cmd-1", "stream": "stderr", "delta": "warning\n"}}"#);
    let events = normalize_codex_message(nil(), &message);
    assert_eq!(events.len(), 1);
    let NormalizedEvent::CommandOutputDelta(output) = &events[0] else {
        panic!("expected command output");
    };
    assert_eq!(output.command_id, "cmd-1");
    assert_eq!(output.stream, CommandOutputStream::Stderr);
    assert_eq!(output.delta, "warning\n");
}

#[test]
fn ignores_live_codex_user_and_reasoning_items() {
    let user_message = j(r#"{"method": "item/started", "params": {"item": {"id": "user-1", "type": "userMessage", "content": [{"type": "text", "text": "hello"}]}}}"#);
    let reasoning = j(r#"{"method": "item/completed", "params": {"item": {"id": "reasoning-1", "type": "reasoning", "content": []}}}"#);
    assert!(normalize_codex_message(nil(), &user_message).is_empty());
    assert!(normalize_codex_message(nil(), &reasoning).is_empty());
}

#[test]
fn filters_live_codex_messages_to_target_thread_but_not_turn() {
    let target = CodexTurnScope { thread_id: Some("thread-1".to_owned()), turn_id: Some("turn-1".to_owned()) };
    let matching = j(r#"{"method": "item/agentMessage/delta", "params": {"threadId": "thread-1", "turnId": "turn-1", "itemId": "msg-live-1", "delta": "ok"}}"#);
    let other_thread = j(r#"{"method": "item/agentMessage/delta", "params": {"threadId": "thread-2", "turnId": "turn-1", "itemId": "msg-live-2", "delta": "wrong"}}"#);
    let same_thread_other_turn = j(r#"{"method": "item/agentMessage/delta", "params": {"threadId": "thread-1", "turnId": "turn-2", "itemId": "msg-live-2", "delta": "still same thread"}}"#);
    assert_eq!(normalize_codex_message_for_scope(nil(), &matching, &target).len(), 1);
    assert!(normalize_codex_message_for_scope(nil(), &other_thread, &target).is_empty());
    assert_eq!(normalize_codex_message_for_scope(nil(), &same_thread_other_turn, &target).len(), 1);
}

#[test]
fn scope_allows_thread_notifications_without_turn_id_when_turn_scope_is_known() {
    let target = CodexTurnScope { thread_id: Some("thread-1".to_owned()), turn_id: Some("turn-1".to_owned()) };
    let thread_only = j(r#"{"method": "thread/status/changed", "params": {"threadId": "thread-1", "status": {"type": "active"}}}"#);
    assert_eq!(normalize_codex_message_for_scope(nil(), &thread_only, &target).len(), 2);
}

#[test]
fn turn_completed_emits_completion_then_idle_status() {
    let message = j(r#"{"method": "turn/completed", "params": {"threadId": "t", "turnId": "turn-9"}}"#);
    let events = normalize_codex_message(nil(), &message);
    assert_eq!(events.len(), 2);
    let NormalizedEvent::AgentMessageCompleted(done) = &events[0] else {
        panic!("expected completion");
    };
    assert_eq!(done.message_id, "turn-9");
    assert!(done.content.is_none());
    let NormalizedEvent::SessionStatusChanged(status) = &events[1] else {
        panic!("expected status");
    };
    assert_eq!(status.status, SessionStatus::Idle);
    assert_eq!(status.reason.as_deref(), Some("Codex turn completed."));
}

#[test]
fn error_notification_keeps_code_and_default_message() {
    let message = j(r#"{"method": "error", "params": {"code": "E1"}}"#);
    let events = normalize_codex_message(nil(), &message);
    let NormalizedEvent::Error(error) = &events[0] else {
        panic!("expected error");
    };
    assert_eq!(error.code.as_deref(), Some("E1"));
    assert_eq!(error.message, "Codex reported an error");
}

#[test]
fn command_items_start_and_complete_as_commands() {
    let started = j(r#"{"method": "item/started", "params": {"item": {"id": "cmd-1", "type": "commandExecution", "command": "ls", "cwd": "/w"}}}"#);
    let events = normalize_codex_message(nil(), &started);
    let NormalizedEvent::CommandStarted(command) = &events[0] else {
        panic!("expected command start");
    };
    assert_eq!(command.command_id, "cmd-1");
    assert_eq!(command.command, "ls");
    assert_eq!(command.cwd.as_deref(), Some("/w"));
    let completed = j(r#"{"method": "item/completed", "params": {"item": {"id": "cmd-1", "type": "commandExecution", "command": "ls", "exitCode": 2, "durationMs": -5, "success": false}}}"#);
    let events = normalize_codex_message(nil(), &completed);
    let NormalizedEvent::CommandCompleted(done) = &events[0] else {
        panic!("expected command completion");
    };
    assert_eq!(done.exit_code, Some(2));
    assert_eq!(done.duration_ms, None);
    assert!(!done.success);
}

#[test]
fn file_change_items_complete_as_proposed_changes() {
    let message = j(r#"{"method": "item/completed", "params": {"item": {"id": "f-1", "type": "fileChange", "path": "a.rs", "changeKind": "add", "diff": "+x"}}}"#);
    let events = normalize_codex_message(nil(), &message);
    let NormalizedEvent::FileChangeProposed(change) = &events[0] else {
        panic!("expected file change");
    };
    assert_eq!(change.path, "a.rs");
    assert_eq!(change.change_kind, agenter_runner::model::FileChangeKind::Create);
    assert_eq!(change.diff.as_deref(), Some("+x"));
}

#[test]
fn messages_without_a_string_method_give_nothing() {
    assert!(normalize_codex_message(nil(), &j(r#"{"method": 3}"#)).is_empty());
    assert!(normalize_codex_message(nil(), &j(r#"{"jsonrpc": "2.0"}"#)).is_empty());
}
