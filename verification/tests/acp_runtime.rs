use agenter_runner::acp::AcpWorkspaceFileService;
use agenter_runner::acp_runtime::{
    acp_request, acp_result, initialize_params,
    acp_approval_answered, acp_client_request_kind, acp_discovered_sessions, acp_turn_step,
    acp_waiting_for_approval, file_written_event, list_sessions_params, load_session_params,
    new_session_params, prompt_params, read_text_file_response, AcpClientRequestKind, AcpTerminals,
    AcpTurnStep,
};
use agenter_runner::events::NormalizedEvent;
use agenter_runner::json::{json_to_text, JsonValue};
use agenter_runner::model::{SessionId, SessionStatus};

#[allow(dead_code)]
fn conv(v: &serde_json::Value) -> JsonValue {
    match v {
        serde_json::Value::Null => JsonValue::Null,
        serde_json::Value::Bool(b) => JsonValue::Bool(*b),
        serde_json::Value::Number(n) => {
            if let Some(i) = n.as_i64() {
                JsonValue::Int(i)
            } else if let Some(u) = n.as_u64() {
                JsonValue::UInt(u)
            } else {
                JsonValue::Float(n.to_string())
            }
        }
        serde_json::Value::String(s) => JsonValue::Str(s.clone()),
        serde_json::Value::Array(a) => JsonValue::Array(a.iter().map(conv).collect()),
        serde_json::Value::Object(o) => {
            JsonValue::Object(o.iter().map(|(k, v)| (k.clone(), conv(v))).collect())
        }
    }
}

#[allow(dead_code)]
fn back(v: &JsonValue) -> serde_json::Value {
    match v {
        JsonValue::Null => serde_json::Value::Null,
        JsonValue::Bool(b) => serde_json::Value::Bool(*b),
        JsonValue::Int(i) => serde_json::Value::from(*i),
        JsonValue::UInt(u) => serde_json::Value::from(*u),
        JsonValue::Float(t) => serde_json::from_str(t).unwrap(),
        JsonValue::Str(s) => serde_json::Value::String(s.clone()),
        JsonValue::Array(a) => serde_json::Value::Array(a.iter().map(back).collect()),
        JsonValue::Object(o) => {
            serde_json::Value::Object(o.iter().map(|(k, v)| (k.clone(), back(v))).collect())
        }
    }
}

#[allow(dead_code)]
fn j(text: &str) -> JsonValue {
    conv(&serde_json::from_str::<serde_json::Value>(text).unwrap())
}

#[allow(dead_code)]
fn sj(text: &str) -> serde_json::Value {
    serde_json::from_str(text).unwrap()
}

const SID: SessionId = SessionId(5);

#[test]
fn acp_requests_carry_workspace_and_session() {
    assert_eq!(json_to_text(&new_session_params("/w")), r#"{"cwd":"/w","mcpServers":[]}"#);
    assert_eq!(json_to_text(&load_session_params("/w", "s-1")), r#"{"cwd":"/w","sessionId":"s-1"}"#);
    assert_eq!(
        json_to_text(&prompt_params("s-1", "hi")),
        r#"{"prompt":[{"text":"hi","type":"text"}],"sessionId":"s-1"}"#
    );
    assert_eq!(json_to_text(&list_sessions_params("/w")), r#"{"cwd":"/w","cursor":null}"#);
}

#[test]
fn acp_prompt_turn_completes_on_the_prompt_response() {
    let prompt_id = j("3");
    let done = j(r#"{"jsonrpc":"2.0","id":3,"result":{"stopReason":"end_turn","content":"bye"}}"#);
    let AcpTurnStep::Completed(events) = acp_turn_step(SID, "qwen", "Qwen", &prompt_id, &done) else {
        panic!("the prompt response completes the turn");
    };
    assert_eq!(events.len(), 2);
    let NormalizedEvent::AgentMessageCompleted(message) = &events[0] else {
        panic!("the message completes first");
    };
    assert_eq!(message.content.as_deref(), Some("bye"));
    let NormalizedEvent::SessionStatusChanged(status) = &events[1] else {
        panic!("then the session goes idle");
    };
    assert_eq!(status.status, SessionStatus::Idle);
    assert_eq!(status.reason.as_deref(), Some("Qwen prompt completed."));
}

#[test]
fn acp_prompt_turn_routes_agent_requests_and_updates() {
    let prompt_id = j("3");
    let request = j(r#"{"jsonrpc":"2.0","id":"perm-1","method":"session/request_permission","params":{}}"#);
    assert_eq!(
        acp_turn_step(SID, "qwen", "Qwen", &prompt_id, &request),
        AcpTurnStep::ClientRequest { id: j(r#""perm-1""#), kind: AcpClientRequestKind::Permission }
    );
    let update = j(r#"{"method":"session/update","params":{"update":{"sessionUpdate":"agent_message_chunk","content":"x"}}}"#);
    let AcpTurnStep::Events(events) = acp_turn_step(SID, "qwen", "Qwen", &prompt_id, &update) else {
        panic!("updates are normalized");
    };
    assert_eq!(events.len(), 1);
    let other_response = j(r#"{"id":4,"result":{}}"#);
    assert!(matches!(
        acp_turn_step(SID, "qwen", "Qwen", &prompt_id, &other_response),
        AcpTurnStep::ClientRequest { kind: AcpClientRequestKind::Other, .. }
    ));
}

#[test]
fn acp_client_requests_are_classified_by_method() {
    let kind = |method: &str| acp_client_request_kind(&j(&format!(r#"{{"id":1,"method":"{method}"}}"#)));
    assert_eq!(kind("fs/read_text_file"), AcpClientRequestKind::ReadTextFile);
    assert_eq!(kind("fs/write_text_file"), AcpClientRequestKind::WriteTextFile);
    assert_eq!(kind("terminal/create"), AcpClientRequestKind::TerminalCreate);
    assert_eq!(kind("terminal/output"), AcpClientRequestKind::TerminalOutput);
    assert_eq!(kind("terminal/wait_for_exit"), AcpClientRequestKind::TerminalWaitForExit);
    assert_eq!(kind("terminal/kill"), AcpClientRequestKind::TerminalKill);
    assert_eq!(kind("terminal/release"), AcpClientRequestKind::TerminalRelease);
    assert_eq!(kind("other"), AcpClientRequestKind::Other);
    assert_eq!(acp_client_request_kind(&j(r#"{"id":1}"#)), AcpClientRequestKind::Other);
}

#[test]
fn acp_approval_statuses_bracket_the_wait() {
    let NormalizedEvent::SessionStatusChanged(waiting) = acp_waiting_for_approval(SID) else {
        panic!("status");
    };
    assert_eq!(waiting.status, SessionStatus::WaitingForApproval);
    assert_eq!(waiting.reason.as_deref(), Some("ACP provider is waiting for approval."));
    let NormalizedEvent::SessionStatusChanged(answered) = acp_approval_answered(SID) else {
        panic!("status");
    };
    assert_eq!(answered.status, SessionStatus::Running);
    assert_eq!(answered.reason.as_deref(), Some("Approval answered."));
}

#[test]
fn acp_file_requests_stay_in_the_workspace() {
    let service = AcpWorkspaceFileService::new("/work/project".to_owned());
    let read = j(r#"{"params":{"filePath":"/work/project/a.txt"}}"#);
    assert_eq!(service.read_target(&read), Ok("/work/project/a.txt".to_owned()));
    let outside = j(r#"{"params":{"path":"/etc/passwd"}}"#);
    assert_eq!(
        service.read_target(&outside),
        Err("ACP path is outside workspace: /etc/passwd".to_owned())
    );
    assert_eq!(
        service.read_target(&j(r#"{"params":{}}"#)),
        Err("ACP fs/read_text_file missing path".to_owned())
    );
    let write = j(r#"{"params":{"path":"/work/project/b.txt","text":"hello"}}"#);
    assert_eq!(
        service.write_target(&write),
        Ok(("/work/project/b.txt".to_owned(), "hello".to_owned()))
    );
    let empty = j(r#"{"params":{"path":"/work/project/c.txt"}}"#);
    assert_eq!(service.write_target(&empty), Ok(("/work/project/c.txt".to_owned(), String::new())));
    assert_eq!(
        service.write_target(&j(r#"{"params":{"path":"rel.txt"}}"#)),
        Err("ACP path must be absolute: rel.txt".to_owned())
    );
    assert_eq!(json_to_text(&read_text_file_response("x")), r#"{"content":"x"}"#);
    let NormalizedEvent::FileChangeApplied(change) = file_written_event(SID, "/work/project/b.txt", &write) else {
        panic!("file change");
    };
    assert_eq!(change.path, "/work/project/b.txt");
}

#[test]
fn acp_terminals_track_commands_until_released() {
    let mut terminals = AcpTerminals::new();
    assert!(terminals.create(SID, "/w", &j(r#"{"params":{}}"#)).is_err());
    let create = j(r#"{"params":{"command":"echo hi"}}"#);
    let (id, command, started) = terminals.create(SID, "/w", &create).unwrap();
    assert!(id.starts_with("acp-terminal-"));
    assert_eq!(command, "echo hi");
    let NormalizedEvent::CommandStarted(event) = started else {
        panic!("command started");
    };
    assert_eq!(event.command_id, id);
    assert_eq!(event.cwd.as_deref(), Some("/w"));
    assert_eq!(event.source.as_deref(), Some("acp"));

    let by_id = j(&format!(r#"{{"params":{{"terminalId":"{id}"}}}}"#));
    assert_eq!(terminals.exit_code(&by_id), None);
    assert_eq!(
        json_to_text(&terminals.output_response(&by_id).unwrap()),
        r#"{"exitStatus":null,"output":"","truncated":false}"#
    );

    let events = terminals.finish(SID, &id, "hi\n".to_owned(), 0, 12);
    assert_eq!(events.len(), 2);
    let NormalizedEvent::CommandCompleted(done) = &events[1] else {
        panic!("completion");
    };
    assert!(done.success);
    assert_eq!(done.duration_ms, Some(12));
    assert_eq!(terminals.exit_code(&by_id), Some(0));
    assert_eq!(
        json_to_text(&terminals.output_response(&by_id).unwrap()),
        r#"{"exitStatus":{"exitCode":0},"output":"hi\n","truncated":false}"#
    );

    terminals.release(&by_id);
    assert_eq!(terminals.exit_code(&by_id), None);
    assert_eq!(
        json_to_text(&terminals.output_response(&by_id).unwrap()),
        r#"{"exitStatus":{"exitCode":1},"output":"","truncated":false}"#
    );
    let late = terminals.finish(SID, &id, String::new(), 2, 5);
    assert_eq!(late.len(), 1);
    let NormalizedEvent::CommandCompleted(done) = &late[0] else {
        panic!("completion");
    };
    assert!(!done.success);
    assert_eq!(done.duration_ms, None);
    assert!(terminals.output_response(&j(r#"{"params":{}}"#)).is_err());
}

#[test]
fn acp_session_list_keeps_entries_with_ids() {
    let response = j(r#"{"id":2,"result":{"sessions":[
        {"sessionId":"s-1","title":"First","updatedAt":"2024-01-01"},
        {"name":"no id"},
        {"id":"s-2","name":"Second","updated_at":"2024-02-02"}]}}"#);
    let sessions = acp_discovered_sessions(&response);
    assert_eq!(sessions.len(), 2);
    assert_eq!(sessions[0].external_session_id, "s-1");
    assert_eq!(sessions[0].title.as_deref(), Some("First"));
    assert_eq!(sessions[1].external_session_id, "s-2");
    assert_eq!(sessions[1].title.as_deref(), Some("Second"));
    assert_eq!(sessions[1].updated_at.as_deref(), Some("2024-02-02"));
    assert!(sessions[1].history.is_empty());
    assert!(acp_discovered_sessions(&j(r#"{"result":{}}"#)).is_empty());
    let _ = JsonValue::Null;
}

#[test]
fn acp_envelopes_match_json_rpc() {
    assert_eq!(
        json_to_text(&acp_request(7, "session/new", j(r#"{"cwd":"/w"}"#))),
        r#"{"id":7,"jsonrpc":"2.0","method":"session/new","params":{"cwd":"/w"}}"#
    );
    assert_eq!(
        json_to_text(&acp_result(j(r#""req-1""#), j("{}"))),
        r#"{"id":"req-1","jsonrpc":"2.0","result":{}}"#
    );
    let expected = serde_json::to_string(&sj(r#"{
        "protocolVersion": 1,
        "clientInfo": {"name": "agenter-runner", "title": "Agenter Runner", "version": "0.1.0"},
        "clientCapabilities": {"fs": {"readTextFile": true, "writeTextFile": true}, "terminal": true}
    }"#))
    .unwrap();
    assert_eq!(json_to_text(&initialize_params("0.1.0")), expected);
}
