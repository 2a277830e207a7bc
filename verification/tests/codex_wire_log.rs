use agenter_runner::codex_rpc::{CodexScopeLogContext, CodexTurnScope};
use agenter_runner::codex_wire_log::{wire_log_entry, CodexWireLogRecord};
use agenter_runner::json::{json_to_text, JsonValue};
use agenter_runner::model::SessionId;

#[allow(dead_code)]
fn conv(v: &serde_json::Value) -> JsonValue {
    match v {
        serde_json::Value::Null => JsonValue::Null,
        serde_json::Value::Bool(b) => JsonValue::Bool(*b),
        serde_json::Value::Number(n) => {
            if let Some(i) = n.as_i64() {
                JsonValue::Int(i)
            } else if let Some(u) = n.as_u64() {
                JsonValue::UInt(u)
            } else {
                JsonValue::Float(n.to_string())
            }
        }
        serde_json::Value::String(s) => JsonValue::Str(s.clone()),
        serde_json::Value::Array(a) => JsonValue::Array(a.iter().map(conv).collect()),
        serde_json::Value::Object(o) => {
            JsonValue::Object(o.iter().map(|(k, v)| (k.clone(), conv(v))).collect())
        }
    }
}

#[allow(dead_code)]
fn back(v: &JsonValue) -> serde_json::Value {
    match v {
        JsonValue::Null => serde_json::Value::Null,
        JsonValue::Bool(b) => serde_json::Value::Bool(*b),
        JsonValue::Int(i) => serde_json::Value::from(*i),
        JsonValue::UInt(u) => serde_json::Value::from(*u),
        JsonValue::Float(t) => serde_json::from_str(t).unwrap(),
        JsonValue::Str(s) => serde_json::Value::String(s.clone()),
        JsonValue::Array(a) => serde_json::Value::Array(a.iter().map(back).collect()),
        JsonValue::Object(o) => {
            serde_json::Value::Object(o.iter().map(|(k, v)| (k.clone(), back(v))).collect())
        }
    }
}

#[allow(dead_code)]
fn j(text: &str) -> JsonValue {
    conv(&serde_json::from_str::<serde_json::Value>(text).unwrap())
}

#[allow(dead_code)]
fn sj(text: &str) -> serde_json::Value {
    serde_json::from_str(text).unwrap()
}

fn record(message: Option<JsonValue>) -> CodexWireLogRecord {
    CodexWireLogRecord {
        direction: "recv".to_owned(),
        classification: "server_notification_received".to_owned(),
        session_id: None,
        workspace: None,
        runtime_thread_id: None,
        runtime_turn_id: None,
        reason: None,
        message,
        stderr_line: None,
        scope: None,
    }
}

#[test]
fn codex_wire_logger_writes_jsonl_records_with_payload_and_context() {
    let session_id = SessionId(0x0123_4567_89ab_cdef_0123_4567_89ab_cdef);
    let message = sj(r#"{
        "id": "native-1",
        "method": "item/fileChange/requestApproval",
        "params": {
            "threadId": "thread-1",
            "turnId": "turn-1",
            "itemId": "item-1"
        }
    }"#);
    let entry = wire_log_entry(
        &CodexWireLogRecord {
            direction: "recv".to_owned(),
            classification: "server_request_received".to_owned(),
            session_id: Some(session_id),
            workspace: Some("/tmp/workspace".into()),
            runtime_thread_id: Some("thread-runtime".into()),
            runtime_turn_id: Some("turn-runtime".into()),
            reason: Some("approval_pending".into()),
            message: Some(conv(&message)),
            stderr_line: None,
            scope: None,
        },
        1_700_000_000_123,
    );

    let line = json_to_text(&entry);
    let record: serde_json::Value = serde_json::from_str(line.trim()).expect("jsonl record should parse");
    assert_eq!(record["direction"], "recv");
    assert_eq!(record["classification"], "server_request_received");
    assert_eq!(record["session_id"], "01234567-89ab-cdef-0123-456789abcdef");
    assert_eq!(record["workspace"], "/tmp/workspace");
    assert_eq!(record["provider_thread_id"], "thread-1");
    assert_eq!(record["provider_turn_id"], "turn-1");
    assert_eq!(record["runtime_thread_id"], "thread-runtime");
    assert_eq!(record["runtime_turn_id"], "turn-runtime");
    assert_eq!(record["jsonrpc_id"], "native-1");
    assert_eq!(record["method"], "item/fileChange/requestApproval");
    assert_eq!(record["reason"], "approval_pending");
    assert_eq!(record["payload"], message);
    assert_eq!(record["ts"], 1_700_000_000_123u64);
    assert!(record.get("stderr").is_none());
    assert!(record.get("scope_match").is_none());
}

#[test]
fn wire_log_record_text_matches_sorted_json() {
    let message = sj(r#"{"method":"turn/completed"}"#);
    let entry = wire_log_entry(&record(Some(conv(&message))), 5);
    let text = json_to_text(&entry);
    let expected = serde_json::to_string(&serde_json::from_str::<serde_json::Value>(&text).unwrap()).unwrap();
    assert_eq!(text, expected);
    assert_eq!(
        text,
        r#"{"classification":"server_notification_received","direction":"recv","jsonrpc_id":"<missing id>","method":"turn/completed","payload":{"method":"turn/completed"},"ts":5}"#
    );
}

#[test]
fn wire_log_record_carries_scope_and_stderr() {
    let message = j(r#"{"method":"item/started","params":{"threadId":"thread-2","turnId":"turn-9"}}"#);
    let scope = CodexTurnScope { thread_id: Some("thread-1".to_owned()), turn_id: None };
    let mut r = record(None);
    r.scope = Some(CodexScopeLogContext::from_message(&message, &scope));
    r.stderr_line = Some("boom".to_owned());
    let entry = back(&wire_log_entry(&r, 0));
    assert_eq!(entry["expected_thread_id"], "thread-1");
    assert_eq!(entry["expected_turn_id"], serde_json::Value::Null);
    assert_eq!(entry["actual_thread_id"], "thread-2");
    assert_eq!(entry["actual_turn_id"], "turn-9");
    assert_eq!(entry["scope_match"], false);
    assert_eq!(entry["scope_reason"], "thread_id_mismatch");
    assert_eq!(entry["stderr"], "boom");
    assert!(entry.get("payload").is_none());
    assert!(entry.get("method").is_none());
}
