use agenter_runner::codex_history::{
    codex_history_from_thread_read_response, codex_threads_from_list_response, CodexDiscoveredThread,
    DiscoveredCommandAction, DiscoveredFileChangeStatus, DiscoveredSessionHistoryItem, DiscoveredToolStatus,
};
use agenter_runner::codex_rpc::codex_thread_id;
use agenter_runner::json::JsonValue;
use agenter_runner::model::FileChangeKind;

#[allow(dead_code)]
fn conv(v: &serde_json::Value) -> JsonValue {
    match v {
        serde_json::Value::Null => JsonValue::Null,
        serde_json::Value::Bool(b) => JsonValue::Bool(*b),
        serde_json::Value::Number(n) => {
            if let Some(i) = n.as_i64() {
                JsonValue::Int(i)
            } else if let Some(u) = n.as_u64() {
                JsonValue::UInt(u)
            } else {
                JsonValue::Float(n.to_string())
            }
        }
        serde_json::Value::String(s) => JsonValue::Str(s.clone()),
        serde_json::Value::Array(a) => JsonValue::Array(a.iter().map(conv).collect()),
        serde_json::Value::Object(o) => {
            JsonValue::Object(o.iter().map(|(k, v)| (k.clone(), conv(v))).collect())
        }
    }
}

#[allow(dead_code)]
fn back(v: &JsonValue) -> serde_json::Value {
    match v {
        JsonValue::Null => serde_json::Value::Null,
        JsonValue::Bool(b) => serde_json::Value::Bool(*b),
        JsonValue::Int(i) => serde_json::Value::from(*i),
        JsonValue::UInt(u) => serde_json::Value::from(*u),
        JsonValue::Float(t) => serde_json::from_str(t).unwrap(),
        JsonValue::Str(s) => serde_json::Value::String(s.clone()),
        JsonValue::Array(a) => serde_json::Value::Array(a.iter().map(back).collect()),
        JsonValue::Object(o) => {
            serde_json::Value::Object(o.iter().map(|(k, v)| (k.clone(), back(v))).collect())
        }
    }
}

#[allow(dead_code)]
fn j(text: &str) -> JsonValue {
    conv(&serde_json::from_str::<serde_json::Value>(text).unwrap())
}

#[allow(dead_code)]
fn sj(text: &str) -> serde_json::Value {
    serde_json::from_str(text).unwrap()
}

#[test]
fn extracts_codex_thread_id_from_start_response_and_notification_shapes() {
    let start_response = j(r#"{"id": 2, "result": {"thread": {"id": "thread-from-start-response"}}}"#);
    let started_notification = j(r#"{"method": "thread/started", "params": {"thread": {"id": "thread-from-notification"}}}"#);
    let flat_result = j(r#"{"id": 2, "result": {"id": "thread-from-flat-result"}}"#);

    assert_eq!(codex_thread_id(&start_response), Some("thread-from-start-response"));
    assert_eq!(codex_thread_id(&started_notification), Some("thread-from-notification"));
    assert_eq!(codex_thread_id(&flat_result), Some("thread-from-flat-result"));
}

#[test]
fn extracts_threads_and_history_from_codex_read_shapes() {
    let list_response = j(r#"{
        "id": 4,
        "result": {"threads": [{"id": "thread-1", "title": "Imported Thread", "updatedAt": "2026-01-01T12:00:00Z"}]}
    }"#);
    let command_item = r#"{
        "type": "commandExecution",
        "id": "cmd-1",
        "command": "cargo test",
        "cwd": "/work/agenter",
        "status": "completed",
        "exitCode": 0,
        "durationMs": 17,
        "source": "unifiedExecStartup",
        "processId": "123",
        "aggregatedOutput": "ok",
        "commandActions": [
            {
                "type": "read",
                "command": "sed -n '1,20p' /tmp/skills/demo/SKILL.md",
                "name": "SKILL.md",
                "path": "/tmp/skills/demo/SKILL.md"
            }
        ]
    }"#;
    let action = r#"{
        "type": "read",
        "command": "sed -n '1,20p' /tmp/skills/demo/SKILL.md",
        "name": "SKILL.md",
        "path": "/tmp/skills/demo/SKILL.md"
    }"#;
    let file_item = r#"{
        "type": "fileChange",
        "id": "file-1",
        "status": "completed",
        "changes": [{"path": "/work/agenter/README.md", "kind": {"type": "add"}, "diff": "+hello"}]
    }"#;
    let tool_item = r#"{
        "type": "collabAgentToolCall",
        "id": "tool-1",
        "tool": "spawnAgent",
        "status": "completed",
        "prompt": "Implement task"
    }"#;
    let plan_item = r##"{"type": "plan", "id": "plan-1", "text": "# Plan\n\n1. Test"}"##;
    let compact_item = r#"{"type": "contextCompaction", "id": "compact-1"}"#;
    let read_response = j(&format!(
        r#"{{"id": 5, "result": {{"thread": {{"turns": [{{"items": [
            {{"type": "userMessage", "id": "user-1", "text": "hello"}},
            {{"type": "agentMessage", "id": "agent-1", "text": "hi"}},
            {command_item}, {file_item}, {tool_item}, {plan_item}, {compact_item}
        ]}}]}}}}}}"#
    ));

    assert_eq!(
        codex_threads_from_list_response(&list_response),
        vec![CodexDiscoveredThread {
            external_session_id: "thread-1".to_owned(),
            title: Some("Imported Thread".to_owned()),
            updated_at: Some("2026-01-01T12:00:00Z".to_owned()),
        }]
    );

    let observed_list_response = j(r#"{
        "id": 4,
        "result": {
            "data": [
                {
                    "id": "019ddf92-1e65-7e72-b656-c317a83e0b93",
                    "preview": "Let's revamp the frontend.",
                    "updated_at": 1700000000,
                    "cwd": "/Users/maxim/work/agenter",
                    "source": "cli"
                }
            ],
            "nextCursor": null,
            "backwardsCursor": "2026-04-30T18:06:28.547Z"
        }
    }"#);

    assert_eq!(
        codex_threads_from_list_response(&observed_list_response),
        vec![CodexDiscoveredThread {
            external_session_id: "019ddf92-1e65-7e72-b656-c317a83e0b93".to_owned(),
            title: Some("Let's revamp the frontend.".to_owned()),
            updated_at: Some("1700000000".to_owned()),
        }]
    );

    assert_eq!(
        codex_history_from_thread_read_response(&read_response),
        vec![
            DiscoveredSessionHistoryItem::UserMessage {
                message_id: Some("user-1".to_owned()),
                content: "hello".to_owned(),
            },
            DiscoveredSessionHistoryItem::AgentMessage {
                message_id: "agent-1".to_owned(),
                content: "hi".to_owned(),
            },
            DiscoveredSessionHistoryItem::Command {
                command_id: "cmd-1".to_owned(),
                command: "cargo test".to_owned(),
                cwd: Some("/work/agenter".to_owned()),
                source: Some("unifiedExecStartup".to_owned()),
                process_id: Some("123".to_owned()),
                duration_ms: Some(17),
                actions: vec![DiscoveredCommandAction {
                    kind: "read".to_owned(),
                    command: Some("sed -n '1,20p' /tmp/skills/demo/SKILL.md".to_owned()),
                    path: Some("/tmp/skills/demo/SKILL.md".to_owned()),
                    name: Some("SKILL.md".to_owned()),
                    query: None,
                    provider_payload: Some(j(action)),
                }],
                output: Some("ok".to_owned()),
                exit_code: Some(0),
                success: true,
                provider_payload: Some(j(command_item)),
            },
            DiscoveredSessionHistoryItem::FileChange {
                change_id: "file-1:0".to_owned(),
                path: "/work/agenter/README.md".to_owned(),
                change_kind: FileChangeKind::Create,
                status: DiscoveredFileChangeStatus::Applied,
                diff: Some("+hello".to_owned()),
                provider_payload: Some(j(file_item)),
            },
            DiscoveredSessionHistoryItem::Tool {
                tool_call_id: "tool-1".to_owned(),
                name: "spawnAgent".to_owned(),
                title: Some("spawnAgent".to_owned()),
                status: DiscoveredToolStatus::Completed,
                input: Some(j(tool_item)),
                output: None,
                provider_payload: Some(j(tool_item)),
            },
            DiscoveredSessionHistoryItem::Plan {
                plan_id: "plan-1".to_owned(),
                title: Some("Implementation plan".to_owned()),
                content: "# Plan\n\n1. Test".to_owned(),
                provider_payload: Some(j(plan_item)),
            },
            DiscoveredSessionHistoryItem::NativeNotification {
                event_id: Some("compact-1".to_owned()),
                category: "compaction".to_owned(),
                title: "Context compacted".to_owned(),
                detail: None,
                status: Some("completed".to_owned()),
                provider_payload: Some(j(compact_item)),
            },
        ]
    );
}

#[test]
fn codex_history_preserves_argv_commands_mcp_tools_and_unknown_types() {
    let cmd = r#"{
        "type": "commandExecution",
        "id": "argv-cmd",
        "argv": ["git", "status"],
        "cwd": "/repo",
        "status": "completed",
        "exitCode": 0,
        "aggregatedOutput": "clean"
    }"#;
    let mcp = r#"{
        "type": "mcpToolCall",
        "id": "mcp-1",
        "name": "read_file",
        "status": "completed",
        "arguments": {"path": "README.md"}
    }"#;
    let odd = r#"{"type": "orphanGadget", "id": "og-1", "status": "done", "summary": "experimental row"}"#;
    let read_response = j(&format!(
        r#"{{"id": 6, "result": {{"thread": {{"turns": [{{"items": [{cmd}, {mcp}, {odd}]}}]}}}}}}"#
    ));

    assert_eq!(
        codex_history_from_thread_read_response(&read_response),
        vec![
            DiscoveredSessionHistoryItem::Command {
                command_id: "argv-cmd".to_owned(),
                command: "git status".to_owned(),
                cwd: Some("/repo".to_owned()),
                source: None,
                process_id: None,
                duration_ms: None,
                actions: vec![],
                output: Some("clean".to_owned()),
                exit_code: Some(0),
                success: true,
                provider_payload: Some(j(cmd)),
            },
            DiscoveredSessionHistoryItem::Tool {
                tool_call_id: "mcp-1".to_owned(),
                name: "read_file".to_owned(),
                title: Some("read_file".to_owned()),
                status: DiscoveredToolStatus::Completed,
                input: Some(j(mcp)),
                output: None,
                provider_payload: Some(j(mcp)),
            },
            DiscoveredSessionHistoryItem::NativeNotification {
                event_id: Some("og-1".to_owned()),
                category: "codex_thread_item".to_owned(),
                title: "orphanGadget".to_owned(),
                detail: Some("experimental row".to_owned()),
                status: Some("done".to_owned()),
                provider_payload: Some(j(odd)),
            },
        ]
    );
}

#[test]
fn codex_history_user_message_multimodal_falls_back_to_native_notification() {
    let item = r#"{"type": "userMessage", "id": "u-img", "content": [{"type": "input_image", "imageId": "img-9"}]}"#;
    let read_response = j(&format!(r#"{{"result": {{"thread": {{"turns": [{{"items": [{item}]}}]}}}}}}"#));

    assert_eq!(
        codex_history_from_thread_read_response(&read_response),
        vec![DiscoveredSessionHistoryItem::NativeNotification {
            event_id: Some("u-img".to_owned()),
            category: "codex_thread_item".to_owned(),
            title: "userMessage".to_owned(),
            detail: None,
            status: None,
            provider_payload: Some(j(item)),
        }]
    );
}
