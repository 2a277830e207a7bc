use agenter_runner::codec::{frame_text, CodexCodec, CodexDecodedFrame, CodexServerNotificationFrame};
use agenter_runner::codex_reducer::CodexReducer;
use agenter_runner::id_map::CodexIdMap;
use agenter_runner::json::JsonValue;
use agenter_runner::model::{ItemRole, SessionId, TurnStatus};
use agenter_runner::reducer::{server_notification_mappings, thread_item_mappings};
use agenter_runner::universal::{ContentBlockKind, UniversalEventKind};
use serde_json::Value;

#[allow(dead_code)]
fn conv(v: &serde_json::Value) -> JsonValue {
    match v {
        serde_json::Value::Null => JsonValue::Null,
        serde_json::Value::Bool(b) => JsonValue::Bool(*b),
        serde_json::Value::Number(n) => {
            if let Some(i) = n.as_i64() {
                JsonValue::Int(i)
            } else if let Some(u) = n.as_u64() {
                JsonValue::UInt(u)
            } else {
                JsonValue::Float(n.to_string())
            }
        }
        serde_json::Value::String(s) => JsonValue::Str(s.clone()),
        serde_json::Value::Array(a) => JsonValue::Array(a.iter().map(conv).collect()),
        serde_json::Value::Object(o) => {
            JsonValue::Object(o.iter().map(|(k, v)| (k.clone(), conv(v))).collect())
        }
    }
}

#[allow(dead_code)]
fn back(v: &JsonValue) -> serde_json::Value {
    match v {
        JsonValue::Null => serde_json::Value::Null,
        JsonValue::Bool(b) => serde_json::Value::Bool(*b),
        JsonValue::Int(i) => serde_json::Value::from(*i),
        JsonValue::UInt(u) => serde_json::Value::from(*u),
        JsonValue::Float(t) => serde_json::from_str(t).unwrap(),
        JsonValue::Str(s) => serde_json::Value::String(s.clone()),
        JsonValue::Array(a) => serde_json::Value::Array(a.iter().map(back).collect()),
        JsonValue::Object(o) => {
            serde_json::Value::Object(o.iter().map(|(k, v)| (k.clone(), back(v))).collect())
        }
    }
}

#[allow(dead_code)]
fn j(text: &str) -> JsonValue {
    conv(&serde_json::from_str::<serde_json::Value>(text).unwrap())
}

#[allow(dead_code)]
fn sj(text: &str) -> serde_json::Value {
    serde_json::from_str(text).unwrap()
}

fn decode_notification(raw: &Value) -> CodexServerNotificationFrame {
    let mut codec = CodexCodec::new();
    let line = raw.to_string();
    let parsed: Value = serde_json::from_str(&frame_text(&line)).unwrap();
    let CodexDecodedFrame::ServerNotification(frame) = codec.decode_parsed(&line, Ok(conv(&parsed))) else {
        panic!("expected server notification frame");
    };
    frame
}

fn reducer() -> CodexReducer {
    let session_id = SessionId(0x1234_5678_9abc_def0_1234_5678_9abc_def0);
    CodexReducer::new(session_id, CodexIdMap::for_session(session_id))
}

#[test]
fn codex_reducer_history_items_preserve_decoded_raw_payloads_for_every_current_variant() {
    let mut reducer = reducer();

    for mapping in thread_item_mappings() {
        let raw_item = sample_thread_item(mapping.codex);
        let outputs = reducer.reduce_history_item("thread-1", "turn-1", &conv(&raw_item));

        assert!(!outputs.is_empty(), "{} produced no reducer output", mapping.codex);
        assert!(
            outputs.iter().all(|output| output.native.raw_payload.as_ref().map(back) == Some(raw_item.clone())),
            "{} did not preserve decoded raw payload on every output",
            mapping.codex
        );
        assert!(
            outputs.iter().any(|output| matches!(
                output.event,
                UniversalEventKind::ItemCreated { .. }
                    | UniversalEventKind::PlanUpdated { .. }
                    | UniversalEventKind::ProviderNotification { .. }
                    | UniversalEventKind::NativeUnknown { .. }
            )),
            "{} did not produce a visible row or notification",
            mapping.codex
        );
    }
}

#[test]
fn codex_reducer_server_notifications_preserve_raw_payloads_for_every_current_method() {
    let mut reducer = reducer();

    for mapping in server_notification_mappings() {
        let raw = sample_server_notification(mapping.codex);
        let frame = decode_notification(&raw);
        let outputs = reducer.reduce_server_notification(&frame);

        assert!(!outputs.is_empty(), "{} produced no reducer output", mapping.codex);
        assert!(
            outputs.iter().all(|output| output.native.raw_payload.as_ref().map(back) == Some(raw.clone())),
            "{} did not preserve notification raw payload on every output",
            mapping.codex
        );
    }
}

#[test]
fn codex_reducer_undecoded_notifications_remain_visible_with_full_raw_payload() {
    let mut reducer = reducer();
    let raw = sj(r#"{
        "method": "future/native",
        "params": {"threadId": "thread-1", "turnId": "turn-1", "itemId": "item-1", "opaque": { "answer": 42 }}
    }"#);
    let frame = decode_notification(&raw);

    let outputs = reducer.reduce_server_notification(&frame);

    assert_eq!(outputs.len(), 1);
    assert_eq!(outputs[0].native.method.as_deref(), Some("future/native"));
    assert_eq!(outputs[0].native.raw_payload.as_ref().map(back), Some(raw));
    assert!(matches!(outputs[0].event, UniversalEventKind::NativeUnknown { .. }));
}

#[test]
fn codex_reducer_deltas_and_terminal_completion_converge_on_same_item_and_block_ids() {
    let mut reducer = reducer();
    let delta = sj(r#"{
        "method": "item/agentMessage/delta",
        "params": {"threadId": "thread-1", "turnId": "turn-1", "itemId": "item-1", "delta": "hel"}
    }"#);
    let completed = sj(r#"{
        "method": "item/completed",
        "params": {
            "threadId": "thread-1",
            "turnId": "turn-1",
            "item": {"type": "agentMessage", "id": "item-1", "text": "hello"}
        }
    }"#);

    let delta_outputs = reducer.reduce_server_notification(&decode_notification(&delta));
    let completed_outputs = reducer.reduce_server_notification(&decode_notification(&completed));

    let delta_output = delta_outputs
        .iter()
        .find(|output| matches!(output.event, UniversalEventKind::ContentDelta { .. }))
        .expect("delta output");
    let completed_output = completed_outputs
        .iter()
        .find(|output| matches!(output.event, UniversalEventKind::ContentCompleted { .. }))
        .expect("completed output");
    let created_output = completed_outputs
        .iter()
        .find(|output| matches!(output.event, UniversalEventKind::ItemCreated { .. }))
        .expect("item output");

    assert_eq!(delta_output.item_id, completed_output.item_id);
    assert_eq!(delta_output.item_id, created_output.item_id);
    assert_eq!(delta_output.turn_id, completed_output.turn_id, "turn mapping should also converge");

    let UniversalEventKind::ContentDelta { block_id, kind, delta } = &delta_output.event else {
        panic!("expected delta");
    };
    assert_eq!(kind, &Some(ContentBlockKind::Text));
    assert_eq!(delta, "hel");

    let UniversalEventKind::ContentCompleted { block_id: completed_block_id, kind, text } = &completed_output.event
    else {
        panic!("expected completed");
    };
    assert_eq!(block_id, completed_block_id);
    assert_eq!(kind, &Some(ContentBlockKind::Text));
    assert_eq!(text.as_deref(), Some("hello"));
}

#[test]
fn codex_reducer_native_user_message_still_emits_user_item() {
    let mut reducer = reducer();
    let completed = sj(r#"{
        "method": "item/completed",
        "params": {
            "threadId": "thread-1",
            "turnId": "turn-1",
            "item": {
                "type": "userMessage",
                "id": "user-1",
                "content": [{ "type": "text", "text": "Implement the plan." }]
            }
        }
    }"#);

    let outputs = reducer.reduce_server_notification(&decode_notification(&completed));
    let created = outputs
        .iter()
        .find_map(|output| match &output.event {
            UniversalEventKind::ItemCreated { item } => Some(item),
            _ => None,
        })
        .expect("user item output");

    assert_eq!(created.role, ItemRole::User);
    assert_eq!(created.content[0].text.as_deref(), Some("Implement the plan."));
}

#[test]
fn codex_reducer_plan_delta_emits_only_plan_update() {
    let mut reducer = reducer();
    let delta = sj(r##"{
        "method": "item/plan/delta",
        "params": {"threadId": "thread-1", "turnId": "turn-1", "itemId": "plan-1", "delta": "# Plan"}
    }"##);

    let outputs = reducer.reduce_server_notification(&decode_notification(&delta));

    assert_eq!(outputs.len(), 1);
    assert!(matches!(outputs[0].event, UniversalEventKind::PlanUpdated { .. }));
}

#[test]
fn codex_reducer_completed_plan_item_emits_only_plan_update() {
    let mut reducer = reducer();
    let completed = sj(r##"{
        "method": "item/completed",
        "params": {
            "threadId": "thread-1",
            "turnId": "turn-1",
            "item": {"type": "plan", "id": "plan-1", "text": "# Plan"}
        }
    }"##);

    let outputs = reducer.reduce_server_notification(&decode_notification(&completed));

    assert_eq!(outputs.len(), 1);
    let UniversalEventKind::PlanUpdated { plan } = &outputs[0].event else {
        panic!("expected plan update");
    };
    assert_eq!(plan.content.as_deref(), Some("# Plan"));
    assert!(!plan.partial);
}

#[test]
fn codex_reducer_history_plan_item_emits_only_plan_update() {
    let mut reducer = reducer();
    let raw_item = j(r##"{"type": "plan", "id": "plan-1", "text": "# Plan"}"##);

    let outputs = reducer.reduce_history_item("thread-1", "turn-1", &raw_item);

    assert_eq!(outputs.len(), 1);
    assert!(matches!(outputs[0].event, UniversalEventKind::PlanUpdated { .. }));
}

#[test]
fn completed_turn_carries_its_start_and_end_times() {
    let mut reducer = reducer();
    let raw = sample_server_notification("turn/completed");
    let outputs = reducer.reduce_server_notification(&decode_notification(&raw));

    assert_eq!(outputs.len(), 1);
    let UniversalEventKind::TurnCompleted { turn } = &outputs[0].event else {
        panic!("expected turn completion");
    };
    assert_eq!(turn.status, TurnStatus::Completed);
    assert_eq!(turn.started_at.map(|t| t.secs), Some(1_700_000_000));
    assert_eq!(turn.completed_at.map(|t| t.secs), Some(1_700_000_001));
}

#[test]
fn token_usage_reports_percentage_of_context_window() {
    let mut reducer = reducer();
    let raw = sample_server_notification("thread/tokenUsage/updated");
    let outputs = reducer.reduce_server_notification(&decode_notification(&raw));

    let UniversalEventKind::UsageUpdated { context: Some(context) } = &outputs[0].event else {
        panic!("expected usage");
    };
    assert_eq!(context.used_tokens, Some(20));
    assert_eq!(context.total_tokens, Some(100));
    assert_eq!(context.used_percent, Some(20));
}

#[test]
fn structured_plan_update_lists_steps_in_order() {
    let mut reducer = reducer();
    let raw = sample_server_notification("turn/plan/updated");
    let outputs = reducer.reduce_server_notification(&decode_notification(&raw));

    let UniversalEventKind::PlanUpdated { plan } = &outputs[0].event else {
        panic!("expected plan");
    };
    assert_eq!(plan.entries.len(), 1);
    assert_eq!(plan.entries[0].entry_id, "codex-plan-step-0");
    assert_eq!(plan.entries[0].label, "test");
    assert_eq!(plan.content.as_deref(), Some("plan"));
}

#[test]
fn command_item_projects_its_tool_and_output() {
    let mut reducer = reducer();
    let raw_item = sample_thread_item("CommandExecution");
    let outputs = reducer.reduce_history_item("thread-1", "turn-1", &conv(&raw_item));

    assert_eq!(outputs.len(), 2);
    let UniversalEventKind::ItemCreated { item } = &outputs[0].event else {
        panic!("expected item");
    };
    let tool = item.tool.as_ref().expect("command tool");
    assert_eq!(tool.title, "echo hi");
    let command = tool.command.as_ref().expect("command projection");
    assert_eq!(command.exit_code, Some(0));
    assert_eq!(command.duration_ms, Some(7));
    assert_eq!(command.success, Some(true));
    assert_eq!(command.actions[0].label, "echo");
    let UniversalEventKind::ContentCompleted { kind, text, .. } = &outputs[1].event else {
        panic!("expected output block");
    };
    assert_eq!(kind, &Some(ContentBlockKind::CommandOutput));
    assert_eq!(text.as_deref(), Some("hi\n"));
}

fn sample_thread_item(variant: &str) -> Value {
    match variant {
        "AgentMessage" => {
            sj(r#"{ "type": "agentMessage", "id": "agent-message", "text": "hello" }"#)
        }
        "CollabAgentToolCall" => sj(r#"{
            "type": "collabAgentToolCall", "id": "collab", "tool": "spawnAgent",
            "status": "completed", "senderThreadId": "thread-1", "receiverThreadIds": ["child-1"],
            "prompt": "do work", "model": "gpt-5", "reasoningEffort": "medium", "agentsStates": {}
        }"#),
        "CommandExecution" => sj(r#"{
            "type": "commandExecution", "id": "cmd", "command": "echo hi", "cwd": "/tmp",
            "processId": "proc-1", "source": "agent", "status": "completed",
            "commandActions": [{ "type": "exec", "cmd": "echo" }],
            "aggregatedOutput": "hi\n", "exitCode": 0, "durationMs": 7
        }"#),
        "ContextCompaction" => sj(r#"{ "type": "contextCompaction", "id": "compact" }"#),
        "DynamicToolCall" => sj(r#"{
            "type": "dynamicToolCall", "id": "dynamic", "namespace": "client",
            "tool": "open", "arguments": {}, "status": "failed",
            "contentItems": null, "success": false, "durationMs": 3
        }"#),
        "EnteredReviewMode" => {
            sj(r#"{ "type": "enteredReviewMode", "id": "review-in", "review": "review started" }"#)
        }
        "ExitedReviewMode" => {
            sj(r#"{ "type": "exitedReviewMode", "id": "review-out", "review": "review finished" }"#)
        }
        "FileChange" => sj(r#"{
            "type": "fileChange", "id": "file", "status": "completed",
            "changes": [{ "path": "src/lib.rs", "kind": "update", "diff": "@@ diff" }]
        }"#),
        "HookPrompt" => sj(r#"{
            "type": "hookPrompt", "id": "hook",
            "fragments": [{ "text": "hook text", "hookRunId": "run-1" }]
        }"#),
        "ImageGeneration" => sj(r#"{
            "type": "imageGeneration", "id": "image-gen", "status": "completed",
            "revisedPrompt": "draw", "result": "ok", "savedPath": "/tmp/image.png"
        }"#),
        "ImageView" => {
            sj(r#"{ "type": "imageView", "id": "image-view", "path": "/tmp/image.png" }"#)
        }
        "McpToolCall" => sj(r#"{
            "type": "mcpToolCall", "id": "mcp", "server": "server", "tool": "tool",
            "status": "completed", "arguments": { "x": 1 },
            "mcpAppResourceUri": null,
            "result": { "content": [{ "type": "text", "text": "ok" }], "structuredContent": null, "_meta": null },
            "error": null, "durationMs": 9
        }"#),
        "Plan" => sj(r#"{ "type": "plan", "id": "plan", "text": "1. test\n2. ship" }"#),
        "Reasoning" => {
            sj(r#"{ "type": "reasoning", "id": "reasoning", "summary": ["thinking"], "content": ["raw chain"] }"#)
        }
        "UserMessage" => {
            sj(r#"{ "type": "userMessage", "id": "user", "content": [{ "type": "text", "text": "hello" }] }"#)
        }
        "WebSearch" => {
            sj(r#"{ "type": "webSearch", "id": "web", "query": "codex", "action": { "type": "search" } }"#)
        }
        other => panic!("missing sample for ThreadItem {other}"),
    }
}

fn sample_server_notification(method: &str) -> Value {
    let mut m = serde_json::Map::new();
    m.insert("method".to_owned(), Value::String(method.to_owned()));
    m.insert("params".to_owned(), sample_server_notification_params(method));
    Value::Object(m)
}

fn sample_server_notification_params(method: &str) -> Value {
    match method {
        "error" => {
            sj(r#"{ "threadId": "thread-1", "turnId": "turn-1", "willRetry": false, "error": { "message": "bad", "codexErrorInfo": { "code": "bad" } } }"#)
        }
        "thread/status/changed" => {
            sj(r#"{ "threadId": "thread-1", "status": { "type": "active", "activeFlags": [] } }"#)
        }
        "thread/archived"
        | "thread/unarchived"
        | "thread/closed"
        | "thread/goal/cleared"
        | "thread/compacted"
        | "thread/realtime/closed" => {
            sj(r#"{ "threadId": "thread-1", "turnId": "turn-1", "reason": "done" }"#)
        }
        "thread/name/updated" => {
            sj(r#"{ "threadId": "thread-1", "threadName": "Readable title" }"#)
        }
        "thread/tokenUsage/updated" => {
            sj(r#"{ "threadId": "thread-1", "turnId": "turn-1", "tokenUsage": { "total": { "totalTokens": 20, "inputTokens": 10, "cachedInputTokens": 0, "outputTokens": 10, "reasoningOutputTokens": 2 }, "last": { "totalTokens": 3, "inputTokens": 1, "cachedInputTokens": 0, "outputTokens": 2, "reasoningOutputTokens": 0 }, "modelContextWindow": 100 } }"#)
        }
        "turn/started" => {
            sj(r#"{ "threadId": "thread-1", "turn": { "id": "turn-1", "items": [], "status": "inProgress", "error": null, "startedAt": 1700000000, "completedAt": null, "durationMs": null } }"#)
        }
        "turn/completed" => {
            sj(r#"{ "threadId": "thread-1", "turn": { "id": "turn-1", "items": [], "status": "completed", "error": null, "startedAt": 1700000000, "completedAt": 1700000001, "durationMs": 1000 } }"#)
        }
        "turn/diff/updated" => {
            sj(r#"{ "threadId": "thread-1", "turnId": "turn-1", "diff": "@@ diff" }"#)
        }
        "turn/plan/updated" => {
            sj(r#"{ "threadId": "thread-1", "turnId": "turn-1", "explanation": "plan", "plan": [{ "step": "test", "status": "inProgress" }] }"#)
        }
        "item/started" | "item/completed" => {
            {
            let mut m = serde_json::Map::new();
            m.insert("threadId".to_owned(), Value::String("thread-1".to_owned()));
            m.insert("turnId".to_owned(), Value::String("turn-1".to_owned()));
            m.insert("item".to_owned(), sample_thread_item("AgentMessage"));
            Value::Object(m)
        }
        }
        "item/agentMessage/delta" | "item/plan/delta" => {
            sj(r#"{ "threadId": "thread-1", "turnId": "turn-1", "itemId": "item-1", "delta": "delta" }"#)
        }
        "item/reasoning/summaryTextDelta" => {
            sj(r#"{ "threadId": "thread-1", "turnId": "turn-1", "itemId": "item-1", "summaryIndex": 0, "delta": "summary" }"#)
        }
        "item/reasoning/summaryPartAdded" => {
            sj(r#"{ "threadId": "thread-1", "turnId": "turn-1", "itemId": "item-1", "summaryIndex": 1 }"#)
        }
        "item/reasoning/textDelta" => {
            sj(r#"{ "threadId": "thread-1", "turnId": "turn-1", "itemId": "item-1", "contentIndex": 0, "delta": "raw" }"#)
        }
        "item/commandExecution/outputDelta" | "item/fileChange/outputDelta" => {
            sj(r#"{ "threadId": "thread-1", "turnId": "turn-1", "itemId": "item-1", "delta": "out" }"#)
        }
        "item/commandExecution/terminalInteraction" => {
            sj(r#"{ "threadId": "thread-1", "turnId": "turn-1", "itemId": "item-1", "processId": "proc-1", "stdin": "q" }"#)
        }
        "item/fileChange/patchUpdated" => {
            sj(r#"{ "threadId": "thread-1", "turnId": "turn-1", "itemId": "item-1", "changes": [{ "path": "src/lib.rs", "kind": "update", "diff": "@@" }] }"#)
        }
        "item/mcpToolCall/progress" => {
            sj(r#"{ "threadId": "thread-1", "turnId": "turn-1", "itemId": "item-1", "message": "running" }"#)
        }
        "serverRequest/resolved" => sj(r#"{ "threadId": "thread-1", "requestId": "request-1" }"#),
        "rawResponseItem/completed" => {
            sj(r#"{ "threadId": "thread-1", "turnId": "turn-1", "item": { "type": "message", "id": "raw" } }"#)
        }
        "command/exec/outputDelta" => {
            sj(r#"{ "processId": "proc-1", "stream": "stdout", "deltaBase64": "aGk=", "capReached": false }"#)
        }
        "thread/realtime/transcript/delta" => {
            sj(r#"{ "threadId": "thread-1", "role": "assistant", "delta": "hi" }"#)
        }
        "thread/realtime/transcript/done" => {
            sj(r#"{ "threadId": "thread-1", "role": "assistant", "text": "hi" }"#)
        }
        "thread/realtime/itemAdded" => {
            sj(r#"{ "threadId": "thread-1", "item": { "type": "raw" } }"#)
        }
        "thread/realtime/outputAudio/delta" => {
            sj(r#"{ "threadId": "thread-1", "audio": { "data": "abc", "sampleRate": 24000, "numChannels": 1, "samplesPerChannel": 1, "itemId": "audio-1" } }"#)
        }
        "thread/realtime/error" => sj(r#"{ "threadId": "thread-1", "message": "audio failed" }"#),
        "thread/realtime/started" => {
            sj(r#"{ "threadId": "thread-1", "sessionId": "rt-1", "version": "v1" }"#)
        }
        "thread/realtime/sdp" => sj(r#"{ "threadId": "thread-1", "sdp": "answer" }"#),
        "model/rerouted" => {
            sj(r#"{ "threadId": "thread-1", "turnId": "turn-1", "fromModel": "a", "toModel": "b", "reason": "rateLimit" }"#)
        }
        "model/verification" => {
            sj(r#"{ "threadId": "thread-1", "turnId": "turn-1", "verifications": [] }"#)
        }
        "warning" => sj(r#"{ "threadId": "thread-1", "message": "warn" }"#),
        "guardianWarning" => sj(r#"{ "threadId": "thread-1", "message": "guardian" }"#),
        "deprecationNotice" => sj(r#"{ "summary": "deprecated", "details": "later" }"#),
        "configWarning" => {
            sj(r#"{ "summary": "bad config", "details": "fix", "path": "/tmp/config.toml" }"#)
        }
        "mcpServer/oauthLogin/completed" => {
            sj(r#"{ "name": "server", "success": true, "error": null }"#)
        }
        "mcpServer/startupStatus/updated" => {
            sj(r#"{ "name": "server", "status": "ready", "error": null }"#)
        }
        "account/rateLimits/updated" => {
            sj(r#"{ "rateLimits": { "limitId": "id", "limitName": "name", "primary": { "usedPercent": 10, "windowDurationMins": 300, "resetsAt": 1700000000 }, "secondary": null, "credits": null, "planType": null, "rateLimitReachedType": null } }"#)
        }
        "windows/worldWritableWarning" => {
            sj(r#"{ "samplePaths": ["C:/tmp"], "extraCount": 0, "failedScan": false }"#)
        }
        "windowsSandbox/setupCompleted" => {
            sj(r#"{ "mode": "elevated", "success": true, "error": null }"#)
        }
        "app/list/updated" => sj(r#"{ "apps": [] }"#),
        "remoteControl/status/changed" => sj(r#"{ "status": "connected" }"#),
        "externalAgentConfig/import/completed" => sj(r#"{}"#),
        "fs/changed" => sj(r#"{ "watchId": "watch-1", "changes": [] }"#),
        "fuzzyFileSearch/sessionUpdated" => sj(r#"{ "sessionId": "search-1", "files": [] }"#),
        "fuzzyFileSearch/sessionCompleted" => sj(r#"{ "sessionId": "search-1" }"#),
        "skills/changed" => sj(r#"{}"#),
        "thread/started" => {
            sj(r#"{ "thread": { "id": "thread-1", "preview": "hello", "ephemeral": false, "modelProvider": "openai", "createdAt": 1700000000, "updatedAt": 1700000000, "status": { "type": "idle" }, "path": null, "cwd": "/tmp", "cliVersion": "test", "source": { "type": "appServer" }, "agentNickname": null, "agentRole": null, "gitInfo": null, "name": "Thread", "turns": [] } }"#)
        }
        "thread/goal/updated" => {
            sj(r#"{ "threadId": "thread-1", "turnId": "turn-1", "goal": { "objective": "ship" } }"#)
        }
        "hook/started" | "hook/completed" => {
            sj(r#"{ "threadId": "thread-1", "turnId": "turn-1", "run": { "id": "hook-1", "status": "completed" } }"#)
        }
        "item/autoApprovalReview/started" | "item/autoApprovalReview/completed" => {
            sj(r#"{ "threadId": "thread-1", "turnId": "turn-1", "reviewId": "review-1", "targetItemId": "item-1", "review": { "status": "approved", "riskLevel": "low", "userAuthorization": "medium", "rationale": "ok" }, "action": { "type": "command", "command": "echo hi", "cwd": "/tmp", "source": "shell" } }"#)
        }
        "account/updated" => sj(r#"{ "authMode": "chatgpt", "planType": null }"#),
        "account/login/completed" => {
            sj(r#"{ "loginId": "login-1", "success": true, "error": null }"#)
        }
        other => panic!("missing sample for ServerNotification {other}"),
    }
}


fn completed_turn_times(started_at: &str) -> (Option<i64>, Option<i64>) {
    let mut reducer = reducer();
    let raw = sj(&format!(
        r#"{{ "method": "turn/completed", "params": {{ "threadId": "thread-1", "turn": {{ "id": "turn-1", "status": "completed", "startedAt": {started_at}, "completedAt": -8334601228800 }} }} }}"#
    ));
    let outputs = reducer.reduce_server_notification(&decode_notification(&raw));
    let UniversalEventKind::TurnCompleted { turn } = &outputs[0].event else {
        panic!("expected turn completion");
    };
    (turn.started_at.map(|t| t.secs), turn.completed_at.map(|t| t.secs))
}

#[test]
fn turn_times_are_kept_up_to_the_last_second_chrono_holds() {
    assert_eq!(completed_turn_times("8210266876799"), (Some(8_210_266_876_799), Some(-8_334_601_228_800)));
}

#[test]
fn turn_times_beyond_chrono_range_are_dropped() {
    assert_eq!(completed_turn_times("8210266876800").0, None);
    assert_eq!(completed_turn_times("-8334601228801").0, None);
}

#[test]
fn plan_delta_without_ids_is_the_one_notification_with_no_event() {
    let mut reducer = reducer();
    let raw = sj(r#"{ "method": "item/plan/delta", "params": { "threadId": "thread-1", "delta": "x" } }"#);
    assert!(reducer.reduce_server_notification(&decode_notification(&raw)).is_empty());
    let raw = sj(r#"{ "method": "item/started", "params": {} }"#);
    assert_eq!(reducer.reduce_server_notification(&decode_notification(&raw)).len(), 1);
}
