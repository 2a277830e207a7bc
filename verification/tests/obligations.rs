use agenter_runner::codec::{frame_text, CodexCodec, CodexDecodedFrame, CodexServerRequestFrame, RequestId};
use agenter_runner::codex_mapper::{unsupported_notification, CodexObligationMapper, CodexServerRequestOutput};
use agenter_runner::codex_obligations::{
    codex_approval_response, codex_mcp_elicitation_response, codex_tool_user_input_response,
};
use agenter_runner::codex_questions::AgentQuestionAnswer;
use agenter_runner::events::ApprovalKind;
use agenter_runner::json::JsonValue;
use agenter_runner::model::{ApprovalDecision, SessionId};

#[allow(dead_code)]
fn conv(v: &serde_json::Value) -> JsonValue {
    match v {
        serde_json::Value::Null => JsonValue::Null,
        serde_json::Value::Bool(b) => JsonValue::Bool(*b),
        serde_json::Value::Number(n) => {
            if let Some(i) = n.as_i64() {
                JsonValue::Int(i)
            } else if let Some(u) = n.as_u64() {
                JsonValue::UInt(u)
            } else {
                JsonValue::Float(n.to_string())
            }
        }
        serde_json::Value::String(s) => JsonValue::Str(s.clone()),
        serde_json::Value::Array(a) => JsonValue::Array(a.iter().map(conv).collect()),
        serde_json::Value::Object(o) => {
            JsonValue::Object(o.iter().map(|(k, v)| (k.clone(), conv(v))).collect())
        }
    }
}

#[allow(dead_code)]
fn back(v: &JsonValue) -> serde_json::Value {
    match v {
        JsonValue::Null => serde_json::Value::Null,
        JsonValue::Bool(b) => serde_json::Value::Bool(*b),
        JsonValue::Int(i) => serde_json::Value::from(*i),
        JsonValue::UInt(u) => serde_json::Value::from(*u),
        JsonValue::Float(t) => serde_json::from_str(t).unwrap(),
        JsonValue::Str(s) => serde_json::Value::String(s.clone()),
        JsonValue::Array(a) => serde_json::Value::Array(a.iter().map(back).collect()),
        JsonValue::Object(o) => {
            serde_json::Value::Object(o.iter().map(|(k, v)| (k.clone(), back(v))).collect())
        }
    }
}

#[allow(dead_code)]
fn j(text: &str) -> JsonValue {
    conv(&serde_json::from_str::<serde_json::Value>(text).unwrap())
}

#[allow(dead_code)]
fn sj(text: &str) -> serde_json::Value {
    serde_json::from_str(text).unwrap()
}

fn decode_request(raw: &serde_json::Value) -> CodexServerRequestFrame {
    let mut codec = CodexCodec::new();
    let line = raw.to_string();
    let parsed: serde_json::Value = serde_json::from_str(&frame_text(&line)).unwrap();
    let frame = codec.decode_parsed(&line, Ok(conv(&parsed)));
    let CodexDecodedFrame::ServerRequest(request) = frame else {
        panic!("expected server request");
    };
    request
}

fn mapper() -> CodexObligationMapper {
    CodexObligationMapper::new(SessionId(0))
}

#[test]
fn codex_approval_requests_map_command_approval_with_raw_payload_and_response() {
    let raw = sj(r#"{
        "id": "req-command",
        "method": "item/commandExecution/requestApproval",
        "blocking": false,
        "params": {
            "threadId": "thread-1",
            "turnId": "turn-1",
            "itemId": "item-1",
            "approvalId": "approval-bridge-1",
            "command": "npm test",
            "cwd": "/work",
            "reason": "Needs network",
            "additionalPermissions": { "network": { "hosts": ["registry.npmjs.org"] } },
            "proposedExecpolicyAmendment": { "matcher": { "program": "npm" } },
            "proposedNetworkPolicyAmendments": [{ "host": "registry.npmjs.org", "action": "allow" }],
            "availableDecisions": ["accept", "acceptForSession", "decline", "cancel"]
        }
    }"#);
    let request = decode_request(&raw);
    let CodexServerRequestOutput::ApprovalRequested(approval) = mapper().map_server_request(&request) else {
        panic!("expected approval");
    };

    assert_eq!(approval.kind, ApprovalKind::Command);
    assert_eq!(approval.native_request_id.as_deref(), Some("req-command"));
    assert!(!approval.native_blocking);
    assert!(approval.item_id.is_some());
    assert!(approval.turn_id.is_some());
    assert!(approval.details.as_deref().unwrap().contains("Additional permissions"));
    assert!(approval
        .options
        .iter()
        .any(|option| option.native_option_id.as_deref() == Some("acceptWithExecpolicyAmendment")));
    assert_eq!(approval.native.as_ref().unwrap().raw_payload.as_ref().map(back), Some(raw));

    let response = back(&codex_approval_response(
        &RequestId::String("req-command".to_owned()),
        &request.method,
        &ApprovalDecision::AcceptForSession,
        Some(&request.raw_payload),
    ));
    assert_eq!(response["id"], "req-command");
    assert_eq!(response["result"]["decision"], "acceptForSession");
}

#[test]
fn codex_approval_requests_use_item_id_fallback_for_command_approval_key() {
    let raw = sj(r#"{
        "id": 7,
        "method": "item/commandExecution/requestApproval",
        "params": {"threadId": "thread-1", "turnId": "turn-1", "itemId": "item-fallback", "command": "cargo test"}
    }"#);
    let request = decode_request(&raw);
    let mut first = mapper();
    let mut second = mapper();
    let CodexServerRequestOutput::ApprovalRequested(first_approval) = first.map_server_request(&request) else {
        panic!("expected approval");
    };
    let CodexServerRequestOutput::ApprovalRequested(second_approval) = second.map_server_request(&request) else {
        panic!("expected approval");
    };

    assert_eq!(first_approval.approval_id, second_approval.approval_id);
    assert_eq!(first_approval.native_request_id.as_deref(), Some("7"));
}

#[test]
fn codex_approval_requests_map_file_change_and_permission_payloads() {
    let file_request = decode_request(&sj(r#"{
        "id": "req-file",
        "method": "item/fileChange/requestApproval",
        "params": {"threadId": "thread-1", "turnId": "turn-1", "itemId": "file-item", "reason": "write", "grantRoot": "/work"}
    }"#));
    let permission_raw = sj(r#"{
        "id": "req-permission",
        "method": "item/permissions/requestApproval",
        "params": {
            "threadId": "thread-1",
            "turnId": "turn-1",
            "itemId": "perm-item",
            "cwd": "/work",
            "reason": "need fs and network",
            "permissions": {
                "network": { "enabled": true },
                "fileSystem": { "read": ["/work"], "write": ["/work/tmp"] }
            }
        }
    }"#);
    let permission_request = decode_request(&permission_raw);
    let mut mapper = mapper();

    let CodexServerRequestOutput::ApprovalRequested(file_approval) = mapper.map_server_request(&file_request) else {
        panic!("expected approval");
    };
    let CodexServerRequestOutput::ApprovalRequested(permission_approval) =
        mapper.map_server_request(&permission_request)
    else {
        panic!("expected approval");
    };

    assert_eq!(file_approval.kind, ApprovalKind::FileChange);
    assert_eq!(file_approval.native.as_ref().unwrap().raw_payload.as_ref(), Some(&file_request.raw_payload));
    assert_eq!(permission_approval.kind, ApprovalKind::Permission);
    assert_eq!(permission_approval.subject.as_deref(), Some("/work"));
    assert!(permission_approval.details.as_deref().unwrap().contains("Requested permissions"));
    assert_eq!(
        permission_approval.native.as_ref().unwrap().raw_payload.as_ref().map(back),
        Some(permission_raw)
    );

    let response = back(&codex_approval_response(
        &RequestId::String("req-permission".to_owned()),
        &permission_request.method,
        &ApprovalDecision::ProviderSpecific {
            payload: j(r#"{
                "permissions": { "network": { "enabled": true } },
                "scope": "session",
                "strictAutoReview": true
            }"#),
        },
        Some(&permission_request.raw_payload),
    ));
    assert_eq!(response["id"], "req-permission");
    assert_eq!(response["result"]["scope"], "session");
    assert_eq!(response["result"]["strictAutoReview"], true);
    assert_eq!(response["result"]["permissions"]["network"]["enabled"], true);
}

#[test]
fn codex_question_requests_map_tool_user_input_with_schema_and_response() {
    let raw = sj(r#"{
        "id": "req-tool-input",
        "method": "item/tool/requestUserInput",
        "params": {
            "threadId": "thread-1",
            "turnId": "turn-1",
            "itemId": "tool-item",
            "questions": [{
                "id": "choice",
                "header": "Mode",
                "question": "Pick mode",
                "isSecret": false,
                "options": [{ "label": "Fast", "description": "Quick path" }]
            }, {
                "id": "token",
                "header": "Token",
                "question": "Paste token",
                "isSecret": true,
                "options": null
            }]
        }
    }"#);
    let request = decode_request(&raw);
    let CodexServerRequestOutput::QuestionRequested(question) = mapper().map_server_request(&request) else {
        panic!("expected question");
    };

    assert_eq!(question.native_request_id.as_deref(), Some("req-tool-input"));
    assert_eq!(question.fields.len(), 2);
    assert_eq!(back(question.fields[0].schema.as_ref().unwrap())["id"], "choice");
    assert!(question.fields[1].secret);
    assert_eq!(question.native.as_ref().unwrap().raw_payload.as_ref().map(back), Some(raw));

    let answer = AgentQuestionAnswer {
        question_id: question.question_id,
        answers: vec![
            ("choice".to_owned(), vec!["Fast".to_owned()]),
            ("token".to_owned(), vec!["secret".to_owned()]),
        ],
    };
    let response =
        back(&codex_tool_user_input_response(&RequestId::String("req-tool-input".to_owned()), &answer));
    assert_eq!(response["id"], "req-tool-input");
    assert_eq!(response["result"]["answers"]["choice"]["answers"][0], "Fast");
    assert_eq!(response["result"]["answers"]["token"]["answers"][0], "secret");
}

#[test]
fn codex_question_requests_map_mcp_elicitation_with_schema_and_response() {
    let raw = sj(r#"{
        "id": "req-mcp",
        "method": "mcpServer/elicitation/request",
        "params": {
            "threadId": "thread-1",
            "turnId": "turn-1",
            "serverName": "linear",
            "message": "Create issue?",
            "requestedSchema": {
                "type": "object",
                "properties": {
                    "title": { "type": "string", "title": "Title" }
                },
                "required": ["title"]
            }
        }
    }"#);
    let request = decode_request(&raw);
    let CodexServerRequestOutput::QuestionRequested(question) = mapper().map_server_request(&request) else {
        panic!("expected question");
    };

    assert_eq!(question.title, "linear requests input");
    assert_eq!(question.description.as_deref(), Some("Create issue?"));
    assert_eq!(question.fields[1].id, "content");
    assert_eq!(back(question.fields[1].schema.as_ref().unwrap())["properties"]["title"]["type"], "string");
    assert_eq!(question.native.as_ref().unwrap().raw_payload.as_ref().map(back), Some(raw));

    let response = back(&codex_mcp_elicitation_response(
        &RequestId::String("req-mcp".to_owned()),
        "accept",
        Some(j(r#"{ "title": "Ship Stage 6" }"#)),
        Some(j(r#"{ "client": "agenter" }"#)),
    ));
    assert_eq!(response["id"], "req-mcp");
    assert_eq!(response["result"]["action"], "accept");
    assert_eq!(response["result"]["content"]["title"], "Ship Stage 6");
    assert_eq!(response["result"]["_meta"]["client"], "agenter");
}

#[test]
fn codex_approval_requests_map_legacy_approval_requests_and_review_decisions() {
    let patch_request = decode_request(&sj(r#"{
        "id": "legacy-patch",
        "method": "ApplyPatchApproval",
        "params": {
            "conversationId": "thread-legacy",
            "callId": "patch-call",
            "fileChanges": { "src/lib.rs": { "type": "add" } },
            "reason": "legacy write",
            "grantRoot": "/work"
        }
    }"#));
    let exec_request = decode_request(&sj(r#"{
        "id": "legacy-exec",
        "method": "ExecCommandApproval",
        "params": {
            "conversationId": "thread-legacy",
            "callId": "exec-call",
            "approvalId": "exec-approval",
            "command": ["cargo", "test"],
            "cwd": "/work",
            "reason": "legacy command",
            "parsedCmd": []
        }
    }"#));
    let mut mapper = mapper();
    let CodexServerRequestOutput::ApprovalRequested(patch) = mapper.map_server_request(&patch_request) else {
        panic!("expected approval");
    };
    let CodexServerRequestOutput::ApprovalRequested(exec) = mapper.map_server_request(&exec_request) else {
        panic!("expected approval");
    };

    assert_eq!(patch.kind, ApprovalKind::FileChange);
    assert_eq!(exec.kind, ApprovalKind::Command);
    assert_eq!(patch.native_request_id.as_deref(), Some("legacy-patch"));
    assert_eq!(exec.native_request_id.as_deref(), Some("legacy-exec"));

    let response = back(&codex_approval_response(
        &RequestId::String("legacy-exec".to_owned()),
        &exec_request.method,
        &ApprovalDecision::Cancel,
        Some(&exec_request.raw_payload),
    ));
    assert_eq!(response["id"], "legacy-exec");
    assert_eq!(response["result"]["decision"], "abort");
}

#[test]
fn codex_approval_requests_surface_token_refresh_and_dynamic_tool_as_unsupported() {
    let token = decode_request(&sj(r#"{
        "id": "token-refresh",
        "method": "account/chatgptAuthTokens/refresh",
        "params": {"reason": "unauthorized", "previousAccountId": "acct_1"}
    }"#));
    let dynamic = decode_request(&sj(r#"{
        "id": "dynamic-tool",
        "method": "item/tool/call",
        "params": {
            "threadId": "thread-1",
            "turnId": "turn-1",
            "callId": "call-1",
            "namespace": "client",
            "tool": "open_browser",
            "arguments": { "url": "http://localhost:3000" }
        }
    }"#));
    let mut token_mapper = mapper();

    let token_output = token_mapper.map_server_request(&token);
    let mut mapper = mapper();
    let dynamic_output = mapper.map_server_request(&dynamic);

    let CodexServerRequestOutput::NativeUnsupported { native, response, .. } = token_output else {
        panic!("expected unsupported");
    };
    let response = back(&response);
    assert_eq!(back(native.raw_payload.as_ref().unwrap())["params"]["previousAccountId"], "acct_1");
    assert_eq!(response["id"], "token-refresh");
    assert_eq!(response["error"]["code"], -32601);
    assert!(response["error"]["message"].as_str().unwrap().contains("auth tokens"));

    let CodexServerRequestOutput::NativeUnsupported { native, response, .. } = dynamic_output else {
        panic!("expected unsupported");
    };
    let response_json = back(&response);
    assert_eq!(back(native.raw_payload.as_ref().unwrap())["params"]["tool"], "open_browser");
    assert_eq!(response_json["id"], "dynamic-tool");
    assert_eq!(response_json["result"]["success"], false);
    assert!(unsupported_notification(&CodexServerRequestOutput::NativeUnsupported {
        title: "x".to_owned(),
        detail: "y".to_owned(),
        native,
        response,
    })
    .is_some());
}
