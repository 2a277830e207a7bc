use agenter_runner::codex_approvals::{
    approval_response_for_decision, normalize_codex_approval_request, unsupported_codex_server_request,
    ApprovalPresentationInputs, CodexApprovalKind,
};
use agenter_runner::codex_commands::{
    codex_provider_command_request, codex_provider_slash_commands, SlashCommandArgumentKind, SlashCommandRequest,
};
use agenter_runner::codex_runtime::{
    agent_collaboration_mode_from_codex, agent_model_options_from_codex, CodexCollaborationModeMask, CodexModel,
};
use agenter_runner::codex_options::{
    codex_agent_options_from_responses, codex_thread_start_params, codex_turn_start_params, AgentReasoningEffort,
    AgentTurnSettings, CodexTurnRequest,
};
use agenter_runner::codex_questions::{
    normalize_codex_question_request, question_response_message, AgentQuestionAnswer, CodexQuestionKind,
};
use agenter_runner::codex_rpc::{
    codex_jsonrpc_request_id_summary, codex_jsonrpc_request_ids_equal, codex_rpc_is_codex_server_to_client_request,
    codex_rpc_is_codex_server_to_client_response, codex_rpc_is_response_matching_request, codex_wire_classification,
    CodexRequestId, CodexScopeLogContext, CodexTurnScope,
};
use agenter_runner::codex_runtime::SlashCommandDangerLevel;
use agenter_runner::events::{ApprovalKind, NormalizedEvent};
use agenter_runner::json::JsonValue;
use agenter_runner::model::{ApprovalDecision, SessionId};

fn nil() -> SessionId {
    SessionId(0)
}

fn no_inputs() -> ApprovalPresentationInputs {
    ApprovalPresentationInputs { command_presentation: None, file_change_presentation: None, file_change_prelude: None }
}

fn slash(command_id: &str, arguments: &str, raw_input: &str, confirmed: bool) -> SlashCommandRequest {
    SlashCommandRequest {
        command_id: command_id.to_owned(),
        universal_command_id: None,
        idempotency_key: None,
        arguments: j(arguments),
        raw_input: raw_input.to_owned(),
        confirmed,
    }
}

#[allow(dead_code)]
fn conv(v: &serde_json::Value) -> JsonValue {
    match v {
        serde_json::Value::Null => JsonValue::Null,
        serde_json::Value::Bool(b) => JsonValue::Bool(*b),
        serde_json::Value::Number(n) => {
            if let Some(i) = n.as_i64() {
                JsonValue::Int(i)
            } else if let Some(u) = n.as_u64() {
                JsonValue::UInt(u)
            } else {
                JsonValue::Float(n.to_string())
            }
        }
        serde_json::Value::String(s) => JsonValue::Str(s.clone()),
        serde_json::Value::Array(a) => JsonValue::Array(a.iter().map(conv).collect()),
        serde_json::Value::Object(o) => {
            JsonValue::Object(o.iter().map(|(k, v)| (k.clone(), conv(v))).collect())
        }
    }
}

#[allow(dead_code)]
fn back(v: &JsonValue) -> serde_json::Value {
    match v {
        JsonValue::Null => serde_json::Value::Null,
        JsonValue::Bool(b) => serde_json::Value::Bool(*b),
        JsonValue::Int(i) => serde_json::Value::from(*i),
        JsonValue::UInt(u) => serde_json::Value::from(*u),
        JsonValue::Float(t) => serde_json::from_str(t).unwrap(),
        JsonValue::Str(s) => serde_json::Value::String(s.clone()),
        JsonValue::Array(a) => serde_json::Value::Array(a.iter().map(back).collect()),
        JsonValue::Object(o) => {
            serde_json::Value::Object(o.iter().map(|(k, v)| (k.clone(), back(v))).collect())
        }
    }
}

#[allow(dead_code)]
fn j(text: &str) -> JsonValue {
    conv(&serde_json::from_str::<serde_json::Value>(text).unwrap())
}

#[allow(dead_code)]
fn sj(text: &str) -> serde_json::Value {
    serde_json::from_str(text).unwrap()
}

#[test]
fn normalizes_codex_command_approval_fixture() {
    let message = j(r#"{
        "id": "approval-1",
        "method": "item/commandExecution/requestApproval",
        "params": {"threadId": "thread-1", "turnId": "turn-1", "command": "cargo test"}
    }"#);
    let inputs = ApprovalPresentationInputs {
        command_presentation: Some(j(r#"{"variant": "codex_command", "command": "cargo test"}"#)),
        file_change_presentation: None,
        file_change_prelude: None,
    };

    let (_approval_id, native_request_id, approval_kind, event) =
        normalize_codex_approval_request(nil(), &message, 1, &inputs).expect("approval should normalize");

    assert_eq!(back(&native_request_id), sj(r#""approval-1""#));
    assert_eq!(approval_kind, CodexApprovalKind::Command);
    let NormalizedEvent::ApprovalRequested(request) = event else {
        panic!("expected approval request");
    };
    assert_eq!(request.kind, ApprovalKind::Command);
    assert_eq!(request.details.as_deref(), Some("cargo test"));
    let pres = back(&request.presentation.expect("command presentation"));
    assert_eq!(pres.get("variant"), Some(&sj(r#""codex_command""#)));
    assert_eq!(pres.get("command"), Some(&sj(r#""cargo test""#)));
}

#[test]
fn enriches_file_change_approval_via_cache() {
    let message = j(r#"{
        "id": 1,
        "method": "item/fileChange/requestApproval",
        "params": {"threadId": "t1", "turnId": "u1", "itemId": "call_git", "reason": "edit readme"}
    }"#);
    let inputs = ApprovalPresentationInputs {
        command_presentation: None,
        file_change_presentation: Some(j(r#"{"variant": "codex_file_change", "paths": ["README.md"]}"#)),
        file_change_prelude: Some("Reason: edit readme".to_owned()),
    };

    let (_id, rid, ak, ev) = normalize_codex_approval_request(nil(), &message, 2, &inputs).expect("approval");
    assert_eq!(back(&rid), sj("1"));
    assert_eq!(ak, CodexApprovalKind::FileChange);

    let NormalizedEvent::ApprovalRequested(request) = ev else {
        panic!("expected approval");
    };
    let pres = back(&request.presentation.expect("presentation"));
    assert_eq!(pres["variant"], "codex_file_change");
    assert_eq!(pres["paths"], sj(r#"["README.md"]"#));
    let details = request.details.expect("details");
    assert!(details.contains("README.md"), "details missing path: {details}");
    assert!(details.contains("Reason"), "missing reason prelude: {details}");
}

#[test]
fn thread_start_request_uses_provider_owned_startup_source() {
    let params = back(&codex_thread_start_params("/work/agenter"));

    assert_eq!(params["sessionStartSource"], "startup");
    assert_ne!(params["sessionStartSource"], "agenter");
}

#[test]
fn codex_provider_slash_command_manifest_marks_dangerous_commands() {
    let commands = codex_provider_slash_commands();

    let shell = commands.iter().find(|command| command.id == "codex.shell").expect("shell command");
    assert_eq!(shell.name, "shell");
    assert_eq!(shell.aliases, vec!["sh"]);
    assert_eq!(shell.danger_level, SlashCommandDangerLevel::Dangerous);
    assert_eq!(shell.arguments[0].kind, SlashCommandArgumentKind::Rest);

    let compact = commands.iter().find(|command| command.id == "codex.compact").expect("compact command");
    assert_eq!(compact.danger_level, SlashCommandDangerLevel::Safe);
}

#[test]
fn maps_codex_provider_slash_commands_to_jsonrpc_requests() {
    let workspace = "/work/agenter";
    let compact = slash("codex.compact", "{}", "/compact", false);
    let (method, params) =
        codex_provider_command_request("thread-1", &compact, Some("turn-1"), workspace).expect("compact maps");
    assert_eq!(method, "thread/compact/start");
    assert_eq!(back(&params), sj(r#"{"threadId": "thread-1"}"#));

    let steer = slash("codex.steer", r#"{"input": "please focus"}"#, "/steer please focus", false);
    let (method, params) =
        codex_provider_command_request("thread-1", &steer, Some("turn-1"), workspace).expect("steer maps");
    let params = back(&params);
    assert_eq!(method, "turn/steer");
    assert_eq!(params["expectedTurnId"], "turn-1");
    assert_eq!(params["input"][0]["text"], "please focus");

    let shell = slash("codex.shell", r#"{"command": "pwd | cat"}"#, "/shell pwd | cat", true);
    let (method, params) =
        codex_provider_command_request("thread-1", &shell, Some("turn-1"), workspace).expect("shell maps");
    assert_eq!(method, "thread/shellCommand");
    assert_eq!(back(&params)["command"], "pwd | cat");
}

#[test]
fn maps_codex_review_and_rollback_arguments() {
    let workspace = "/work/agenter";
    let review = slash("codex.review", r#"{"base": "main", "detached": true}"#, "/review --base main --detached", false);
    let (method, params) = codex_provider_command_request("thread-1", &review, None, workspace).expect("review maps");
    let params = back(&params);
    assert_eq!(method, "review/start");
    assert_eq!(params["target"], sj(r#"{"type": "baseBranch", "branch": "main"}"#));
    assert_eq!(params["delivery"], "detached");

    let rollback = slash("codex.rollback", r#"{"numTurns": 2}"#, "/rollback 2", true);
    let (method, params) =
        codex_provider_command_request("thread-1", &rollback, None, workspace).expect("rollback maps");
    assert_eq!(method, "thread/rollback");
    assert_eq!(back(&params)["numTurns"], 2);
}

#[test]
fn maps_approval_decisions_to_codex_results() {
    assert_eq!(
        back(&approval_response_for_decision(CodexApprovalKind::Command, ApprovalDecision::Accept)),
        sj(r#"{"decision": "accept"}"#)
    );
    assert_eq!(
        back(&approval_response_for_decision(CodexApprovalKind::Command, ApprovalDecision::AcceptForSession)),
        sj(r#"{"decision": "acceptForSession"}"#)
    );
    assert_eq!(
        back(&approval_response_for_decision(CodexApprovalKind::Command, ApprovalDecision::Decline)),
        sj(r#"{"decision": "decline"}"#)
    );
    assert_eq!(
        back(&approval_response_for_decision(CodexApprovalKind::Permissions, ApprovalDecision::Accept)),
        sj(r#"{"permissions": {"fileSystem": null, "network": null}, "scope": "turn"}"#)
    );
    assert_eq!(
        back(&approval_response_for_decision(CodexApprovalKind::ExecCommandApproval, ApprovalDecision::Accept)),
        sj(r#"{"decision": "approved"}"#)
    );
    assert_eq!(
        back(&approval_response_for_decision(CodexApprovalKind::ApplyPatchApproval, ApprovalDecision::Decline)),
        sj(r#"{"decision": "denied"}"#)
    );
}

#[test]
fn normalizes_exec_command_approval_alias_fixture() {
    let msg = j(r#"{
        "method": "execCommandApproval",
        "id": "req-exec-alias",
        "params": {
            "conversationId": "conv-1",
            "callId": "call-1",
            "command": ["echo", "alias"],
            "cwd": "/tmp/ws",
            "reason": "verify mapping"
        }
    }"#);
    let Some((_, _, codex_kind, NormalizedEvent::ApprovalRequested(req))) =
        normalize_codex_approval_request(nil(), &msg, 3, &no_inputs())
    else {
        panic!("expected exec approval mapping");
    };
    assert_eq!(codex_kind, CodexApprovalKind::ExecCommandApproval);
    let details = req.details.expect("exec details");
    assert!(details.contains("echo alias"));
    assert!(details.contains("/tmp/ws"));
}

#[test]
fn normalizes_apply_patch_approval_alias_fixture() {
    let msg = j(r#"{
        "method": "applyPatchApproval",
        "id": 991,
        "params": {
            "conversationId": "conv-1",
            "callId": "call-42",
            "fileChanges": {"/proj/a.rs": {}, "/proj/b.rs": {}},
            "reason": "touch two files"
        }
    }"#);
    let Some((_, _, codex_kind, NormalizedEvent::ApprovalRequested(req))) =
        normalize_codex_approval_request(nil(), &msg, 4, &no_inputs())
    else {
        panic!("expected patch approval mapping");
    };
    assert_eq!(codex_kind, CodexApprovalKind::ApplyPatchApproval);
    let details = req.details.expect("patch details");
    assert!(details.contains("a.rs"));
    assert!(details.contains("b.rs"));
}

#[test]
fn codex_jsonrpc_request_ids_equal_accepts_numbers_and_numeric_strings() {
    let id = CodexRequestId::numeric(4);
    assert!(codex_jsonrpc_request_ids_equal(Some(&j("4")), &id));
    assert!(codex_jsonrpc_request_ids_equal(Some(&j(r#""4""#)), &id));
    assert!(!codex_jsonrpc_request_ids_equal(Some(&j(r#""5""#)), &id));

    let string_id = CodexRequestId::String("tool-call-1".to_owned());
    assert!(codex_jsonrpc_request_ids_equal(Some(&j(r#""tool-call-1""#)), &string_id));
    assert!(!codex_jsonrpc_request_ids_equal(Some(&j(r#""other-tool-call""#)), &string_id));
}

#[test]
fn codex_rpc_classifies_responses_and_server_requests() {
    let id = CodexRequestId::numeric(2);
    assert!(codex_rpc_is_response_matching_request(&j(r#"{"id": 2, "result": {}}"#), &id));
    assert!(!codex_rpc_is_codex_server_to_client_request(&j(r#"{"id": 2, "result": {}}"#)));
    assert!(unsupported_codex_server_request(&j(r#"{"id": 2, "result": {}}"#)).is_none());
    assert!(codex_rpc_is_codex_server_to_client_request(&j(
        r#"{"id": 2, "method": "item/tool/requestUserInput", "params": {}}"#
    )));
    assert!(codex_rpc_is_codex_server_to_client_response(&j(r#"{"id": "2", "result": {"ok": true}}"#)));
    assert_eq!(codex_jsonrpc_request_id_summary(&j(r#"{"id": 12}"#)), "12");
    assert_eq!(codex_jsonrpc_request_id_summary(&j(r#"{"id": "turn-1"}"#)), "turn-1");
    assert_eq!(codex_jsonrpc_request_id_summary(&j(r#"{"id": null}"#)), "null");
    assert_eq!(codex_jsonrpc_request_id_summary(&j("{}")), "<missing id>");
}

#[test]
fn codex_wire_classification_names_requests_responses_and_notifications() {
    assert_eq!(
        codex_wire_classification(&j(r#"{"id": 1, "method": "turn/start", "params": {}}"#)),
        "server_request_received"
    );
    assert_eq!(codex_wire_classification(&j(r#"{"id": 1, "result": {"ok": true}}"#)), "server_response_received");
    assert_eq!(
        codex_wire_classification(&j(r#"{"method": "turn/completed", "params": {}}"#)),
        "server_notification_received"
    );
    assert_eq!(codex_wire_classification(&j(r#"{"jsonrpc": "2.0"}"#)), "unknown_received");
}

#[test]
fn codex_scope_context_reports_expected_and_actual_targets() {
    let scope = CodexTurnScope { thread_id: Some("thread-1".to_owned()), turn_id: Some("turn-1".to_owned()) };
    let message = j(r#"{
        "id": "request-1",
        "method": "item/agentMessage/delta",
        "params": {"threadId": "thread-2", "turnId": "turn-9", "delta": "wrong thread"}
    }"#);

    let context = CodexScopeLogContext::from_message(&message, &scope);

    assert_eq!(context.expected_thread_id.as_deref(), Some("thread-1"));
    assert_eq!(context.expected_turn_id.as_deref(), Some("turn-1"));
    assert_eq!(context.actual_thread_id.as_deref(), Some("thread-2"));
    assert_eq!(context.actual_turn_id.as_deref(), Some("turn-9"));
    assert!(!context.scope_match);
    assert_eq!(context.reason.as_deref(), Some("thread_id_mismatch"));
}

#[test]
fn maps_codex_model_and_collaboration_mode_lists() {
    let models = j(r#"{
        "id": 6,
        "result": {
            "data": [
                {
                    "id": "gpt-5.4",
                    "model": "gpt-5.4",
                    "displayName": "GPT-5.4",
                    "description": "Balanced",
                    "hidden": false,
                    "isDefault": true,
                    "defaultReasoningEffort": "medium",
                    "supportedReasoningEfforts": [{"effort": "low"}, {"effort": "medium"}, {"effort": "high"}],
                    "inputModalities": ["text", "image"]
                }
            ]
        }
    }"#);
    let modes = j(r#"{
        "id": 7,
        "result": {"data": [{"name": "Planning", "mode": "plan", "model": "gpt-5.4", "reasoning_effort": "high"}]}
    }"#);

    let options = codex_agent_options_from_responses(&models, &modes);

    assert_eq!(options.models[0].id, "gpt-5.4");
    assert_eq!(options.models[0].display_name, "GPT-5.4");
    assert_eq!(options.models[0].default_reasoning_effort, Some(AgentReasoningEffort::Medium));
    assert_eq!(options.collaboration_modes[0].id, "plan");
    assert_eq!(options.collaboration_modes[0].reasoning_effort, Some(AgentReasoningEffort::High));
}

#[test]
fn turn_start_params_include_model_effort_and_plan_mode() {
    let request = CodexTurnRequest {
        session_id: nil(),
        workspace_path: "/work/agenter".to_owned(),
        external_session_id: Some("thread-1".to_owned()),
        prompt: "Plan this".to_owned(),
        settings: Some(AgentTurnSettings {
            model: Some("gpt-5.4".to_owned()),
            reasoning_effort: Some(AgentReasoningEffort::High),
            collaboration_mode: Some("plan".to_owned()),
        }),
    };

    let params = back(&codex_turn_start_params("thread-1", &request));

    assert_eq!(params["model"], "gpt-5.4");
    assert_eq!(params["effort"], "high");
    assert_eq!(params["collaborationMode"]["mode"], "plan");
    assert_eq!(params["collaborationMode"]["settings"]["model"], "gpt-5.4");
    assert_eq!(params["collaborationMode"]["settings"]["reasoning_effort"], "high");
}

#[test]
fn turn_start_params_round_trip_default_mode_with_no_developer_instructions() {
    let request = CodexTurnRequest {
        session_id: nil(),
        workspace_path: "/work/agenter".to_owned(),
        external_session_id: Some("thread-1".to_owned()),
        prompt: "Implement the plan.".to_owned(),
        settings: Some(AgentTurnSettings {
            model: None,
            reasoning_effort: None,
            collaboration_mode: Some("default".to_owned()),
        }),
    };

    let params = back(&codex_turn_start_params("thread-1", &request));

    assert_eq!(params["collaborationMode"]["mode"], "default");
    assert_eq!(params["collaborationMode"]["settings"]["model"], serde_json::Value::Null);
    assert!(
        params["collaborationMode"]
            .as_object()
            .expect("collaboration mode payload object")
            .get("developer_instructions")
            .is_none(),
        "developer_instructions must be omitted so Codex's normalizer fills the Default preset"
    );
}

#[test]
fn normalizes_tool_user_input_request_with_multiple_answer_values() {
    let message = j(r#"{
        "id": 99,
        "method": "item/tool/requestUserInput",
        "params": {
            "threadId": "thread-1",
            "turnId": "turn-1",
            "itemId": "item-1",
            "questions": [
                {
                    "id": "target",
                    "header": "Target",
                    "question": "Choose targets",
                    "options": [
                        {"label": "Web", "description": "Browser UI"},
                        {"label": "Runner", "description": "Runner daemon"}
                    ]
                }
            ]
        }
    }"#);

    let Some((question_id, native_request_id, event)) = normalize_codex_question_request(nil(), &message, 42) else {
        panic!("expected question request");
    };

    assert_eq!(back(&native_request_id), sj("99"));
    if let NormalizedEvent::QuestionRequested(payload) = event {
        assert_eq!(payload.question_id, question_id);
        assert_eq!(payload.fields[0].kind, "single_select");
        assert_eq!(payload.fields[0].choices[1].value, "Runner");
    } else {
        panic!("unexpected event");
    }
}

#[test]
fn normalizes_mcp_elicitation_multi_select_form() {
    let message = j(r#"{
        "id": "mcp-1",
        "method": "mcpServer/elicitation/request",
        "params": {
            "threadId": "thread-1",
            "turnId": "turn-1",
            "serverName": "demo",
            "mode": "form",
            "message": "Pick targets",
            "requestedSchema": {
                "type": "object",
                "required": ["targets"],
                "properties": {
                    "targets": {
                        "type": "array",
                        "title": "Targets",
                        "description": "Choose one or more",
                        "items": {"type": "string", "enum": ["web", "runner"]},
                        "default": ["web"]
                    }
                }
            }
        }
    }"#);

    let Some((_question_id, _native_request_id, event)) = normalize_codex_question_request(nil(), &message, 43) else {
        panic!("expected question request");
    };

    if let NormalizedEvent::QuestionRequested(payload) = event {
        assert_eq!(payload.title, "demo");
        assert_eq!(payload.description.as_deref(), Some("Pick targets"));
        assert_eq!(payload.fields[0].kind, "multi_select");
        assert_eq!(payload.fields[0].default_answers, vec!["web"]);
        assert_eq!(payload.fields[0].choices[1].value, "runner");
    } else {
        panic!("unexpected event");
    }
}

#[test]
fn question_response_message_answers_by_request_id() {
    let answer = AgentQuestionAnswer {
        question_id: 1,
        answers: vec![("name".to_owned(), vec!["Max".to_owned()])],
    };
    let message = back(&question_response_message(j(r#""question-1""#), CodexQuestionKind::ToolUserInput, &answer));
    assert_eq!(message["id"], "question-1");
    assert_eq!(message["result"]["answers"]["name"]["answers"], sj(r#"["Max"]"#));
}

#[test]
fn codex_runtime_loads_agent_options_from_app_server() {
    let page = vec![CodexModel {
        model: "gpt-5.2".to_owned(),
        display_name: "GPT-5.2".to_owned(),
        description: "Balanced".to_owned(),
        hidden: false,
        is_default: true,
        default_reasoning_effort: Some("medium".to_owned()),
        supported_reasoning_efforts: vec!["low".to_owned(), "medium".to_owned()],
        input_modalities: vec!["text".to_owned(), "image".to_owned()],
    }];
    let masks = vec![
        CodexCollaborationModeMask {
            name: "Auto".to_owned(),
            mode: Some("auto".to_owned()),
            model: Some("gpt-5.2".to_owned()),
            reasoning_effort: Some("medium".to_owned()),
        },
        CodexCollaborationModeMask { name: "Plan".to_owned(), mode: Some("plan".to_owned()), model: None, reasoning_effort: None },
    ];

    let models = agent_model_options_from_codex(page);
    let collaboration_modes: Vec<_> = masks.into_iter().map(agent_collaboration_mode_from_codex).collect();

    assert_eq!(models.len(), 1);
    assert_eq!(models[0].id, "gpt-5.2");
    assert_eq!(models[0].display_name, "GPT-5.2");
    assert!(models[0].is_default);
    assert_eq!(models[0].default_reasoning_effort, Some(AgentReasoningEffort::Medium));
    assert_eq!(models[0].supported_reasoning_efforts, vec![AgentReasoningEffort::Low, AgentReasoningEffort::Medium]);
    assert_eq!(models[0].input_modalities, vec!["text", "image"]);
    assert_eq!(collaboration_modes.len(), 2);
    assert_eq!(collaboration_modes[0].id, "auto");
    assert_eq!(collaboration_modes[0].model.as_deref(), Some("gpt-5.2"));
    assert_eq!(collaboration_modes[0].reasoning_effort, Some(AgentReasoningEffort::Medium));
    assert_eq!(collaboration_modes[1].id, "plan");
    assert_eq!(collaboration_modes[1].reasoning_effort, None);
}

#[test]
fn runtime_model_list_skips_blank_models_and_names_modes() {
    let blank = CodexModel {
        model: "  ".to_owned(),
        display_name: String::new(),
        description: String::new(),
        hidden: false,
        is_default: false,
        default_reasoning_effort: None,
        supported_reasoning_efforts: vec![],
        input_modalities: vec![],
    };
    let hidden = CodexModel {
        model: "m".to_owned(),
        hidden: true,
        supported_reasoning_efforts: vec!["bogus".to_owned(), "xhigh".to_owned()],
        ..blank.clone()
    };
    let options = agent_model_options_from_codex(vec![blank, hidden]);
    assert_eq!(options.len(), 1);
    assert_eq!(options[0].display_name, "m");
    assert_eq!(options[0].description.as_deref(), Some("Hidden Codex model."));
    assert_eq!(options[0].supported_reasoning_efforts, vec![AgentReasoningEffort::Xhigh]);
    let custom = agent_collaboration_mode_from_codex(CodexCollaborationModeMask {
        name: " ".to_owned(),
        mode: Some("".to_owned()),
        model: None,
        reasoning_effort: Some("none".to_owned()),
    });
    assert_eq!(custom.id, " ");
    assert_eq!(custom.label, "Custom");
    assert_eq!(custom.reasoning_effort, Some(AgentReasoningEffort::Off));
}
