use agenter_runner::codec::{frame_text, CodexCodec, CodexDecodedFrame};
use agenter_runner::codex_actor::{CodexRuntimeState, RuntimeAction, SendThread};
use agenter_runner::codex_options::{normalize_turn_settings, turn_settings_need_options, AgentCollaborationMode, AgentModelOption, AgentOptions, AgentReasoningEffort, AgentTurnSettings};
use agenter_runner::model::SessionStatus;
use agenter_runner::codex_questions::AgentQuestionAnswer;
use agenter_runner::json::JsonValue;
use agenter_runner::model::{ApprovalDecision, SessionId, UtcTimestamp};
use agenter_runner::universal::UniversalEventKind;

#[allow(dead_code)]
fn conv(v: &serde_json::Value) -> JsonValue {
    match v {
        serde_json::Value::Null => JsonValue::Null,
        serde_json::Value::Bool(b) => JsonValue::Bool(*b),
        serde_json::Value::Number(n) => {
            if let Some(i) = n.as_i64() {
                JsonValue::Int(i)
            } else if let Some(u) = n.as_u64() {
                JsonValue::UInt(u)
            } else {
                JsonValue::Float(n.to_string())
            }
        }
        serde_json::Value::String(s) => JsonValue::Str(s.clone()),
        serde_json::Value::Array(a) => JsonValue::Array(a.iter().map(conv).collect()),
        serde_json::Value::Object(o) => {
            JsonValue::Object(o.iter().map(|(k, v)| (k.clone(), conv(v))).collect())
        }
    }
}

#[allow(dead_code)]
fn back(v: &JsonValue) -> serde_json::Value {
    match v {
        JsonValue::Null => serde_json::Value::Null,
        JsonValue::Bool(b) => serde_json::Value::Bool(*b),
        JsonValue::Int(i) => serde_json::Value::from(*i),
        JsonValue::UInt(u) => serde_json::Value::from(*u),
        JsonValue::Float(t) => serde_json::from_str(t).unwrap(),
        JsonValue::Str(s) => serde_json::Value::String(s.clone()),
        JsonValue::Array(a) => serde_json::Value::Array(a.iter().map(back).collect()),
        JsonValue::Object(o) => {
            serde_json::Value::Object(o.iter().map(|(k, v)| (k.clone(), back(v))).collect())
        }
    }
}

#[allow(dead_code)]
fn j(text: &str) -> JsonValue {
    conv(&serde_json::from_str::<serde_json::Value>(text).unwrap())
}

#[allow(dead_code)]
fn sj(text: &str) -> serde_json::Value {
    serde_json::from_str(text).unwrap()
}

fn decode(line: &str) -> CodexDecodedFrame {
    let mut codec = CodexCodec::new();
    let text = frame_text(line);
    match serde_json::from_str::<serde_json::Value>(&text) {
        Ok(v) => codec.decode_parsed(line, Ok(conv(&v))),
        Err(e) => codec.decode_parsed(line, Err(e.to_string())),
    }
}

fn at(secs: i64) -> UtcTimestamp {
    UtcTimestamp { secs, nanos: 0 }
}

fn bound(session: SessionId, thread: &str) -> CodexRuntimeState {
    let mut state = CodexRuntimeState::new();
    state.bind_session(session, thread.to_owned());
    state
}

const APPROVAL_REQUEST: &str = r#"{"id":"approval-1","method":"item/commandExecution/requestApproval","params":{"threadId":"thread-1","turnId":"turn-1","itemId":"item-1","approvalId":"native-approval","command":"printf test"}}"#;

const QUESTION_REQUEST: &str = r#"{"id":"question-1","method":"item/tool/requestUserInput","params":{"threadId":"thread-1","turnId":"turn-1","itemId":"item-1","questions":[{"id":"name","label":"Name","type":"text"}]}}"#;

#[test]
fn codex_runtime_server_request_emits_pending_approval() {
    let session = SessionId(7);
    let mut state = bound(session, "thread-1");
    let actions = state.handle_frame_at(decode(APPROVAL_REQUEST), at(0));

    assert_eq!(actions.len(), 1);
    let RuntimeAction::Emit(event) = &actions[0] else {
        panic!("expected an emitted event");
    };
    assert_eq!(event.universal.session_id, Some(session));
    let UniversalEventKind::ApprovalRequested { approval } = &event.universal.event else {
        panic!("expected approval request event");
    };
    assert_eq!(approval.session_id, session);
    assert_eq!(approval.native_request_id.as_deref(), Some("approval-1"));
    assert!(approval.native.as_ref().unwrap().raw_payload.is_some());
    assert_eq!(event.universal.turn_id, approval.turn_id);
}

#[test]
fn codex_runtime_approval_answer_writes_exactly_one_native_response() {
    let session = SessionId(7);
    let mut state = bound(session, "thread-1");
    let actions = state.handle_frame_at(decode(APPROVAL_REQUEST), at(0));
    let RuntimeAction::Emit(event) = &actions[0] else {
        panic!("expected an emitted event");
    };
    let UniversalEventKind::ApprovalRequested { approval } = &event.universal.event else {
        panic!("expected approval request event");
    };
    let approval_id = approval.approval_id;

    let reply = state.answer_approval(approval_id, &ApprovalDecision::Accept).unwrap();
    let reply = back(&reply);
    assert_eq!(reply["id"], "approval-1");
    assert_eq!(reply["result"]["decision"], "accept");

    let error = state
        .answer_approval(approval_id, &ApprovalDecision::Accept)
        .expect_err("completed Codex approval is removed from the pending map");
    assert!(error.contains("no longer pending"));
}

#[test]
fn codex_runtime_question_response_is_routed() {
    let session = SessionId(9);
    let mut state = bound(session, "thread-1");
    let actions = state.handle_frame_at(decode(QUESTION_REQUEST), at(0));
    assert_eq!(actions.len(), 1);
    let RuntimeAction::Emit(event) = &actions[0] else {
        panic!("expected an emitted event");
    };
    let UniversalEventKind::QuestionRequested { question } = &event.universal.event else {
        panic!("expected question request event");
    };
    let answer = AgentQuestionAnswer {
        question_id: question.question_id,
        answers: vec![("name".to_owned(), vec!["Max".to_owned()])],
    };
    let reply = back(&state.answer_question(&answer, None).unwrap());
    assert_eq!(reply["id"], "question-1");
    assert_eq!(reply["result"]["answers"]["name"]["answers"], sj(r#"["Max"]"#));

    let error = state.answer_question(&answer, None).expect_err("question answered once");
    assert_eq!(error, "Codex question is no longer pending");
}

#[test]
fn runtime_request_without_session_is_refused() {
    let mut state = CodexRuntimeState::new();
    let actions = state.handle_frame_at(decode(APPROVAL_REQUEST), at(0));
    assert_eq!(actions.len(), 1);
    let RuntimeAction::Respond(reply) = &actions[0] else {
        panic!("expected a reply to Codex");
    };
    let reply = back(reply);
    assert_eq!(reply["id"], "approval-1");
    assert_eq!(reply["error"]["code"], -32601);
    assert_eq!(reply["error"]["message"], "Agenter could not map Codex request to a session.");
}

#[test]
fn runtime_unsupported_request_is_answered_and_reported() {
    let session = SessionId(3);
    let mut state = bound(session, "thread-1");
    let line = r#"{"id":5,"method":"item/tool/call","params":{"threadId":"thread-1","turnId":"turn-1","itemId":"item-1","toolName":"client_tool","arguments":{}}}"#;
    let actions = state.handle_frame_at(decode(line), at(0));
    assert_eq!(actions.len(), 2);
    let RuntimeAction::Respond(reply) = &actions[0] else {
        panic!("expected a reply to Codex first");
    };
    assert_eq!(back(reply)["id"], 5);
    let RuntimeAction::Emit(event) = &actions[1] else {
        panic!("expected a reported notification");
    };
    let UniversalEventKind::ProviderNotification { notification } = &event.universal.event else {
        panic!("expected provider notification");
    };
    assert_eq!(notification.category, "codex_unsupported_server_request");
    assert_eq!(notification.status.as_deref(), Some("unsupported"));
}

#[test]
fn runtime_notification_without_session_falls_back_to_the_only_session() {
    let session = SessionId(11);
    let mut state = bound(session, "thread-1");
    let line = r#"{"method":"thread/updated","params":{"threadId":"thread-unknown"}}"#;
    let actions = state.handle_frame_at(decode(line), at(5));
    assert!(!actions.is_empty());
    for action in &actions {
        let RuntimeAction::Emit(event) = action else {
            panic!("notifications only emit events");
        };
        assert_eq!(event.universal.session_id, Some(session));
    }

    let mut empty = CodexRuntimeState::new();
    let dropped = empty.handle_frame_at(decode(line), at(5));
    assert!(dropped.is_empty());
}

#[test]
fn runtime_malformed_frame_is_shown_in_the_only_session() {
    let session = SessionId(12);
    let mut state = bound(session, "thread-1");
    let actions = state.handle_frame_at(decode("{not json"), at(0));
    assert_eq!(actions.len(), 1);
    let RuntimeAction::Emit(event) = &actions[0] else {
        panic!("expected an emitted event");
    };
    let UniversalEventKind::NativeUnknown { summary } = &event.universal.event else {
        panic!("expected native unknown");
    };
    assert_eq!(summary.as_deref(), Some("Malformed Codex app-server frame"));
    let native = event.universal.native.as_ref().unwrap();
    assert_eq!(native.method.as_deref(), Some("native/frame"));
    assert_eq!(back(native.raw_payload.as_ref().unwrap())["line"], "{not json");
}

#[test]
fn runtime_turn_completion_clears_the_active_turn() {
    let session = SessionId(13);
    let mut state = bound(session, "thread-1");
    state.set_active_turn(session, "turn-1".to_owned());
    assert_eq!(state.interrupt_target(session), Ok(("thread-1".to_owned(), "turn-1".to_owned())));

    let line = r#"{"method":"turn/completed","params":{"threadId":"thread-1","turn":{"id":"turn-1","status":"completed","items":[]}}}"#;
    let actions = state.handle_frame_at(decode(line), at(1));
    assert!(actions.iter().any(|a| matches!(
        a,
        RuntimeAction::Emit(e) if matches!(e.universal.event, UniversalEventKind::TurnCompleted { .. })
    )));
    assert_eq!(
        state.interrupt_target(session),
        Err("Codex session has no active turn id".to_owned())
    );
}

#[test]
fn runtime_interrupt_needs_thread_and_turn() {
    let state = CodexRuntimeState::new();
    assert_eq!(
        state.interrupt_target(SessionId(1)),
        Err("Codex session has no native thread id".to_owned())
    );
}

#[test]
fn runtime_sessions_are_found_by_thread_then_by_the_only_binding() {
    let first = SessionId(21);
    let second = SessionId(22);
    let mut state = CodexRuntimeState::new();
    state.bind_session(first, "thread-a".to_owned());
    let payload = j(r#"{"params":{"threadId":"thread-z"}}"#);
    assert_eq!(state.session_for_payload(&payload), Some(first));
    assert_eq!(state.single_session(), Some(first));

    state.bind_session(second, "thread-b".to_owned());
    assert_eq!(state.single_session(), None);
    assert_eq!(state.session_for_payload(&payload), None);
    assert_eq!(
        state.session_for_payload(&j(r#"{"params":{"threadId":"thread-b"}}"#)),
        Some(second)
    );

    state.unbind_session(second);
    assert_eq!(state.session_for_payload(&payload), Some(first));
    let _ = JsonValue::Null;
}

#[test]
fn runtime_send_uses_the_bound_thread_unless_forced() {
    let session = SessionId(31);
    let mut state = CodexRuntimeState::new();
    assert_eq!(
        state.send_thread(session, None, false),
        Err("Codex session has no native thread id".to_owned())
    );
    assert_eq!(
        state.send_thread(session, Some("external".to_owned()), false),
        Ok(SendThread::Resume("external".to_owned()))
    );
    state.bind_session(session, "thread-1".to_owned());
    assert_eq!(
        state.send_thread(session, Some("external".to_owned()), false),
        Ok(SendThread::Bound("thread-1".to_owned()))
    );
    assert_eq!(
        state.send_thread(session, Some("external".to_owned()), true),
        Ok(SendThread::Resume("external".to_owned()))
    );
    assert_eq!(state.send_thread(session, None, true), Ok(SendThread::Resume("thread-1".to_owned())));
}

#[test]
fn runtime_shutdown_forgets_the_session_and_reports_it_stopped() {
    let session = SessionId(32);
    let mut state = bound(session, "thread-1");
    state.set_active_turn(session, "turn-1".to_owned());
    let (thread, action) = state.shutdown_session(session);
    assert_eq!(thread.as_deref(), Some("thread-1"));
    let RuntimeAction::Emit(event) = &action else {
        panic!("expected a status event");
    };
    let UniversalEventKind::SessionStatusChanged { status, reason } = &event.universal.event else {
        panic!("expected a status change");
    };
    assert_eq!(*status, SessionStatus::Stopped);
    assert_eq!(reason.as_deref(), Some("Codex session runtime stopped."));
    assert_eq!(
        event.universal.native.as_ref().unwrap().method.as_deref(),
        Some("thread/unsubscribe")
    );
    assert_eq!(state.active_turn_id(session), None);
    assert_eq!(state.single_session(), None);
    let (again, _) = state.shutdown_session(session);
    assert_eq!(again, None);
}

#[test]
fn runtime_started_turn_becomes_active_and_reports_its_items() {
    let session = SessionId(33);
    let mut state = bound(session, "thread-1");
    let turn = j(r#"{"id":"turn-7","items":[{"type":"agentMessage","id":"item-1","text":"hi"}]}"#);
    let actions = state.turn_started_at(session, "thread-1", "turn-7".to_owned(), &turn, at(9));
    assert_eq!(state.active_turn_id(session).as_deref(), Some("turn-7"));
    assert!(!actions.is_empty());
    for action in &actions {
        let RuntimeAction::Emit(event) = action else {
            panic!("history items only emit events");
        };
        assert_eq!(event.universal.session_id, Some(session));
    }

    let empty = state.turn_started_at(session, "thread-1", "turn-8".to_owned(), &j("{}"), at(9));
    assert!(empty.is_empty());
    assert_eq!(state.active_turn_id(session).as_deref(), Some("turn-8"));
}

#[test]
fn runtime_transport_errors_reach_every_bound_session() {
    let mut state = CodexRuntimeState::new();
    state.bind_session(SessionId(41), "thread-a".to_owned());
    state.bind_session(SessionId(42), "thread-b".to_owned());
    let actions = state.transport_error_actions("codex_transport", "pipe closed");
    assert_eq!(actions.len(), 2);
    let mut sessions = Vec::new();
    for action in &actions {
        let RuntimeAction::Emit(event) = action else {
            panic!("errors are emitted");
        };
        sessions.push(event.universal.session_id.unwrap());
        let UniversalEventKind::ErrorReported { code, message } = &event.universal.event else {
            panic!("expected an error report");
        };
        assert_eq!(code.as_deref(), Some("codex_transport"));
        assert_eq!(message, "pipe closed");
        let native = event.universal.native.as_ref().unwrap();
        assert_eq!(back(native.raw_payload.as_ref().unwrap()), sj(r#"{"message":"pipe closed"}"#));
    }
    assert_eq!(sessions, vec![SessionId(41), SessionId(42)]);
}

fn options() -> AgentOptions {
    AgentOptions {
        models: vec![
            AgentModelOption {
                id: "gpt-mini".to_owned(),
                display_name: "Mini".to_owned(),
                description: None,
                is_default: false,
                default_reasoning_effort: None,
                supported_reasoning_efforts: vec![],
                input_modalities: vec![],
            },
            AgentModelOption {
                id: "gpt-main".to_owned(),
                display_name: "Main".to_owned(),
                description: None,
                is_default: true,
                default_reasoning_effort: None,
                supported_reasoning_efforts: vec![],
                input_modalities: vec![],
            },
        ],
        collaboration_modes: vec![
            AgentCollaborationMode {
                id: "plan".to_owned(),
                label: "Plan".to_owned(),
                model: Some("gpt-plan".to_owned()),
                reasoning_effort: Some(AgentReasoningEffort::High),
            },
            AgentCollaborationMode {
                id: "custom".to_owned(),
                label: "Custom".to_owned(),
                model: None,
                reasoning_effort: None,
            },
        ],
    }
}

#[test]
fn sparse_collaboration_mode_settings_are_filled_in_before_turn_start() {
    let sparse = Some(AgentTurnSettings {
        model: None,
        reasoning_effort: None,
        collaboration_mode: Some("plan".to_owned()),
    });
    assert!(turn_settings_need_options(&sparse));
    assert_eq!(
        normalize_turn_settings(sparse, &options()),
        Some(AgentTurnSettings {
            model: Some("gpt-plan".to_owned()),
            reasoning_effort: Some(AgentReasoningEffort::High),
            collaboration_mode: Some("plan".to_owned()),
        })
    );

    let chosen_effort = Some(AgentTurnSettings {
        model: None,
        reasoning_effort: Some(AgentReasoningEffort::Low),
        collaboration_mode: Some("custom".to_owned()),
    });
    assert_eq!(
        normalize_turn_settings(chosen_effort, &options()),
        Some(AgentTurnSettings {
            model: Some("gpt-main".to_owned()),
            reasoning_effort: Some(AgentReasoningEffort::Low),
            collaboration_mode: Some("custom".to_owned()),
        })
    );

    let unknown = Some(AgentTurnSettings {
        model: None,
        reasoning_effort: None,
        collaboration_mode: Some("missing".to_owned()),
    });
    let mut no_default = options();
    no_default.models[1].is_default = false;
    assert_eq!(
        normalize_turn_settings(unknown, &no_default).unwrap().model.as_deref(),
        Some("gpt-mini")
    );

    let explicit = Some(AgentTurnSettings {
        model: Some("mine".to_owned()),
        reasoning_effort: None,
        collaboration_mode: Some("plan".to_owned()),
    });
    assert!(!turn_settings_need_options(&explicit));
    assert_eq!(normalize_turn_settings(explicit.clone(), &options()), explicit);
    assert_eq!(normalize_turn_settings(None, &options()), None);
}

#[test]
fn runtime_history_turns_mark_running_turns_active() {
    let session = SessionId(51);
    let mut state = bound(session, "thread-1");
    let items = vec![j(r#"{"type":"agentMessage","id":"item-1","text":"earlier"}"#)];
    let actions = state.history_turn_at(session, "thread-1", "turn-1", Some("completed"), &items, at(3));
    assert!(!actions.is_empty());
    assert_eq!(state.active_turn_id(session), None);

    let none = state.history_turn_at(session, "thread-1", "turn-2", Some("inProgress"), &vec![], at(3));
    assert!(none.is_empty());
    assert_eq!(state.active_turn_id(session).as_deref(), Some("turn-2"));

    state.history_turn_at(session, "thread-1", "turn-3", None, &vec![], at(3));
    assert_eq!(state.active_turn_id(session).as_deref(), Some("turn-2"));
}
