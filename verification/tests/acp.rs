use agenter_runner::acp::{
    acp_permission_response, acp_timeout_error, AcpInitializeCapabilities, AcpProviderProfile,
    AcpWorkspaceFileService,
};
use agenter_runner::json::JsonValue;
use agenter_runner::model::ApprovalDecision;

#[allow(dead_code)]
fn conv(v: &serde_json::Value) -> JsonValue {
    match v {
        serde_json::Value::Null => JsonValue::Null,
        serde_json::Value::Bool(b) => JsonValue::Bool(*b),
        serde_json::Value::Number(n) => {
            if let Some(i) = n.as_i64() {
                JsonValue::Int(i)
            } else if let Some(u) = n.as_u64() {
                JsonValue::UInt(u)
            } else {
                JsonValue::Float(n.to_string())
            }
        }
        serde_json::Value::String(s) => JsonValue::Str(s.clone()),
        serde_json::Value::Array(a) => JsonValue::Array(a.iter().map(conv).collect()),
        serde_json::Value::Object(o) => {
            JsonValue::Object(o.iter().map(|(k, v)| (k.clone(), conv(v))).collect())
        }
    }
}

#[allow(dead_code)]
fn back(v: &JsonValue) -> serde_json::Value {
    match v {
        JsonValue::Null => serde_json::Value::Null,
        JsonValue::Bool(b) => serde_json::Value::Bool(*b),
        JsonValue::Int(i) => serde_json::Value::from(*i),
        JsonValue::UInt(u) => serde_json::Value::from(*u),
        JsonValue::Float(t) => serde_json::from_str(t).unwrap(),
        JsonValue::Str(s) => serde_json::Value::String(s.clone()),
        JsonValue::Array(a) => serde_json::Value::Array(a.iter().map(back).collect()),
        JsonValue::Object(o) => {
            serde_json::Value::Object(o.iter().map(|(k, v)| (k.clone(), back(v))).collect())
        }
    }
}

#[allow(dead_code)]
fn j(text: &str) -> JsonValue {
    conv(&serde_json::from_str::<serde_json::Value>(text).unwrap())
}

#[allow(dead_code)]
fn sj(text: &str) -> serde_json::Value {
    serde_json::from_str(text).unwrap()
}

#[test]
fn acp_profiles_cover_qwen_gemini_and_opencode_commands() {
    let profiles = AcpProviderProfile::all();

    assert_eq!(
        profiles.iter().map(|profile| profile.provider_id.as_str()).collect::<Vec<_>>(),
        vec!["qwen", "gemini", "opencode"]
    );
    assert_eq!(
        profiles[0].command_line("/work/project"),
        ("qwen".to_owned(), vec!["--acp".to_owned(), "--approval-mode".to_owned(), "default".to_owned()])
    );
    assert_eq!(profiles[1].command_line("/work/project"), ("gemini".to_owned(), vec!["--acp".to_owned()]));
    assert_eq!(
        profiles[2].command_line("/work/project"),
        ("opencode".to_owned(), vec!["acp".to_owned(), "--cwd".to_owned(), "/work/project".to_owned()])
    );
}

#[test]
fn initialize_capabilities_map_to_agenter_capabilities() {
    let initialize = j(r#"{
        "result": {
            "agentCapabilities": {
                "loadSession": true,
                "sessionCapabilities": {"list": {}, "resume": {}},
                "promptCapabilities": {"image": true, "embeddedContext": true},
                "mcpCapabilities": {"http": true, "sse": true}
            }
        }
    }"#);

    let capabilities = AcpInitializeCapabilities::from_initialize(&initialize).to_agent_capabilities();

    assert!(capabilities.streaming);
    assert!(capabilities.session_resume);
    assert!(capabilities.session_history);
    assert!(capabilities.approvals);
    assert!(capabilities.file_changes);
    assert!(capabilities.command_execution);
    assert!(capabilities.plan_updates);
    assert!(!capabilities.interrupt);
}

#[test]
fn gemini_initialize_load_session_does_not_imply_list_or_resume() {
    let initialize = j(r#"{
        "result": {
            "agentCapabilities": {
                "loadSession": true,
                "promptCapabilities": {"image": true, "audio": true, "embeddedContext": true},
                "mcpCapabilities": {"http": true, "sse": true}
            }
        }
    }"#);

    let acp_capabilities = AcpInitializeCapabilities::from_initialize(&initialize);
    let agenter_capabilities = acp_capabilities.to_agent_capabilities();

    assert!(acp_capabilities.load_session);
    assert!(!acp_capabilities.session_list);
    assert!(!acp_capabilities.session_resume);
    assert!(!acp_capabilities.session_fork);
    assert!(agenter_capabilities.session_resume);
    assert!(!agenter_capabilities.session_history);
}

#[test]
fn qwen_initialize_preserves_list_and_resume() {
    let initialize = j(r#"{
        "result": {"agentCapabilities": {"loadSession": true, "sessionCapabilities": {"list": {}, "resume": {}}}}
    }"#);

    let acp_capabilities = AcpInitializeCapabilities::from_initialize(&initialize);
    let agenter_capabilities = acp_capabilities.to_agent_capabilities();

    assert!(acp_capabilities.load_session);
    assert!(acp_capabilities.session_list);
    assert!(acp_capabilities.session_resume);
    assert!(agenter_capabilities.session_resume);
    assert!(agenter_capabilities.session_history);
}

#[test]
fn gemini_profile_uses_longer_response_timeout() {
    assert_eq!(AcpProviderProfile::gemini().response_timeout(), 60);
    assert_eq!(AcpProviderProfile::qwen().response_timeout(), 20);
}

#[test]
fn timeout_error_mentions_provider_and_stderr_excerpt() {
    let message = acp_timeout_error(
        "gemini",
        "initialize",
        "Error authenticating: listen EPERM: operation not permitted 0.0.0.0",
    );

    assert!(message.contains("provider `gemini`"));
    assert!(message.contains("initialize"));
    assert!(message.contains("recent stderr"));
    assert!(message.contains("listen EPERM"));
    assert!(message.contains("authenticate and trust the workspace locally"));
}

#[test]
fn workspace_paths_must_stay_inside_workspace() {
    let service = AcpWorkspaceFileService::new("/work/project".to_owned());

    assert_eq!(
        service.contained_path("/work/project/src/main.rs").expect("contained path"),
        "/work/project/src/main.rs".to_owned()
    );
    assert!(service.contained_path("/work/other/src/main.rs").is_err());
    assert!(service.contained_path("src/main.rs").is_err());
}

#[test]
fn permission_decision_selects_provider_option() {
    let request = j(r#"{
        "id": "permission-1",
        "method": "session/request_permission",
        "params": {
            "options": [
                {"optionId": "allow", "kind": "allow_once"},
                {"optionId": "reject", "kind": "reject_once"}
            ]
        }
    }"#);

    assert_eq!(
        back(&acp_permission_response(&request, ApprovalDecision::Accept)),
        sj(r#"{"outcome": {"outcome": "selected", "optionId": "allow"}}"#)
    );
    assert_eq!(
        back(&acp_permission_response(&request, ApprovalDecision::Decline)),
        sj(r#"{"outcome": {"outcome": "selected", "optionId": "reject"}}"#)
    );
}

#[test]
fn advertised_capabilities_follow_the_provider() {
    let gemini = AcpProviderProfile::gemini().advertised_capabilities();
    assert!(gemini.session_resume);
    assert!(!gemini.session_history);
    let qwen = AcpProviderProfile::qwen().advertised_capabilities();
    assert!(qwen.session_resume);
    assert!(qwen.session_history);
}
