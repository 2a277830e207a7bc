use agenter_runner::codex_client::{missing_thread_id_error, response_result, timeout_error};
use agenter_runner::codex_rpc::{
    codex_jsonrpc_error_summary, is_codex_no_rollout_resume_error, is_codex_thread_not_found_error,
    recent_stderr_label, startup_error_with_stderr,
};
use agenter_runner::json::JsonValue;

#[allow(dead_code)]
fn conv(v: &serde_json::Value) -> JsonValue {
    match v {
        serde_json::Value::Null => JsonValue::Null,
        serde_json::Value::Bool(b) => JsonValue::Bool(*b),
        serde_json::Value::Number(n) => {
            if let Some(i) = n.as_i64() {
                JsonValue::Int(i)
            } else if let Some(u) = n.as_u64() {
                JsonValue::UInt(u)
            } else {
                JsonValue::Float(n.to_string())
            }
        }
        serde_json::Value::String(s) => JsonValue::Str(s.clone()),
        serde_json::Value::Array(a) => JsonValue::Array(a.iter().map(conv).collect()),
        serde_json::Value::Object(o) => {
            JsonValue::Object(o.iter().map(|(k, v)| (k.clone(), conv(v))).collect())
        }
    }
}

#[allow(dead_code)]
fn back(v: &JsonValue) -> serde_json::Value {
    match v {
        JsonValue::Null => serde_json::Value::Null,
        JsonValue::Bool(b) => serde_json::Value::Bool(*b),
        JsonValue::Int(i) => serde_json::Value::from(*i),
        JsonValue::UInt(u) => serde_json::Value::from(*u),
        JsonValue::Float(t) => serde_json::from_str(t).unwrap(),
        JsonValue::Str(s) => serde_json::Value::String(s.clone()),
        JsonValue::Array(a) => serde_json::Value::Array(a.iter().map(back).collect()),
        JsonValue::Object(o) => {
            serde_json::Value::Object(o.iter().map(|(k, v)| (k.clone(), back(v))).collect())
        }
    }
}

#[allow(dead_code)]
fn j(text: &str) -> JsonValue {
    conv(&serde_json::from_str::<serde_json::Value>(text).unwrap())
}

#[allow(dead_code)]
fn sj(text: &str) -> serde_json::Value {
    serde_json::from_str(text).unwrap()
}

#[test]
fn detects_codex_turn_start_thread_not_found_errors() {
    let error = "codex turn/start failed: -32600 thread not found: thread-1";
    assert!(is_codex_thread_not_found_error(error));
    assert!(!is_codex_thread_not_found_error("codex turn/start failed: -32600 model not found"));
    assert!(!is_codex_thread_not_found_error(
        "codex thread/resume failed: -32600 thread not found: thread-1"
    ));
}

#[test]
fn detects_codex_no_rollout_resume_errors() {
    assert!(is_codex_no_rollout_resume_error(
        "codex thread/resume failed: -32600 no rollout found for thread id 019de8a3-e4d4-78e3-8382-458afaddbe13"
    ));
    assert!(!is_codex_no_rollout_resume_error(
        "codex thread/resume failed: -32600 thread not found: thread-1"
    ));
    assert!(!is_codex_no_rollout_resume_error(
        "codex turn/start failed: -32600 no rollout found for thread id 019de8a3-e4d4-78e3-8382-458afaddbe13"
    ));
}

#[test]
fn summarizes_codex_jsonrpc_errors_with_method_context() {
    let message = j(r#"{"id": 2, "error": {"code": -32602, "message": "invalid thread/start params"}}"#);
    assert_eq!(
        codex_jsonrpc_error_summary("thread/start", &message),
        Some("codex thread/start failed: -32602 invalid thread/start params".to_owned())
    );
}

#[test]
fn missing_thread_id_error_includes_recent_stderr() {
    let stderr = vec!["Failed to create shell snapshot".to_owned()];
    assert_eq!(
        missing_thread_id_error("thread/start", &stderr, None),
        "codex thread/start response did not include a thread id; recent stderr: Failed to create shell snapshot"
    );
}

#[test]
fn missing_thread_id_error_falls_back_to_preview() {
    assert_eq!(
        missing_thread_id_error("thread/start", &Vec::new(), Some("{}".to_owned())),
        "codex thread/start response did not include a thread id; response preview: {}"
    );
    assert_eq!(
        missing_thread_id_error("thread/start", &Vec::new(), None),
        "codex thread/start response did not include a thread id"
    );
}

#[test]
fn error_summary_defaults_code_and_message() {
    assert_eq!(
        codex_jsonrpc_error_summary("x", &j(r#"{"error": {}}"#)),
        Some("codex x failed: unknown unknown provider error".to_owned())
    );
    assert_eq!(codex_jsonrpc_error_summary("x", &j(r#"{"result": {}}"#)), None);
}

#[test]
fn stderr_label_uses_the_last_line() {
    let lines = vec!["a".to_owned(), "b".to_owned()];
    assert_eq!(recent_stderr_label(&lines), "recent stderr: b");
    assert_eq!(recent_stderr_label(&Vec::new()), "");
    assert_eq!(startup_error_with_stderr("boom".to_owned(), &lines), "boom; recent stderr: b");
    assert_eq!(startup_error_with_stderr("boom".to_owned(), &Vec::new()), "boom");
}

#[test]
fn response_result_reports_exit_errors_and_timeouts() {
    let stderr = vec!["oops".to_owned()];
    assert_eq!(
        response_result("initialize", None, &stderr).unwrap_err(),
        "codex exited before initialize response; recent stderr: oops"
    );
    assert_eq!(
        response_result("thread/start", Some(j(r#"{"id": 1, "error": {"code": 5, "message": "bad"}}"#)), &Vec::new())
            .unwrap_err(),
        "codex thread/start failed: 5 bad"
    );
    let ok = response_result("thread/start", Some(j(r#"{"id": 1, "result": {"thread": {"id": "t"}}}"#)), &Vec::new())
        .unwrap();
    assert_eq!(back(&ok), sj(r#"{"id": 1, "result": {"thread": {"id": "t"}}}"#));
    assert_eq!(timeout_error("initialize", &Vec::new()), "timed out waiting for codex initialize response");
}
