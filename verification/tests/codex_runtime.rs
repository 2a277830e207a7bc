use agenter_runner::outside::uuid_to_text;
use agenter_runner::codex_history::DiscoveredSessionHistoryItem;
use agenter_runner::codex_runtime::{canonicalize_plan_history_items, history_item_from_raw};
use agenter_runner::json::JsonValue;

#[allow(dead_code)]
fn conv(v: &serde_json::Value) -> JsonValue {
    match v {
        serde_json::Value::Null => JsonValue::Null,
        serde_json::Value::Bool(b) => JsonValue::Bool(*b),
        serde_json::Value::Number(n) => {
            if let Some(i) = n.as_i64() {
                JsonValue::Int(i)
            } else if let Some(u) = n.as_u64() {
                JsonValue::UInt(u)
            } else {
                JsonValue::Float(n.to_string())
            }
        }
        serde_json::Value::String(s) => JsonValue::Str(s.clone()),
        serde_json::Value::Array(a) => JsonValue::Array(a.iter().map(conv).collect()),
        serde_json::Value::Object(o) => {
            JsonValue::Object(o.iter().map(|(k, v)| (k.clone(), conv(v))).collect())
        }
    }
}

#[allow(dead_code)]
fn back(v: &JsonValue) -> serde_json::Value {
    match v {
        JsonValue::Null => serde_json::Value::Null,
        JsonValue::Bool(b) => serde_json::Value::Bool(*b),
        JsonValue::Int(i) => serde_json::Value::from(*i),
        JsonValue::UInt(u) => serde_json::Value::from(*u),
        JsonValue::Float(t) => serde_json::from_str(t).unwrap(),
        JsonValue::Str(s) => serde_json::Value::String(s.clone()),
        JsonValue::Array(a) => serde_json::Value::Array(a.iter().map(back).collect()),
        JsonValue::Object(o) => {
            serde_json::Value::Object(o.iter().map(|(k, v)| (k.clone(), back(v))).collect())
        }
    }
}

#[allow(dead_code)]
fn j(text: &str) -> JsonValue {
    conv(&serde_json::from_str::<serde_json::Value>(text).unwrap())
}

#[allow(dead_code)]
fn sj(text: &str) -> serde_json::Value {
    serde_json::from_str(text).unwrap()
}

#[test]
fn codex_force_reload_projects_plan_history_text_without_json_wrapping() {
    let raw_text = r##"{
        "type": "plan",
        "id": "plan-1",
        "text": "# Scratch-Direction Exercise\n\n## Summary\nUse the current scratch workspace."
    }"##;
    let raw_payload = j(raw_text);

    let item = history_item_from_raw("plan-1".to_owned(), Some("plan".to_owned()), j(raw_text));

    let DiscoveredSessionHistoryItem::Plan { content, provider_payload, .. } = item else {
        panic!("expected plan history item");
    };
    assert_eq!(content, "# Scratch-Direction Exercise\n\n## Summary\nUse the current scratch workspace.");
    assert_eq!(provider_payload, Some(raw_payload));
}

#[test]
fn codex_force_reload_drops_agent_message_that_duplicates_plan_text() {
    let plan_payload = j(r##"{"type": "plan", "id": "plan-1", "text": "# Plan\n\nImplement it."}"##);
    let items = canonicalize_plan_history_items(vec![
        history_item_from_raw(
            "agent-1".to_owned(),
            Some("agentMessage".to_owned()),
            j(r##"{ "type": "agentMessage", "id": "agent-1", "text": "# Plan\r\n\r\nImplement it." }"##),
        ),
        history_item_from_raw("plan-1".to_owned(), Some("plan".to_owned()), plan_payload),
        history_item_from_raw(
            "agent-2".to_owned(),
            Some("agentMessage".to_owned()),
            j(r#"{ "type": "agentMessage", "id": "agent-2", "text": "A separate assistant note." }"#),
        ),
    ]);

    assert_eq!(items.len(), 2);
    assert!(matches!(items[0], DiscoveredSessionHistoryItem::Plan { .. }));
    assert!(matches!(
        &items[1],
        DiscoveredSessionHistoryItem::AgentMessage { content, .. } if content == "A separate assistant note."
    ));
}

#[test]
fn codex_runtime_hello_capabilities_and_manifest_are_codex() {
    let registration = agenter_runner::codex_runtime::codex_runner_registration();
    assert_eq!(registration.provider_id.as_str(), "codex");
    assert!(registration.capabilities.session_resume);
    assert!(registration.capabilities.interrupt);
    assert!(!agenter_runner::codex_commands::codex_provider_commands().is_empty());
    assert!(agenter_runner::codex_commands::codex_provider_commands()
        .iter()
        .any(|command| command.id == "codex.thread.name.set"));
}

#[test]
fn codex_capabilities_add_the_dynamic_tools_detail() {
    let capabilities = agenter_runner::codex_runtime::codex_capabilities();
    assert!(capabilities.model_selection && capabilities.mcp_elicitation && capabilities.tool_user_input);
    let details = &capabilities.provider_details;
    assert_eq!(details.len(), 13);
    assert_eq!(details[0].key, "thread_maintenance");
    let last = details.last().unwrap();
    assert_eq!(last.key, "dynamic_tools");
    assert_eq!(last.methods, vec!["item/tool/call".to_owned()]);
    assert_eq!(
        last.reason.as_deref(),
        Some("Dynamic client tools are visible but not executed by Agenter yet.")
    );
}

#[test]
fn uuid_text_is_lower_case_hyphenated_hex() {
    assert_eq!(
        uuid_to_text(0x0123_4567_89ab_cdef_fedc_ba98_7654_3210),
        "01234567-89ab-cdef-fedc-ba9876543210"
    );
    assert_eq!(uuid_to_text(0), "00000000-0000-0000-0000-000000000000");
}
