use agenter_runner::codex_runtime::{command_id_for_method, method_from_command_id};
use agenter_runner::codex_commands::{
    executed_command_result, plan_provider_command, provider_command_params, unsupported_command_result,
    ProviderCommandPlan, SlashCommandRequest,
};
use agenter_runner::json::{json_to_text, JsonValue};
use agenter_runner::provider_commands::{
    client_request_dispositions, core_client_requests, method_set, provider_capability_details,
    provider_command, provider_command_manifest, CodexClientRequestDispositionKind,
    CodexProviderCommandAvailability, CodexProviderCommandCategory, RawPayloadDisplay,
};

#[test]
fn codex_provider_commands_keep_required_native_metadata() {
    let commands = provider_command_manifest();
    assert!(!commands.is_empty(), "manifest should expose provider command entries");

    for command in &commands {
        assert!(!command.method.trim().is_empty(), "command method must be retained");
        assert!(
            !command.label.trim().is_empty(),
            "{} should have a human-readable label",
            command.method
        );
        assert!(
            !command.schema.params_type.trim().is_empty(),
            "{} should retain a params schema type or placeholder",
            command.method
        );
        assert!(
            !command.schema.response_type.trim().is_empty(),
            "{} should retain a response schema type",
            command.method
        );
        assert_eq!(
            command.raw_payload_display,
            RawPayloadDisplay::Always,
            "{} provider command results must expose raw native payloads during the Codex research phase",
            command.method
        );
    }
}

#[test]
fn codex_provider_commands_classify_non_core_requests() {
    let core = core_client_requests();
    for disposition in client_request_dispositions() {
        match disposition.disposition {
            CodexClientRequestDispositionKind::Core => {
                assert!(
                    core.iter().any(|c| c.method == disposition.method),
                    "{} is marked core without being in the core table",
                    disposition.method
                );
            }
            CodexClientRequestDispositionKind::ProviderCommand => {
                assert!(
                    provider_command(disposition.method).is_some(),
                    "{} is marked as a provider command without a manifest entry",
                    disposition.method
                );
            }
            CodexClientRequestDispositionKind::AdapterInternal
            | CodexClientRequestDispositionKind::Deferred => {
                assert!(
                    !disposition.reason.trim().is_empty(),
                    "{} must document why it is not a manifest command",
                    disposition.method
                );
            }
        }
    }
}

#[test]
fn codex_provider_commands_cover_stage7_feature_families() {
    let commands = provider_command_manifest();
    for category in [
        CodexProviderCommandCategory::Memory,
        CodexProviderCommandCategory::SkillsPluginsApps,
        CodexProviderCommandCategory::Filesystem,
        CodexProviderCommandCategory::AccountDeviceAuth,
        CodexProviderCommandCategory::ConfigMcp,
        CodexProviderCommandCategory::Realtime,
        CodexProviderCommandCategory::Feedback,
        CodexProviderCommandCategory::ShellBackgroundTerminals,
        CodexProviderCommandCategory::ExternalAgentConfig,
        CodexProviderCommandCategory::FuzzySearch,
        CodexProviderCommandCategory::WindowsSandbox,
        CodexProviderCommandCategory::MockExperimental,
    ] {
        assert!(
            commands.iter().any(|command| command.category == category),
            "missing provider command family {}",
            category.as_str()
        );
    }
}

#[test]
fn codex_provider_commands_keep_guarded_and_disabled_policies() {
    for method in [
        "fs/writeFile",
        "account/logout",
        "config/value/write",
        "command/exec",
        "externalAgentConfig/import",
        "mock/experimentalMethod",
    ] {
        let command = provider_command(method).expect("command should exist");
        assert!(
            !matches!(command.availability, CodexProviderCommandAvailability::Supported),
            "{method} should remain guarded, disabled, experimental, or gated"
        );
    }
}

#[test]
fn codex_provider_commands_capabilities_reference_manifest_methods() {
    let methods: Vec<String> = provider_command_manifest().iter().map(|c| c.method.to_owned()).collect();
    let manifest_methods = method_set(&methods);

    for detail in provider_capability_details() {
        assert!(
            !detail.methods.is_empty(),
            "{} capability should reference at least one Codex method",
            detail.key
        );
        for method in detail.methods {
            assert!(
                manifest_methods.contains(&method),
                "{} capability references unknown method {}",
                detail.key,
                method
            );
        }
    }
}

#[test]
fn method_set_sorts_and_removes_repeats() {
    let methods = vec!["b/x".to_owned(), "a/y".to_owned(), "b/x".to_owned()];
    assert_eq!(method_set(&methods), vec!["a/y".to_owned(), "b/x".to_owned()]);
}

#[test]
fn provider_command_lookup_is_exact() {
    assert!(provider_command("thread/name/set").is_some());
    assert!(provider_command("thread/name").is_none());
}

#[test]
fn codex_runtime_provider_command_guarding_is_explicit() {
    let request = SlashCommandRequest {
        command_id: "codex.fs.writeFile".to_owned(),
        universal_command_id: None,
        idempotency_key: None,
        arguments: JsonValue::Object(vec![]),
        raw_input: "/fs/writeFile".to_owned(),
        confirmed: true,
    };
    let ProviderCommandPlan::Refuse(result) = plan_provider_command(&request) else {
        panic!("guarded filesystem writes are refused");
    };
    assert!(!result.accepted);
    let payload = result.provider_payload.unwrap();
    let JsonValue::Object(entries) = &payload else {
        panic!("payload is an object");
    };
    assert!(entries.iter().any(|(k, v)| k == "status"
        && *v == JsonValue::Str("unsupported".to_owned())));
}

#[test]
fn provider_commands_are_planned_by_manifest() {
    let request = |id: &str, confirmed: bool| SlashCommandRequest {
        command_id: id.to_owned(),
        universal_command_id: None,
        idempotency_key: None,
        arguments: JsonValue::Null,
        raw_input: String::new(),
        confirmed,
    };
    let ProviderCommandPlan::Refuse(unknown) = plan_provider_command(&request("codex.no.such", true)) else {
        panic!("unknown commands are refused");
    };
    assert_eq!(unknown.message, "Codex provider command is not known.");
    assert_eq!(
        plan_provider_command(&request("codex.thread.name.set", false)),
        ProviderCommandPlan::Run { method: "thread/name/set".to_owned(), needs_thread: true }
    );
}

#[test]
fn provider_command_params_add_the_thread() {
    let object = JsonValue::Object(vec![("name".to_owned(), JsonValue::Str("x".to_owned()))]);
    assert_eq!(
        json_to_text(&provider_command_params(&object, None, Some("thread-1"))),
        r#"{"name":"x","threadId":"thread-1"}"#
    );
    let given = JsonValue::Object(vec![("threadId".to_owned(), JsonValue::Str("mine".to_owned()))]);
    assert_eq!(json_to_text(&provider_command_params(&given, None, Some("thread-1"))), r#"{"threadId":"mine"}"#);
    let text = JsonValue::Str(r#"{"a":1}"#.to_owned());
    let parsed = JsonValue::Object(vec![("a".to_owned(), JsonValue::Int(1))]);
    assert_eq!(json_to_text(&provider_command_params(&text, Some(parsed), None)), r#"{"a":1}"#);
    let blank = JsonValue::Str("   ".to_owned());
    assert_eq!(json_to_text(&provider_command_params(&blank, None, None)), "{}");
    let array = JsonValue::Array(vec![]);
    assert_eq!(json_to_text(&provider_command_params(&array, None, Some("t"))), r#"{"threadId":"t"}"#);
}

#[test]
fn provider_command_results_carry_the_exchange() {
    let done = executed_command_result("thread/name/set", JsonValue::Null, JsonValue::Bool(true));
    assert!(done.accepted);
    assert_eq!(done.message, "Codex `thread/name/set` executed.");
    assert_eq!(
        json_to_text(done.provider_payload.as_ref().unwrap()),
        r#"{"method":"thread/name/set","request":null,"response":true}"#
    );
    let refused = unsupported_command_result("codex.x", "no");
    assert_eq!(
        json_to_text(refused.provider_payload.as_ref().unwrap()),
        r#"{"command_id":"codex.x","message":"no","status":"unsupported"}"#
    );
}

#[test]
fn every_manifest_command_id_leads_back_to_its_method() {
    assert_eq!(command_id_for_method("thread/name/set"), "codex.thread.name.set");
    assert_eq!(method_from_command_id("codex.fs.writeFile"), "fs/writeFile");
    for command in provider_command_manifest() {
        assert!(!command.method.contains('.'));
        let id = command_id_for_method(command.method);
        assert_eq!(method_from_command_id(&id), command.method);
    }
}

#[test]
fn every_manifest_command_is_found_by_its_method() {
    let manifest = provider_command_manifest();
    for command in &manifest {
        let found = provider_command(command.method).expect("manifest command");
        assert_eq!(found.method, command.method);
        assert_eq!(found.label, command.label);
        assert_eq!(found.category, command.category);
    }
    for (i, a) in manifest.iter().enumerate() {
        for b in &manifest[i + 1..] {
            assert_ne!(a.method, b.method);
        }
    }
}

#[test]
fn requests_outside_the_manifest_say_why() {
    for disposition in client_request_dispositions() {
        if matches!(
            disposition.disposition,
            CodexClientRequestDispositionKind::AdapterInternal | CodexClientRequestDispositionKind::Deferred
        ) {
            assert!(!disposition.reason.trim().is_empty());
        }
    }
}
