use agenter_runner::acp::AgentCapabilities;
use agenter_runner::adapter::{
    AdapterCommandOutcome, RunnerCommandResult,
    AdapterEvent, AdapterProviderRegistration, AdapterRegistry, AdapterRuntime, UniversalEventSource,
};
use agenter_runner::model::{ItemId, ItemRole, NativeRef, SessionId, SessionStatus, TurnId};
use agenter_runner::model::TurnStatus;
use agenter_runner::universal::{ContentBlock, ContentBlockKind, ItemState, ItemStatus, TurnState, UniversalEventKind};

fn native_ref(method: &str) -> NativeRef {
    NativeRef {
        protocol: "acp".to_owned(),
        method: Some(method.to_owned()),
        kind: Some("qwen".to_owned()),
        native_id: None,
        summary: None,
        hash: None,
        pointer: None,
        raw_payload: None,
    }
}

#[test]
fn adapter_registry_resolves_provider_by_session_then_provider_id() {
    let gemini = "gemini".to_owned();
    let qwen = "qwen".to_owned();
    let session_id = SessionId(0);
    let mut registry = AdapterRegistry::new();

    registry.register_provider(AdapterProviderRegistration {
        provider_id: gemini.clone(),
        capabilities: AgentCapabilities { streaming: true, ..AgentCapabilities::default() },
    });
    registry.register_provider(AdapterProviderRegistration {
        provider_id: qwen.clone(),
        capabilities: AgentCapabilities { approvals: true, ..AgentCapabilities::default() },
    });
    registry.bind_session(session_id, qwen.clone());

    assert_eq!(registry.provider_for_session(session_id).map(|p| &p.provider_id), Some(&qwen));
    assert_eq!(registry.resolve_provider(Some(session_id), Some(&gemini)).map(|p| &p.provider_id), Some(&qwen));
    assert_eq!(registry.resolve_provider(None, Some(&gemini)).map(|p| &p.provider_id), Some(&gemini));
}

#[test]
fn direct_universal_event_projects_to_runner_wal_event() {
    let session_id = SessionId(1);
    let turn_id = TurnId(2);
    let item_id = ItemId(3);

    let event = AdapterEvent::from_universal(
        session_id,
        Some(turn_id),
        Some(item_id),
        Some(native_ref("session/update")),
        UniversalEventKind::ContentDelta {
            block_id: "text-1".to_owned(),
            kind: Some(ContentBlockKind::Text),
            delta: "hello".to_owned(),
        },
    );

    let wal_event = event.universal_projection_for_wal().expect("wal event");
    assert_eq!(wal_event.session_id, session_id);
    assert_eq!(wal_event.turn_id, Some(turn_id));
    assert_eq!(wal_event.item_id, Some(item_id));
    assert_eq!(wal_event.native.expect("native").protocol, "acp");
    assert!(matches!(wal_event.event, UniversalEventKind::ContentDelta { .. }));
}

#[test]
fn direct_event_without_session_is_not_written_to_wal() {
    let event = AdapterEvent::new(
        None,
        None,
        None,
        UniversalEventSource::Native,
        Some(native_ref("runner/error")),
        UniversalEventKind::ErrorReported {
            code: Some("provider_error".to_owned()),
            message: "provider failed before session binding".to_owned(),
        },
    );

    assert!(event.universal_projection_for_wal().is_none());
}

#[test]
fn with_turn_id_updates_nested_universal_item() {
    let session_id = SessionId(1);
    let turn_id = TurnId(2);
    let item_id = ItemId(3);
    let event = AdapterEvent::from_universal(
        session_id,
        None,
        Some(item_id),
        Some(native_ref("item/created")),
        UniversalEventKind::ItemCreated {
            item: ItemState {
                item_id,
                session_id,
                turn_id: None,
                role: ItemRole::Assistant,
                status: ItemStatus::Streaming,
                content: vec![ContentBlock {
                    block_id: "text-1".to_owned(),
                    kind: ContentBlockKind::Text,
                    text: None,
                    mime_type: None,
                    artifact_id: None,
                }],
                tool: None,
                native: None,
            },
        },
    )
    .with_turn_id(turn_id);

    assert_eq!(event.universal.turn_id, Some(turn_id));
    let UniversalEventKind::ItemCreated { item } = event.universal.event else {
        panic!("expected item");
    };
    assert_eq!(item.turn_id, Some(turn_id));
}

#[test]
fn unbinding_a_session_falls_back_to_the_named_provider() {
    let mut runtime = AdapterRuntime::new();
    runtime.register_provider(AdapterProviderRegistration {
        provider_id: "gemini".to_owned(),
        capabilities: AgentCapabilities::default(),
    });
    runtime.register_provider(AdapterProviderRegistration {
        provider_id: "qwen".to_owned(),
        capabilities: AgentCapabilities::default(),
    });
    let session = SessionId(9);
    runtime.bind_session(session, "qwen".to_owned());
    assert_eq!(runtime.resolve_provider(Some(session), Some("gemini")).map(|p| p.provider_id.as_str()), Some("qwen"));
    runtime.unbind_session(session);
    assert_eq!(runtime.resolve_provider(Some(session), Some("gemini")).map(|p| p.provider_id.as_str()), Some("gemini"));
    assert!(runtime.resolve_provider(Some(session), None).is_none());
}

#[test]
fn session_status_event_names_its_provider() {
    let event = AdapterEvent::session_status("qwen", "acp", Some("session/new"), SessionId(4), SessionStatus::Idle, None);
    let native = event.universal.native.as_ref().expect("native");
    assert_eq!(native.kind.as_deref(), Some("qwen"));
    assert_eq!(native.summary.as_deref(), Some("session status changed"));
    assert!(matches!(event.universal.event, UniversalEventKind::SessionStatusChanged { status: SessionStatus::Idle, .. }));
}

#[test]
fn adapter_outcomes_become_runner_results() {
    let loaded = AdapterCommandOutcome::SessionLoaded {
        session_id: SessionId(3),
        external_session_id: "thread-1".to_owned(),
    };
    assert_eq!(
        RunnerCommandResult::from(loaded),
        RunnerCommandResult::SessionResumed {
            session_id: SessionId(3),
            external_session_id: "thread-1".to_owned(),
        }
    );
    assert_eq!(RunnerCommandResult::from(AdapterCommandOutcome::Accepted), RunnerCommandResult::Accepted);
}

#[test]
fn with_turn_id_moves_a_cancelled_turn() {
    let session_id = SessionId(1);
    let event = AdapterEvent::from_universal(
        session_id,
        Some(TurnId(5)),
        None,
        None,
        UniversalEventKind::TurnCancelled {
            turn: TurnState {
                turn_id: TurnId(5),
                session_id,
                status: TurnStatus::Interrupted,
                started_at: None,
                completed_at: None,
            },
        },
    )
    .with_turn_id(TurnId(7));
    let UniversalEventKind::TurnCancelled { turn } = event.universal.event else {
        panic!("expected cancelled turn");
    };
    assert_eq!(turn.turn_id, TurnId(7));
    assert_eq!(event.universal.turn_id, Some(TurnId(7)));
}
