use agenter_runner::acp_reducer::AcpReducerState;
use agenter_runner::model::{SessionId, TurnStatus};
use agenter_runner::universal::UniversalEventKind;

#[test]
fn acp_prompt_turn_ids_include_session_and_provider_scope() {
    let same_prompt = "prompt-1";
    let mut first = AcpReducerState::new(SessionId(0), "qwen".to_owned());
    let mut second = AcpReducerState::new(SessionId(0x1234_5678_9abc_def0_1234_5678_9abc_def0), "qwen".to_owned());
    let mut third = AcpReducerState::new(SessionId(0), "opencode".to_owned());

    let first_id = first.start_prompt(same_prompt).universal.turn_id;
    let second_id = second.start_prompt(same_prompt).universal.turn_id;
    let third_id = third.start_prompt(same_prompt).universal.turn_id;

    assert_ne!(first_id, second_id);
    assert_ne!(first_id, third_id);
}

#[test]
fn acp_prompt_completion_ends_the_started_turn() {
    let session = SessionId(9);
    let mut reducer = AcpReducerState::new(session, "qwen".to_owned());
    assert!(reducer.complete_prompt("prompt-0").is_none());

    let started = reducer.start_prompt("prompt-1");
    let turn_id = started.universal.turn_id.expect("turn id");
    assert_eq!(turn_id, reducer.prompt_turn_id("prompt-1"));
    let UniversalEventKind::TurnStarted { turn } = &started.universal.event else {
        panic!("expected turn started");
    };
    assert_eq!(turn.turn_id, turn_id);
    assert_eq!(turn.status, TurnStatus::Running);
    let native = started.universal.native.as_ref().unwrap();
    assert_eq!(native.protocol, "acp-stdio");
    assert_eq!(native.kind.as_deref(), Some("qwen"));
    assert_eq!(native.summary.as_deref(), Some("ACP prompt started"));

    let completed = reducer.complete_prompt("prompt-1").expect("completion");
    let UniversalEventKind::TurnCompleted { turn } = &completed.universal.event else {
        panic!("expected turn completed");
    };
    assert_eq!(turn.turn_id, turn_id);
    assert_eq!(turn.status, TurnStatus::Completed);
    assert_eq!(completed.universal.session_id, Some(session));
    assert!(reducer.complete_prompt("prompt-1").is_none());
}
