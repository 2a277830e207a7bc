//! The decisions of a Codex turn: for each message Codex sends while a turn runs, what
//! the runner emits, answers, or waits for. The caller performs the I/O and the waits.
use vstd::prelude::*;
use crate::json::{Json, JsonValue, json_get, get, json_clone, obj1, jstr};
use crate::codex::{jsonrpc_method, jsonrpc_method_spec, normalize_codex_message, normalized_events,
    status_event_of};
use crate::codex_rpc::{CodexTurnScope, TurnScopeView, is_server_request, is_server_response,
    belongs_to_scope, codex_rpc_is_codex_server_to_client_request,
    codex_rpc_is_codex_server_to_client_response, codex_message_belongs_to_scope};
use crate::codex_approvals::{CodexApprovalKind, ApprovalPresentationInputs, approval_request_of,
    normalize_codex_approval_request, unsupported_request_of, unsupported_codex_server_request,
    unsupported_request_response, application_error_response, error_envelope};
use crate::codex_questions::{CodexQuestionKind, question_request_of, question_kind_of,
    normalize_codex_question_request, codex_question_kind};
use crate::events::{AgentErrorEvent, EventView, NormalizedEvent, SessionStatusChangedEvent, events_view,
    opt_j, opt_s};
use crate::model::{SessionId, SessionStatus};
use crate::text::{str_eq, owned};

verus! {

/// Shown when Codex asks the runner to refresh its login, which only the runner's
/// host can do.
pub const CODEX_AUTH_REFRESH_OPERATOR_MESSAGE: &'static str = "Codex login or token refresh is required on the runner host (for example HTTP 401 from the Codex backend). SSH into the machine running `agenter-runner`, sign in using the Codex CLI in that environment, then retry this chat.";

/// What the runner does with one message of a running turn.
#[derive(Debug)]
pub enum TurnAction {
    /// Emit the events; when `completed`, the turn is over.
    Emit { events: Vec<NormalizedEvent>, completed: bool },
    /// Emit the events, then send `response` to answer a request Codex made.
    Reply { events: Vec<NormalizedEvent>, response: JsonValue },
    /// Emit the events, then wait for the user's decision on the approval.
    AwaitApproval {
        approval_id: u128,
        native_request_id: JsonValue,
        kind: CodexApprovalKind,
        events: Vec<NormalizedEvent>,
    },
    /// Emit the events, then wait for the user's answer to the question.
    AwaitQuestion {
        question_id: u128,
        native_request_id: JsonValue,
        kind: CodexQuestionKind,
        events: Vec<NormalizedEvent>,
    },
    /// Nothing to do.
    Skip,
}

pub enum ActionView {
    Emit { events: Seq<EventView>, completed: bool },
    Reply { events: Seq<EventView>, response: Json },
    AwaitApproval { approval_id: u128, native_request_id: Json, kind: CodexApprovalKind, events: Seq<EventView> },
    AwaitQuestion { question_id: u128, native_request_id: Json, kind: CodexQuestionKind, events: Seq<EventView> },
    Skip,
}

impl View for TurnAction {
    type V = ActionView;

    open spec fn view(&self) -> ActionView {
        match self {
            TurnAction::Emit { events, completed } => ActionView::Emit {
                events: events_view(events@),
                completed: *completed,
            },
            TurnAction::Reply { events, response } => ActionView::Reply {
                events: events_view(events@),
                response: response@,
            },
            TurnAction::AwaitApproval { approval_id, native_request_id, kind, events } => ActionView::AwaitApproval {
                approval_id: *approval_id,
                native_request_id: native_request_id@,
                kind: *kind,
                events: events_view(events@),
            },
            TurnAction::AwaitQuestion { question_id, native_request_id, kind, events } => ActionView::AwaitQuestion {
                question_id: *question_id,
                native_request_id: native_request_id@,
                kind: *kind,
                events: events_view(events@),
            },
            TurnAction::Skip => ActionView::Skip,
        }
    }
}

/// The error event shown for a request the runner refuses.
pub open spec fn refusal_event(sid: SessionId, code: Seq<char>, message: Seq<char>, m: Json) -> EventView {
    EventView::Error { session_id: Some(sid), code: Some(code), message, provider_payload: Some(m) }
}

/// The reply to a login refresh request.
pub open spec fn auth_refresh_reply(id: Json) -> Json {
    error_envelope(
        id,
        -32002i64,
        "Remote runner cannot refresh Codex auth tokens; authenticate on the runner host."@,
        Some(Json::Object(seq![("agenter.reason"@, Json::Str("auth_refresh_unreachable_remotely"@))])),
    )
}

/// What the runner does with a request Codex makes during a turn.
pub open spec fn request_action_of(
    sid: SessionId,
    m: Json,
    approval_id: u128,
    question_id: u128,
    command_presentation: Option<Json>,
    file_change_presentation: Option<Json>,
    prelude: Option<Seq<char>>,
) -> Option<ActionView> {
    let method = jsonrpc_method_spec(m);
    if method == Some("account/chatgptAuthTokens/refresh"@) {
        match json_get(m, "id"@) {
            Some(id) => Some(
                ActionView::Reply {
                    events: seq![
                        refusal_event(sid, "codex_auth_refresh_required"@, CODEX_AUTH_REFRESH_OPERATOR_MESSAGE@, m),
                    ],
                    response: auth_refresh_reply(id),
                },
            ),
            None => Some(ActionView::Skip),
        }
    } else if method == Some("item/tool/call"@) {
        match json_get(m, "id"@) {
            Some(id) => Some(
                ActionView::Reply {
                    events: seq![
                        refusal_event(
                            sid,
                            "codex_dynamic_tool_unsupported"@,
                            "Codex requested a dynamic tool call that Agenter cannot execute remotely."@,
                            m,
                        ),
                    ],
                    response: error_envelope(
                        id,
                        -32601i64,
                        "unsupported Codex server request method: "@ + "item/tool/call"@,
                        None,
                    ),
                },
            ),
            None => Some(ActionView::Skip),
        }
    } else {
        match approval_request_of(sid, m, approval_id, command_presentation, file_change_presentation, prelude) {
            Some((id, ck, event)) => Some(
                ActionView::AwaitApproval {
                    approval_id,
                    native_request_id: id,
                    kind: ck,
                    events: seq![
                        status_event_of(sid, SessionStatus::WaitingForApproval, "Codex is waiting for approval."@),
                        event,
                    ],
                },
            ),
            None => match question_request_of(sid, m, question_id) {
                Some((id, event)) => match question_kind_of(m) {
                    Some(kind) => Some(
                        ActionView::AwaitQuestion {
                            question_id,
                            native_request_id: id,
                            kind,
                            events: seq![
                                status_event_of(sid, SessionStatus::WaitingForInput, "Codex is waiting for input."@),
                                event,
                            ],
                        },
                    ),
                    None => Some(ActionView::Skip),
                },
                None => match unsupported_request_of(m) {
                    Some((id, method)) => Some(
                        ActionView::Reply {
                            events: normalized_events(sid, m),
                            response: error_envelope(
                                id,
                                -32601i64,
                                "unsupported Codex server request method: "@ + method,
                                None,
                            ),
                        },
                    ),
                    None => None,
                },
            },
        }
    }
}

/// What the runner does with a message of a running turn: requests are refused,
/// answered or waited on; stray responses and messages of other threads are skipped;
/// everything else is emitted, and `turn/completed` ends the turn.
pub open spec fn turn_action_of(
    sid: SessionId,
    m: Json,
    scope: TurnScopeView,
    approval_id: u128,
    question_id: u128,
    command_presentation: Option<Json>,
    file_change_presentation: Option<Json>,
    prelude: Option<Seq<char>>,
) -> ActionView {
    let from_request = if is_server_request(m) {
        request_action_of(sid, m, approval_id, question_id, command_presentation, file_change_presentation, prelude)
    } else {
        None
    };
    match from_request {
        Some(a) => a,
        None => if is_server_response(m) {
            ActionView::Skip
        } else if !belongs_to_scope(m, scope) {
            ActionView::Skip
        } else {
            ActionView::Emit {
                events: normalized_events(sid, m),
                completed: jsonrpc_method_spec(m) == Some("turn/completed"@),
            }
        },
    }
}

fn one_event(e: NormalizedEvent) -> (r: Vec<NormalizedEvent>)
    ensures
        events_view(r@) == seq![e@],
{
    let mut v = Vec::new();
    v.push(e);
    proof {
        assert(events_view(v@) =~= seq![e@]);
    }
    v
}

fn two_events(a: NormalizedEvent, b: NormalizedEvent) -> (r: Vec<NormalizedEvent>)
    ensures
        events_view(r@) == seq![a@, b@],
{
    let mut v = Vec::new();
    v.push(a);
    v.push(b);
    proof {
        assert(events_view(v@) =~= seq![a@, b@]);
    }
    v
}

fn status_event(sid: SessionId, status: SessionStatus, reason: &str) -> (r: NormalizedEvent)
    ensures
        r@ == status_event_of(sid, status, reason@),
{
    NormalizedEvent::SessionStatusChanged(SessionStatusChangedEvent {
        session_id: sid,
        status,
        reason: Some(owned(reason)),
    })
}

fn refusal(sid: SessionId, code: &str, message: &str, m: &JsonValue) -> (r: NormalizedEvent)
    ensures
        r@ == refusal_event(sid, code@, message@, m@),
{
    NormalizedEvent::Error(AgentErrorEvent {
        session_id: Some(sid),
        code: Some(owned(code)),
        message: owned(message),
        provider_payload: Some(json_clone(m)),
    })
}

fn request_action(
    sid: SessionId,
    m: &JsonValue,
    approval_id: u128,
    question_id: u128,
    inputs: &ApprovalPresentationInputs,
) -> (r: Option<TurnAction>)
    ensures
        match r {
            Some(a) => request_action_of(
                sid,
                m@,
                approval_id,
                question_id,
                opt_j(inputs.command_presentation),
                opt_j(inputs.file_change_presentation),
                opt_s(inputs.file_change_prelude),
            ) == Some(a@),
            None => request_action_of(
                sid,
                m@,
                approval_id,
                question_id,
                opt_j(inputs.command_presentation),
                opt_j(inputs.file_change_presentation),
                opt_s(inputs.file_change_prelude),
            ) is None,
        },
{
    let method = jsonrpc_method(m);
    let is_method = |name: &str| -> (b: bool)
        ensures
            b == (crate::json::opt_str(method) == Some(name@)),
        {
            match method {
                Some(x) => str_eq(x, name),
                None => false,
            }
        };
    if is_method("account/chatgptAuthTokens/refresh") {
        return match get(m, "id") {
            Some(id) => {
                let events = one_event(
                    refusal(sid, "codex_auth_refresh_required", CODEX_AUTH_REFRESH_OPERATOR_MESSAGE, m),
                );
                let response = application_error_response(
                    json_clone(id),
                    -32002,
                    "Remote runner cannot refresh Codex auth tokens; authenticate on the runner host.",
                    Some(obj1("agenter.reason", jstr("auth_refresh_unreachable_remotely"))),
                );
                Some(TurnAction::Reply { events, response })
            },
            None => Some(TurnAction::Skip),
        };
    }
    if is_method("item/tool/call") {
        return match get(m, "id") {
            Some(id) => {
                let events = one_event(
                    refusal(
                        sid,
                        "codex_dynamic_tool_unsupported",
                        "Codex requested a dynamic tool call that Agenter cannot execute remotely.",
                        m,
                    ),
                );
                let response = unsupported_request_response(json_clone(id), "item/tool/call");
                Some(TurnAction::Reply { events, response })
            },
            None => Some(TurnAction::Skip),
        };
    }
    match normalize_codex_approval_request(sid, m, approval_id, inputs) {
        Some((aid, id, ck, event)) => {
            let events = two_events(
                status_event(sid, SessionStatus::WaitingForApproval, "Codex is waiting for approval."),
                event,
            );
            return Some(TurnAction::AwaitApproval { approval_id: aid, native_request_id: id, kind: ck, events });
        },
        None => {},
    }
    match normalize_codex_question_request(sid, m, question_id) {
        Some((qid, id, event)) => {
            return match codex_question_kind(m) {
                Some(kind) => {
                    let events = two_events(
                        status_event(sid, SessionStatus::WaitingForInput, "Codex is waiting for input."),
                        event,
                    );
                    Some(TurnAction::AwaitQuestion { question_id: qid, native_request_id: id, kind, events })
                },
                None => Some(TurnAction::Skip),
            };
        },
        None => {},
    }
    match unsupported_codex_server_request(m) {
        Some((id, method)) => {
            let events = normalize_codex_message(sid, m);
            let response = unsupported_request_response(id, method);
            Some(TurnAction::Reply { events, response })
        },
        None => None,
    }
}

/// What the runner does with a message of a running turn (the scope has already
/// observed it). `approval_id` and `question_id` are the fresh ids an approval or a
/// question it asks would get; `inputs` is what the items seen before say about how an
/// approval is shown.
pub fn codex_turn_step(
    sid: SessionId,
    m: &JsonValue,
    scope: &CodexTurnScope,
    approval_id: u128,
    question_id: u128,
    inputs: &ApprovalPresentationInputs,
) -> (r: TurnAction)
    ensures
        r@ == turn_action_of(
            sid,
            m@,
            scope@,
            approval_id,
            question_id,
            opt_j(inputs.command_presentation),
            opt_j(inputs.file_change_presentation),
            opt_s(inputs.file_change_prelude),
        ),
{
    if codex_rpc_is_codex_server_to_client_request(m) {
        match request_action(sid, m, approval_id, question_id, inputs) {
            Some(a) => {
                return a;
            },
            None => {},
        }
    }
    if codex_rpc_is_codex_server_to_client_response(m) {
        return TurnAction::Skip;
    }
    if !codex_message_belongs_to_scope(m, scope) {
        return TurnAction::Skip;
    }
    let completed = match jsonrpc_method(m) {
        Some(method) => str_eq(method, "turn/completed"),
        None => false,
    };
    TurnAction::Emit { events: normalize_codex_message(sid, m), completed }
}

/// What the runner does with a message of a running turn, an approval or a question it
/// asks getting a fresh random id (the random source decides which).
pub fn codex_turn_step_fresh(sid: SessionId, m: &JsonValue, scope: &CodexTurnScope, inputs: &ApprovalPresentationInputs) -> (r:
    TurnAction)
    ensures
        exists|approval_id: u128, question_id: u128|
            r@ == #[trigger] turn_action_of(
                sid,
                m@,
                scope@,
                approval_id,
                question_id,
                opt_j(inputs.command_presentation),
                opt_j(inputs.file_change_presentation),
                opt_s(inputs.file_change_prelude),
            ),
{
    let approval_id = crate::outside::new_v4();
    let question_id = crate::outside::new_v4();
    codex_turn_step(sid, m, scope, approval_id, question_id, inputs)
}

/// The status shown once the user answered an approval.
pub fn approval_answered_event(sid: SessionId) -> (r: NormalizedEvent)
    ensures
        r@ == status_event_of(sid, SessionStatus::Running, "Approval answered."@),
{
    status_event(sid, SessionStatus::Running, "Approval answered.")
}

/// The status shown once the user answered a question.
pub fn question_answered_event(sid: SessionId) -> (r: NormalizedEvent)
    ensures
        r@ == status_event_of(sid, SessionStatus::Running, "Input answered."@),
{
    status_event(sid, SessionStatus::Running, "Input answered.")
}

/// A turn ends only on `turn/completed`: any other message leaves it running.
pub proof fn law_only_turn_completed_ends_a_turn(
    sid: SessionId,
    m: Json,
    scope: TurnScopeView,
    approval_id: u128,
    question_id: u128,
    command_presentation: Option<Json>,
    file_change_presentation: Option<Json>,
    prelude: Option<Seq<char>>,
)
    requires
        jsonrpc_method_spec(m) != Some("turn/completed"@),
    ensures
        !(turn_action_of(sid, m, scope, approval_id, question_id, command_presentation, file_change_presentation, prelude) matches ActionView::Emit { completed: true, .. }),
{
}

/// Messages of another thread than the turn's are never shown, and a response to a
/// request is never shown either.
pub proof fn law_foreign_and_response_messages_are_skipped(
    sid: SessionId,
    m: Json,
    scope: TurnScopeView,
    approval_id: u128,
    question_id: u128,
    command_presentation: Option<Json>,
    file_change_presentation: Option<Json>,
    prelude: Option<Seq<char>>,
)
    requires
        !is_server_request(m),
        is_server_response(m) || !belongs_to_scope(m, scope),
    ensures
        turn_action_of(sid, m, scope, approval_id, question_id, command_presentation, file_change_presentation, prelude) == ActionView::Skip,
{
}

/// Every request Codex makes during a turn gets an answer or a wait: the runner never
/// passes over a request with an id in silence.
pub proof fn law_requests_are_never_dropped(
    sid: SessionId,
    m: Json,
    scope: TurnScopeView,
    approval_id: u128,
    question_id: u128,
    command_presentation: Option<Json>,
    file_change_presentation: Option<Json>,
    prelude: Option<Seq<char>>,
)
    requires
        is_server_request(m),
    ensures
        ({
            let a = turn_action_of(sid, m, scope, approval_id, question_id, command_presentation, file_change_presentation, prelude);
            a is Reply || a is AwaitApproval || a is AwaitQuestion
        }),
{
    let method = jsonrpc_method_spec(m);
    assert(json_get(m, "id"@) is Some);
    match question_request_of(sid, m, question_id) {
        Some(_) => {
            assert(question_kind_of(m) is Some);
        },
        None => {},
    }
}

/// The events of a message that belongs to the scope; nothing for a message of
/// another thread.
pub fn normalize_codex_message_for_scope(sid: SessionId, m: &JsonValue, scope: &CodexTurnScope) -> (r: Vec<NormalizedEvent>)
    ensures
        events_view(r@) == (if belongs_to_scope(m@, scope@) {
            normalized_events(sid, m@)
        } else {
            Seq::empty()
        }),
{
    if !codex_message_belongs_to_scope(m, scope) {
        let v = Vec::new();
        proof {
            assert(events_view(v@) =~= Seq::<EventView>::empty());
        }
        return v;
    }
    normalize_codex_message(sid, m)
}

} // verus!
