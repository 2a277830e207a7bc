//! What ACP messages become as runner events: `session/update` notifications,
//! `session/prompt` responses and `session/request_permission` requests.
use vstd::prelude::*;
use crate::json::{Json, JsonValue, json_get, json_path, json_as_str, json_as_array, entries_get, first_str,
    first_bool, json_text, values_view, paths_view, path_view, opt_str, opt_json, get, at, as_str, as_array,
    json_clone, json_eq, first_str_at, first_bool_at, json_to_text, obj2};
use crate::codex::{jsonrpc_method, jsonrpc_method_spec, text_or};
use crate::codex_mapper::{ApprovalOption, canonical_defaults_view};
use crate::events::{AgentErrorEvent, AgentMessageDeltaEvent, ApprovalKind, ApprovalRequestEvent, EventView,
    MessageCompletedEvent, NativeNotification, NormalizedEvent, NotificationView, PlanEntry, PlanEntryView, PlanEvent,
    ToolEvent, plan_entries_view};
use crate::model::{SessionId, PlanEntryStatus};
use crate::outside::new_v4;
use crate::text::{owned, str_eq};

verus! {

// ---------------------------------------------------------------------------
// Where the fields live
// ---------------------------------------------------------------------------

pub open spec fn update_type_paths() -> Seq<Seq<Seq<char>>> {
    seq![seq!["params"@, "update"@, "sessionUpdate"@], seq!["params"@, "update"@, "type"@], seq!["params"@, "sessionUpdate"@]]
}

pub open spec fn content_text_paths() -> Seq<Seq<Seq<char>>> {
    seq![
        seq!["params"@, "update"@, "content"@, "text"@],
        seq!["params"@, "update"@, "content"@],
        seq!["params"@, "content"@, "text"@],
        seq!["params"@, "content"@],
        seq!["result"@, "content"@, "text"@],
        seq!["result"@, "message"@, "text"@],
    ]
}

pub open spec fn message_id_paths() -> Seq<Seq<Seq<char>>> {
    seq![
        seq!["params"@, "update"@, "messageId"@],
        seq!["params"@, "update"@, "id"@],
        seq!["params"@, "messageId"@],
        seq!["params"@, "sessionId"@],
    ]
}

pub open spec fn session_id_paths() -> Seq<Seq<Seq<char>>> {
    seq![seq!["result"@, "sessionId"@], seq!["params"@, "sessionId"@], seq!["sessionId"@]]
}

/// The kind of a `session/update`.
pub open spec fn acp_update_type_of(m: Json) -> Option<Seq<char>> {
    first_str(m, update_type_paths())
}

/// The text an ACP message carries.
pub open spec fn acp_content_text_of(m: Json) -> Option<Seq<char>> {
    first_str(m, content_text_paths())
}

/// The id of the message an update belongs to.
pub open spec fn acp_message_id_of(m: Json) -> Seq<char> {
    text_or(first_str(m, message_id_paths()), "acp-message"@)
}

/// The ACP session id a message names.
pub open spec fn acp_session_id_of(m: Json) -> Option<Seq<char>> {
    first_str(m, session_id_paths())
}

fn acp_update_type(m: &JsonValue) -> (r: Option<&str>)
    ensures
        opt_str(r) == acp_update_type_of(m@),
{
    let paths: [&[&str]; 3] = [&["params", "update", "sessionUpdate"], &["params", "update", "type"], &["params", "sessionUpdate"]];
    let r = first_str_at(m, &paths);
    proof {
        assert(paths_view(paths@) =~~= update_type_paths());
    }
    r
}

fn acp_content_text(m: &JsonValue) -> (r: Option<&str>)
    ensures
        opt_str(r) == acp_content_text_of(m@),
{
    let paths: [&[&str]; 6] = [
        &["params", "update", "content", "text"],
        &["params", "update", "content"],
        &["params", "content", "text"],
        &["params", "content"],
        &["result", "content", "text"],
        &["result", "message", "text"],
    ];
    let r = first_str_at(m, &paths);
    proof {
        assert(paths_view(paths@) =~~= content_text_paths());
    }
    r
}

fn acp_message_id(m: &JsonValue) -> (r: String)
    ensures
        r@ == acp_message_id_of(m@),
{
    let paths: [&[&str]; 4] = [
        &["params", "update", "messageId"],
        &["params", "update", "id"],
        &["params", "messageId"],
        &["params", "sessionId"],
    ];
    let r = first_str_at(m, &paths);
    proof {
        assert(paths_view(paths@) =~~= message_id_paths());
    }
    match r {
        Some(s) => owned(s),
        None => owned("acp-message"),
    }
}

/// The ACP session id a message names: the result's, the params', or a top-level one.
pub fn acp_session_id(m: &JsonValue) -> (r: Option<&str>)
    ensures
        opt_str(r) == acp_session_id_of(m@),
{
    let paths: [&[&str]; 3] = [&["result", "sessionId"], &["params", "sessionId"], &["sessionId"]];
    let r = first_str_at(m, &paths);
    proof {
        assert(paths_view(paths@) =~~= session_id_paths());
    }
    r
}

/// Whether a message answers the request with id `request_id`: it has that id and a
/// result or an error.
pub open spec fn is_response_to_spec(m: Json, request_id: Json) -> bool {
    json_get(m, "id"@) == Some(request_id) && (json_get(m, "result"@) is Some || json_get(m, "error"@) is Some)
}

/// Whether `m` is the response to the request with id `request_id`.
pub fn is_response_to(m: &JsonValue, request_id: &JsonValue) -> (r: bool)
    ensures
        r == is_response_to_spec(m@, request_id@),
{
    let same_id = match get(m, "id") {
        Some(id) => json_eq(id, request_id),
        None => false,
    };
    same_id && (get(m, "result").is_some() || get(m, "error").is_some())
}

fn own_opt(o: Option<&str>) -> (r: Option<String>)
    ensures
        crate::events::opt_s(r) == opt_str(o),
{
    match o {
        Some(s) => Some(owned(s)),
        None => None,
    }
}

fn clone_opt(o: Option<&JsonValue>) -> (r: Option<JsonValue>)
    ensures
        crate::events::opt_j(r) == opt_json(o),
{
    match o {
        Some(v) => Some(json_clone(v)),
        None => None,
    }
}

// ---------------------------------------------------------------------------
// Tools and plans
// ---------------------------------------------------------------------------

pub open spec fn tool_call_id_paths() -> Seq<Seq<Seq<char>>> {
    seq![
        seq!["params"@, "update"@, "toolCallId"@],
        seq!["params"@, "update"@, "id"@],
        seq!["params"@, "update"@, "toolCall"@, "toolCallId"@],
    ]
}

pub open spec fn tool_name_paths() -> Seq<Seq<Seq<char>>> {
    seq![seq!["params"@, "update"@, "name"@], seq!["params"@, "update"@, "toolCall"@, "name"@], seq!["params"@, "update"@, "kind"@]]
}

pub open spec fn tool_title_paths() -> Seq<Seq<Seq<char>>> {
    seq![seq!["params"@, "update"@, "title"@], seq!["params"@, "update"@, "toolCall"@, "title"@]]
}

/// The fields of the tool event an update describes.
pub struct ToolView {
    pub tool_call_id: Seq<char>,
    pub name: Seq<char>,
    pub title: Option<Seq<char>>,
    pub input: Option<Json>,
    pub output: Option<Json>,
}

pub open spec fn tool_of(m: Json) -> ToolView {
    ToolView {
        tool_call_id: text_or(first_str(m, tool_call_id_paths()), "acp-tool"@),
        name: text_or(first_str(m, tool_name_paths()), "tool"@),
        title: first_str(m, tool_title_paths()),
        input: json_path(m, seq!["params"@, "update"@, "input"@]),
        output: json_path(m, seq!["params"@, "update"@, "output"@]),
    }
}

fn tool_event(sid: SessionId, m: &JsonValue) -> (r: ToolEvent)
    ensures
        r.session_id == sid,
        r.tool_call_id@ == tool_of(m@).tool_call_id,
        r.name@ == tool_of(m@).name,
        crate::events::opt_s(r.title) == tool_of(m@).title,
        crate::events::opt_j(r.input) == tool_of(m@).input,
        crate::events::opt_j(r.output) == tool_of(m@).output,
        crate::events::opt_j(r.provider_payload) == Some(m@),
{
    let id_paths: [&[&str]; 3] = [
        &["params", "update", "toolCallId"],
        &["params", "update", "id"],
        &["params", "update", "toolCall", "toolCallId"],
    ];
    let name_paths: [&[&str]; 3] = [&["params", "update", "name"], &["params", "update", "toolCall", "name"], &["params", "update", "kind"]];
    let title_paths: [&[&str]; 2] = [&["params", "update", "title"], &["params", "update", "toolCall", "title"]];
    let input_path: [&str; 3] = ["params", "update", "input"];
    let output_path: [&str; 3] = ["params", "update", "output"];
    let id = first_str_at(m, &id_paths);
    let name = first_str_at(m, &name_paths);
    let title = first_str_at(m, &title_paths);
    let input = at(m, &input_path);
    let output = at(m, &output_path);
    proof {
        assert(paths_view(id_paths@) =~~= tool_call_id_paths());
        assert(paths_view(name_paths@) =~~= tool_name_paths());
        assert(paths_view(title_paths@) =~~= tool_title_paths());
        assert(path_view(input_path@) =~= seq!["params"@, "update"@, "input"@]);
        assert(path_view(output_path@) =~= seq!["params"@, "update"@, "output"@]);
    }
    ToolEvent {
        session_id: sid,
        tool_call_id: match id {
            Some(s) => owned(s),
            None => owned("acp-tool"),
        },
        name: match name {
            Some(s) => owned(s),
            None => owned("tool"),
        },
        title: own_opt(title),
        input: clone_opt(input),
        output: clone_opt(output),
        provider_payload: Some(json_clone(m)),
    }
}

/// The status of an ACP plan entry from its status word (`pending` when it has none).
pub open spec fn acp_plan_status_of(s: Seq<char>) -> PlanEntryStatus {
    if s == "in_progress"@ || s == "running"@ {
        PlanEntryStatus::InProgress
    } else if s == "completed"@ || s == "complete"@ || s == "done"@ {
        PlanEntryStatus::Completed
    } else if s == "failed"@ || s == "error"@ {
        PlanEntryStatus::Failed
    } else if s == "cancelled"@ || s == "canceled"@ {
        PlanEntryStatus::Cancelled
    } else {
        PlanEntryStatus::Pending
    }
}

pub open spec fn entry_label_paths() -> Seq<Seq<Seq<char>>> {
    seq![seq!["label"@], seq!["title"@], seq!["content"@]]
}

/// The plan entry a plan element describes, when it has a label.
pub open spec fn acp_plan_entry_of(entry: Json) -> Option<PlanEntryView> {
    match first_str(entry, entry_label_paths()) {
        Some(label) => Some(
            PlanEntryView {
                label,
                status: acp_plan_status_of(text_or(first_str(entry, seq![seq!["status"@]]), "pending"@)),
            },
        ),
        None => None,
    }
}

/// The entries of the labelled plan elements, in order.
pub open spec fn acp_plan_entries_from(a: Seq<Json>) -> Seq<PlanEntryView>
    decreases a.len(),
{
    if a.len() == 0 {
        Seq::empty()
    } else {
        let init = acp_plan_entries_from(a.drop_last());
        match acp_plan_entry_of(a.last()) {
            Some(e) => init.push(e),
            None => init,
        }
    }
}

/// The plan elements of an update: its `entries`, or else its `steps`, when that is an
/// array.
pub open spec fn acp_plan_elements(m: Json) -> Seq<Json> {
    let found = match json_path(m, seq!["params"@, "update"@, "entries"@]) {
        Some(v) => Some(v),
        None => json_path(m, seq!["params"@, "update"@, "steps"@]),
    };
    match found {
        Some(v) => match json_as_array(v) {
            Some(a) => a,
            None => Seq::empty(),
        },
        None => Seq::empty(),
    }
}

pub open spec fn acp_plan_entries_of(m: Json) -> Seq<PlanEntryView> {
    acp_plan_entries_from(acp_plan_elements(m))
}

fn acp_plan_status(s: Option<&str>) -> (r: PlanEntryStatus)
    ensures
        r == acp_plan_status_of(text_or(opt_str(s), "pending"@)),
{
    let s = match s {
        Some(s) => s,
        None => "pending",
    };
    if str_eq(s, "in_progress") || str_eq(s, "running") {
        PlanEntryStatus::InProgress
    } else if str_eq(s, "completed") || str_eq(s, "complete") || str_eq(s, "done") {
        PlanEntryStatus::Completed
    } else if str_eq(s, "failed") || str_eq(s, "error") {
        PlanEntryStatus::Failed
    } else if str_eq(s, "cancelled") || str_eq(s, "canceled") {
        PlanEntryStatus::Cancelled
    } else {
        PlanEntryStatus::Pending
    }
}

fn acp_plan_entry(entry: &JsonValue) -> (r: Option<PlanEntry>)
    ensures
        match r {
            Some(e) => acp_plan_entry_of(entry@) == Some(PlanEntryView { label: e.label@, status: e.status }),
            None => acp_plan_entry_of(entry@) is None,
        },
{
    let label_paths: [&[&str]; 3] = [&["label"], &["title"], &["content"]];
    let status_paths: [&[&str]; 1] = [&["status"]];
    let label = first_str_at(entry, &label_paths);
    let status = first_str_at(entry, &status_paths);
    proof {
        assert(paths_view(label_paths@) =~~= entry_label_paths());
        assert(paths_view(status_paths@) =~~= seq![seq!["status"@]]);
    }
    match label {
        Some(l) => Some(PlanEntry { label: owned(l), status: acp_plan_status(status) }),
        None => None,
    }
}

fn acp_plan_entries(m: &JsonValue) -> (r: Vec<PlanEntry>)
    ensures
        plan_entries_view(r@) == acp_plan_entries_of(m@),
{
    let entries_path: [&str; 3] = ["params", "update", "entries"];
    let steps_path: [&str; 3] = ["params", "update", "steps"];
    proof {
        assert(path_view(entries_path@) =~= seq!["params"@, "update"@, "entries"@]);
        assert(path_view(steps_path@) =~= seq!["params"@, "update"@, "steps"@]);
    }
    let found = match at(m, &entries_path) {
        Some(v) => Some(v),
        None => at(m, &steps_path),
    };
    let mut out: Vec<PlanEntry> = Vec::new();
    let items = match found {
        Some(v) => match as_array(v) {
            Some(a) => a,
            None => {
                proof {
                    assert(plan_entries_view(out@) =~= Seq::<PlanEntryView>::empty());
                }
                return out;
            },
        },
        None => {
            proof {
                assert(plan_entries_view(out@) =~= Seq::<PlanEntryView>::empty());
            }
            return out;
        },
    };
    let ghost a = values_view(items@);
    let mut i: usize = 0;
    proof {
        assert(a.subrange(0, 0) =~= Seq::<Json>::empty());
        assert(plan_entries_view(out@) =~= Seq::<PlanEntryView>::empty());
    }
    while i < items.len()
        invariant
            a == values_view(items@),
            a == acp_plan_elements(m@),
            i <= items.len(),
            plan_entries_view(out@) == acp_plan_entries_from(a.subrange(0, i as int)),
        decreases items.len() - i,
    {
        let ghost before = out@;
        assert(a.subrange(0, i + 1).drop_last() =~= a.subrange(0, i as int));
        assert(a.subrange(0, i + 1).last() == items@[i as int]@);
        match acp_plan_entry(&items[i]) {
            Some(e) => {
                out.push(e);
                proof {
                    assert(plan_entries_view(out@) =~= plan_entries_view(before).push(
                        PlanEntryView { label: out@[out@.len() - 1].label@, status: out@[out@.len() - 1].status },
                    ));
                }
            },
            None => {},
        }
        i = i + 1;
    }
    proof {
        assert(a.subrange(0, a.len() as int) =~= a);
    }
    out
}

// ---------------------------------------------------------------------------
// Notifications
// ---------------------------------------------------------------------------

pub open spec fn event_id_paths() -> Seq<Seq<Seq<char>>> {
    seq![seq!["params"@, "update"@, "id"@], seq!["id"@]]
}

pub open spec fn event_title_paths() -> Seq<Seq<Seq<char>>> {
    seq![seq!["params"@, "update"@, "title"@], seq!["params"@, "title"@], seq!["method"@]]
}

pub open spec fn event_detail_paths() -> Seq<Seq<Seq<char>>> {
    seq![seq!["params"@, "update"@, "detail"@], seq!["params"@, "update"@, "message"@]]
}

pub open spec fn event_status_paths() -> Seq<Seq<Seq<char>>> {
    seq![seq!["params"@, "update"@, "status"@], seq!["params"@, "status"@]]
}

/// A provider event of category `category` for a message no other event describes.
pub open spec fn acp_provider_event_of(sid: SessionId, provider: Seq<char>, m: Json, category: Seq<char>) -> NotificationView {
    NotificationView {
        session_id: sid,
        provider_id: provider,
        event_id: first_str(m, event_id_paths()),
        method: text_or(jsonrpc_method_spec(m), "provider_event"@),
        category,
        title: text_or(first_str(m, event_title_paths()), category),
        detail: first_str(m, event_detail_paths()),
        status: first_str(m, event_status_paths()),
        provider_payload: Some(m),
    }
}

fn provider_event(sid: SessionId, provider: &str, m: &JsonValue, category: &str) -> (r: NativeNotification)
    ensures
        r@ == acp_provider_event_of(sid, provider@, m@, category@),
{
    let id_paths: [&[&str]; 2] = [&["params", "update", "id"], &["id"]];
    let title_paths: [&[&str]; 3] = [&["params", "update", "title"], &["params", "title"], &["method"]];
    let detail_paths: [&[&str]; 2] = [&["params", "update", "detail"], &["params", "update", "message"]];
    let status_paths: [&[&str]; 2] = [&["params", "update", "status"], &["params", "status"]];
    let event_id = first_str_at(m, &id_paths);
    let title = first_str_at(m, &title_paths);
    let detail = first_str_at(m, &detail_paths);
    let status = first_str_at(m, &status_paths);
    proof {
        assert(paths_view(id_paths@) =~~= event_id_paths());
        assert(paths_view(title_paths@) =~~= event_title_paths());
        assert(paths_view(detail_paths@) =~~= event_detail_paths());
        assert(paths_view(status_paths@) =~~= event_status_paths());
    }
    NativeNotification {
        session_id: sid,
        provider_id: owned(provider),
        event_id: own_opt(event_id),
        method: match jsonrpc_method(m) {
            Some(s) => owned(s),
            None => owned("provider_event"),
        },
        category: owned(category),
        title: match title {
            Some(s) => owned(s),
            None => owned(category),
        },
        detail: own_opt(detail),
        status: own_opt(status),
        provider_payload: Some(json_clone(m)),
    }
}

pub open spec fn plan_id_paths() -> Seq<Seq<Seq<char>>> {
    seq![seq!["params"@, "update"@, "planId"@], seq!["params"@, "update"@, "id"@]]
}

pub open spec fn plan_content_paths() -> Seq<Seq<Seq<char>>> {
    seq![seq!["params"@, "update"@, "content"@], seq!["params"@, "update"@, "text"@]]
}

pub open spec fn plan_partial_paths() -> Seq<Seq<Seq<char>>> {
    seq![seq!["params"@, "update"@, "partial"@], seq!["params"@, "update"@, "isPartial"@]]
}

pub open spec fn error_code_paths() -> Seq<Seq<Seq<char>>> {
    seq![seq!["params"@, "update"@, "code"@], seq!["params"@, "code"@]]
}

pub open spec fn error_message_paths() -> Seq<Seq<Seq<char>>> {
    seq![seq!["params"@, "update"@, "message"@], seq!["params"@, "message"@]]
}

pub open spec fn tool_view_event(sid: SessionId, m: Json, updated: bool) -> EventView {
    let t = tool_of(m);
    if updated {
        EventView::ToolUpdated {
            session_id: sid,
            tool_call_id: t.tool_call_id,
            name: t.name,
            title: t.title,
            input: t.input,
            output: t.output,
            provider_payload: Some(m),
        }
    } else {
        EventView::ToolStarted {
            session_id: sid,
            tool_call_id: t.tool_call_id,
            name: t.name,
            title: t.title,
            input: t.input,
            output: t.output,
            provider_payload: Some(m),
        }
    }
}

/// The runner events of an ACP message: nothing unless it is a `session/update`; then
/// by the kind of update (`session_update` when it names none) a message delta (when
/// it carries text), a completed message, a plan, a started or updated tool call, an
/// error, or else a provider event of that kind.
pub open spec fn normalize_acp_message_of(sid: SessionId, provider: Seq<char>, m: Json) -> Seq<EventView> {
    if jsonrpc_method_spec(m) != Some("session/update"@) {
        Seq::empty()
    } else {
        let t = text_or(acp_update_type_of(m), "session_update"@);
        if t == "agent_message_chunk"@ || t == "agent_message_delta"@ {
            match acp_content_text_of(m) {
                Some(delta) => seq![
                    EventView::AgentMessageDelta {
                        session_id: sid,
                        message_id: acp_message_id_of(m),
                        delta,
                        provider_payload: Some(m),
                    },
                ],
                None => Seq::empty(),
            }
        } else if t == "agent_message"@ || t == "agent_message_complete"@ || t == "complete"@ || t == "done"@ {
            seq![
                EventView::AgentMessageCompleted {
                    session_id: sid,
                    message_id: acp_message_id_of(m),
                    content: acp_content_text_of(m),
                    provider_payload: Some(m),
                },
            ]
        } else if t == "plan"@ || t == "plan_update"@ {
            seq![
                EventView::PlanUpdated {
                    session_id: sid,
                    plan_id: first_str(m, plan_id_paths()),
                    title: first_str(m, seq![seq!["params"@, "update"@, "title"@]]),
                    content: first_str(m, plan_content_paths()),
                    entries: acp_plan_entries_of(m),
                    append: match first_bool(m, plan_partial_paths()) {
                        Some(b) => b,
                        None => false,
                    },
                    provider_payload: Some(m),
                },
            ]
        } else if t == "tool_call"@ {
            seq![tool_view_event(sid, m, false)]
        } else if t == "tool_call_update"@ {
            seq![tool_view_event(sid, m, true)]
        } else if t == "error"@ {
            seq![
                EventView::Error {
                    session_id: Some(sid),
                    code: first_str(m, error_code_paths()),
                    message: text_or(first_str(m, error_message_paths()), "ACP provider reported an error"@),
                    provider_payload: Some(m),
                },
            ]
        } else {
            seq![EventView::ProviderEvent(acp_provider_event_of(sid, provider, m, t))]
        }
    }
}

fn one(e: NormalizedEvent) -> (r: Vec<NormalizedEvent>)
    ensures
        r@.len() == 1,
        r@[0] == e,
{
    let mut v = Vec::new();
    v.push(e);
    v
}

pub open spec fn events_view(v: Seq<NormalizedEvent>) -> Seq<EventView> {
    v.map_values(|e: NormalizedEvent| e@)
}

/// The runner events of an ACP message from provider `provider_id` in session
/// `session_id`.
pub fn normalize_acp_message(session_id: SessionId, provider_id: &str, message: &JsonValue) -> (r: Vec<
    NormalizedEvent,
>)
    ensures
        events_view(r@) == normalize_acp_message_of(session_id, provider_id@, message@),
{
    let m = message;
    let sid = session_id;
    let is_update = match jsonrpc_method(m) {
        Some(method) => str_eq(method, "session/update"),
        None => false,
    };
    if !is_update {
        let r: Vec<NormalizedEvent> = Vec::new();
        proof {
            assert(events_view(r@) =~= Seq::<EventView>::empty());
        }
        return r;
    }
    let t = match acp_update_type(m) {
        Some(t) => t,
        None => "session_update",
    };
    let r = if str_eq(t, "agent_message_chunk") || str_eq(t, "agent_message_delta") {
        match acp_content_text(m) {
            Some(delta) => one(
                NormalizedEvent::AgentMessageDelta(
                    AgentMessageDeltaEvent {
                        session_id: sid,
                        message_id: acp_message_id(m),
                        delta: owned(delta),
                        provider_payload: Some(json_clone(m)),
                    },
                ),
            ),
            None => Vec::new(),
        }
    } else if str_eq(t, "agent_message") || str_eq(t, "agent_message_complete") || str_eq(t, "complete") || str_eq(
        t,
        "done",
    ) {
        one(
            NormalizedEvent::AgentMessageCompleted(
                MessageCompletedEvent {
                    session_id: sid,
                    message_id: acp_message_id(m),
                    content: own_opt(acp_content_text(m)),
                    provider_payload: Some(json_clone(m)),
                },
            ),
        )
    } else if str_eq(t, "plan") || str_eq(t, "plan_update") {
        let id_paths: [&[&str]; 2] = [&["params", "update", "planId"], &["params", "update", "id"]];
        let title_paths: [&[&str]; 1] = [&["params", "update", "title"]];
        let content_paths: [&[&str]; 2] = [&["params", "update", "content"], &["params", "update", "text"]];
        let partial_paths: [&[&str]; 2] = [&["params", "update", "partial"], &["params", "update", "isPartial"]];
        proof {
            assert(paths_view(id_paths@) =~~= plan_id_paths());
            assert(paths_view(title_paths@) =~~= seq![seq!["params"@, "update"@, "title"@]]);
            assert(paths_view(content_paths@) =~~= plan_content_paths());
            assert(paths_view(partial_paths@) =~~= plan_partial_paths());
        }
        one(
            NormalizedEvent::PlanUpdated(
                PlanEvent {
                    session_id: sid,
                    plan_id: own_opt(first_str_at(m, &id_paths)),
                    title: own_opt(first_str_at(m, &title_paths)),
                    content: own_opt(first_str_at(m, &content_paths)),
                    entries: acp_plan_entries(m),
                    append: match first_bool_at(m, &partial_paths) {
                        Some(b) => b,
                        None => false,
                    },
                    provider_payload: Some(json_clone(m)),
                },
            ),
        )
    } else if str_eq(t, "tool_call") {
        one(NormalizedEvent::ToolStarted(tool_event(sid, m)))
    } else if str_eq(t, "tool_call_update") {
        one(NormalizedEvent::ToolUpdated(tool_event(sid, m)))
    } else if str_eq(t, "error") {
        let code_paths: [&[&str]; 2] = [&["params", "update", "code"], &["params", "code"]];
        let message_paths: [&[&str]; 2] = [&["params", "update", "message"], &["params", "message"]];
        proof {
            assert(paths_view(code_paths@) =~~= error_code_paths());
            assert(paths_view(message_paths@) =~~= error_message_paths());
        }
        one(
            NormalizedEvent::Error(
                AgentErrorEvent {
                    session_id: Some(sid),
                    code: own_opt(first_str_at(m, &code_paths)),
                    message: match first_str_at(m, &message_paths) {
                        Some(s) => owned(s),
                        None => owned("ACP provider reported an error"),
                    },
                    provider_payload: Some(json_clone(m)),
                },
            ),
        )
    } else {
        one(NormalizedEvent::ProviderEvent(provider_event(sid, provider_id, m, t)))
    };
    proof {
        if r@.len() == 1 {
            assert(events_view(r@) =~= seq![r@[0]@]);
        } else {
            assert(events_view(r@) =~= Seq::<EventView>::empty());
        }
    }
    r
}

// ---------------------------------------------------------------------------
// Prompt responses
// ---------------------------------------------------------------------------

pub open spec fn prompt_message_id_paths() -> Seq<Seq<Seq<char>>> {
    seq![seq!["result"@, "messageId"@], seq!["result"@, "sessionId"@], seq!["result"@, "turnId"@], seq!["id"@]]
}

pub open spec fn prompt_content_paths() -> Seq<Seq<Seq<char>>> {
    seq![seq!["result"@, "content"@], seq!["result"@, "message"@]]
}

/// The completed message a `session/prompt` response stands for.
pub open spec fn acp_prompt_response_of(sid: SessionId, m: Json) -> EventView {
    EventView::AgentMessageCompleted {
        session_id: sid,
        message_id: text_or(first_str(m, prompt_message_id_paths()), "acp-prompt"@),
        content: match acp_content_text_of(m) {
            Some(s) => Some(s),
            None => first_str(m, prompt_content_paths()),
        },
        provider_payload: Some(m),
    }
}

/// The completed message of the response to a `session/prompt` request.
pub fn normalize_acp_prompt_response(session_id: SessionId, message: &JsonValue) -> (r: NormalizedEvent)
    ensures
        r@ == acp_prompt_response_of(session_id, message@),
{
    let id_paths: [&[&str]; 4] = [&["result", "messageId"], &["result", "sessionId"], &["result", "turnId"], &["id"]];
    let content_paths: [&[&str]; 2] = [&["result", "content"], &["result", "message"]];
    proof {
        assert(paths_view(id_paths@) =~~= prompt_message_id_paths());
        assert(paths_view(content_paths@) =~~= prompt_content_paths());
    }
    let content = match acp_content_text(message) {
        Some(s) => Some(owned(s)),
        None => own_opt(first_str_at(message, &content_paths)),
    };
    NormalizedEvent::AgentMessageCompleted(
        MessageCompletedEvent {
            session_id,
            message_id: match first_str_at(message, &id_paths) {
                Some(s) => owned(s),
                None => owned("acp-prompt"),
            },
            content,
            provider_payload: Some(json_clone(message)),
        },
    )
}

// ---------------------------------------------------------------------------
// Permission requests
// ---------------------------------------------------------------------------

/// `value.pointer(".../0")` one step: the member `0` of an object, or an array's first
/// element.
pub open spec fn json_first(v: Json) -> Option<Json> {
    match v {
        Json::Object(e) => entries_get(e, "0"@),
        Json::Array(a) => if a.len() > 0 {
            Some(a[0])
        } else {
            None
        },
        _ => None,
    }
}

/// The text of the first content block under `base`.
pub open spec fn first_block_text(m: Json, base: Seq<Seq<char>>) -> Option<Seq<char>> {
    match json_path(m, base) {
        Some(c) => match json_first(c) {
            Some(block) => match json_get(block, "text"@) {
                Some(t) => json_as_str(t),
                None => None,
            },
            None => None,
        },
        None => None,
    }
}

pub open spec fn permission_title_paths() -> Seq<Seq<Seq<char>>> {
    seq![
        seq!["params"@, "toolCall"@, "title"@],
        seq!["params"@, "toolCall"@, "name"@],
        seq!["params"@, "title"@],
        seq!["params"@, "name"@],
    ]
}

/// The details of a permission request: the first content text of its tool call or of
/// its params, its description, or else the params as JSON text.
pub open spec fn permission_details_of(m: Json) -> Seq<char> {
    match first_block_text(m, seq!["params"@, "toolCall"@, "content"@]) {
        Some(s) => s,
        None => match first_block_text(m, seq!["params"@, "content"@]) {
            Some(s) => s,
            None => match first_str(m, seq![seq!["params"@, "description"@]]) {
                Some(s) => s,
                None => json_text(
                    match json_get(m, "params"@) {
                        Some(p) => p,
                        None => Json::Null,
                    },
                ),
            },
        },
    }
}

/// The approval a `session/request_permission` request asks for, under the id
/// `approval_id`; nothing for any other message.
pub open spec fn acp_permission_event_of(sid: SessionId, provider: Seq<char>, m: Json, approval_id: u128) -> Option<
    EventView,
> {
    if jsonrpc_method_spec(m) != Some("session/request_permission"@) {
        None
    } else {
        let details = permission_details_of(m);
        Some(
            EventView::ApprovalRequested {
                session_id: sid,
                approval_id,
                kind: ApprovalKind::ProviderSpecific,
                title: text_or(first_str(m, permission_title_paths()), "Approve ACP permission"@),
                details: Some(details),
                presentation: Some(
                    Json::Object(
                        seq![
                            (
                                "options"@,
                                match json_path(m, seq!["params"@, "options"@]) {
                                    Some(o) => o,
                                    None => Json::Null,
                                },
                            ),
                            ("provider_id"@, Json::Str(provider)),
                        ],
                    ),
                ),
                subject: Some(details),
                native_request_id: match json_get(m, "id"@) {
                    Some(id) => Some(json_text(id)),
                    None => None,
                },
                native_blocking: true,
                options: canonical_defaults_view(),
                provider_payload: Some(m),
            },
        )
    }
}

fn first_block_text_at<'a>(m: &'a JsonValue, base: &[&str]) -> (r: Option<&'a str>)
    ensures
        opt_str(r) == first_block_text(m@, path_view(base@)),
{
    let c = match at(m, base) {
        Some(c) => c,
        None => return None,
    };
    let block = match c {
        JsonValue::Object(_) => match get(c, "0") {
            Some(b) => b,
            None => return None,
        },
        JsonValue::Array(a) => {
            if a.len() == 0 {
                return None;
            }
            proof {
                assert(values_view(a@)[0] == a@[0]@);
            }
            &a[0]
        },
        _ => return None,
    };
    match get(block, "text") {
        Some(t) => as_str(t),
        None => None,
    }
}

fn permission_details(m: &JsonValue) -> (r: String)
    ensures
        r@ == permission_details_of(m@),
{
    let tool_content: [&str; 3] = ["params", "toolCall", "content"];
    let content: [&str; 2] = ["params", "content"];
    let description: [&[&str]; 1] = [&["params", "description"]];
    proof {
        assert(path_view(tool_content@) =~= seq!["params"@, "toolCall"@, "content"@]);
        assert(path_view(content@) =~= seq!["params"@, "content"@]);
        assert(paths_view(description@) =~~= seq![seq!["params"@, "description"@]]);
    }
    match first_block_text_at(m, &tool_content) {
        Some(s) => owned(s),
        None => match first_block_text_at(m, &content) {
            Some(s) => owned(s),
            None => match first_str_at(m, &description) {
                Some(s) => owned(s),
                None => match get(m, "params") {
                    Some(p) => json_to_text(p),
                    None => json_to_text(&JsonValue::Null),
                },
            },
        },
    }
}

/// The approval event of a `session/request_permission` request, under the id
/// `approval_id`; nothing for any other message.
pub fn acp_permission_event(session_id: SessionId, provider_id: &str, message: &JsonValue, approval_id: u128) -> (r:
    Option<NormalizedEvent>)
    ensures
        match r {
            Some(e) => acp_permission_event_of(session_id, provider_id@, message@, approval_id) == Some(e@),
            None => acp_permission_event_of(session_id, provider_id@, message@, approval_id) is None,
        },
{
    let m = message;
    let is_permission = match jsonrpc_method(m) {
        Some(method) => str_eq(method, "session/request_permission"),
        None => false,
    };
    if !is_permission {
        return None;
    }
    let title_paths: [&[&str]; 4] = [
        &["params", "toolCall", "title"],
        &["params", "toolCall", "name"],
        &["params", "title"],
        &["params", "name"],
    ];
    let options_path: [&str; 2] = ["params", "options"];
    proof {
        assert(paths_view(title_paths@) =~~= permission_title_paths());
        assert(path_view(options_path@) =~= seq!["params"@, "options"@]);
    }
    let title = match first_str_at(m, &title_paths) {
        Some(s) => owned(s),
        None => owned("Approve ACP permission"),
    };
    let details = permission_details(m);
    let subject = owned(details.as_str());
    let options = match at(m, &options_path) {
        Some(o) => json_clone(o),
        None => JsonValue::Null,
    };
    let presentation = obj2("options", options, "provider_id", JsonValue::Str(owned(provider_id)));
    let native_request_id = match get(m, "id") {
        Some(id) => Some(json_to_text(id)),
        None => None,
    };
    let opts = ApprovalOption::canonical_defaults();
    let e = NormalizedEvent::ApprovalRequested(
        ApprovalRequestEvent {
            session_id,
            approval_id,
            kind: ApprovalKind::ProviderSpecific,
            title,
            details: Some(details),
            presentation: Some(presentation),
            subject: Some(subject),
            native_request_id,
            native_blocking: true,
            options: opts,
            provider_payload: Some(json_clone(m)),
        },
    );
    proof {
        let ghost x = acp_permission_event_of(session_id, provider_id@, message@, approval_id).unwrap();
        assert(x->ApprovalRequested_presentation.unwrap()->Object_0 =~= presentation@->Object_0);
    }
    Some(e)
}

/// The approval a `session/request_permission` request asks for, under a fresh random
/// approval id; nothing for any other message. Whatever id the random source gives,
/// the event is the one `acp_permission_event` makes under it.
pub fn normalize_acp_permission_request(session_id: SessionId, provider_id: &str, message: &JsonValue) -> (r:
    Option<(u128, NormalizedEvent)>)
    ensures
        match r {
            Some((id, e)) => acp_permission_event_of(session_id, provider_id@, message@, id) == Some(e@),
            None => jsonrpc_method_spec(message@) != Some("session/request_permission"@),
        },
{
    let is_permission = match jsonrpc_method(message) {
        Some(method) => str_eq(method, "session/request_permission"),
        None => false,
    };
    if !is_permission {
        return None;
    }
    let approval_id = new_v4();
    match acp_permission_event(session_id, provider_id, message, approval_id) {
        Some(e) => Some((approval_id, e)),
        None => None,
    }
}


// ---------------------------------------------------------------------------
// Laws
// ---------------------------------------------------------------------------

/// A `session/update` of a kind the runner has no event for stays visible: it becomes
/// exactly one provider event, categorised by that kind.
pub proof fn law_unknown_acp_updates_become_provider_events(sid: SessionId, provider: Seq<char>, m: Json)
    requires
        jsonrpc_method_spec(m) == Some("session/update"@),
        ({
            let t = text_or(acp_update_type_of(m), "session_update"@);
            &&& t != "agent_message_chunk"@
            &&& t != "agent_message_delta"@
            &&& t != "agent_message"@
            &&& t != "agent_message_complete"@
            &&& t != "complete"@
            &&& t != "done"@
            &&& t != "plan"@
            &&& t != "plan_update"@
            &&& t != "tool_call"@
            &&& t != "tool_call_update"@
            &&& t != "error"@
        }),
    ensures
        normalize_acp_message_of(sid, provider, m).len() == 1,
        normalize_acp_message_of(sid, provider, m)[0] matches EventView::ProviderEvent(n) && n.category == text_or(
            acp_update_type_of(m),
            "session_update"@,
        ) && n.provider_id == provider && n.provider_payload == Some(m),
{
}

/// Every ACP permission the runner asks the user about offers the canonical choices,
/// among them cancelling the turn.
pub proof fn law_acp_permissions_offer_cancel_turn(sid: SessionId, provider: Seq<char>, m: Json, approval_id: u128)
    requires
        acp_permission_event_of(sid, provider, m, approval_id) is Some,
    ensures
        acp_permission_event_of(sid, provider, m, approval_id).unwrap() matches EventView::ApprovalRequested {
            options,
            native_blocking,
            ..
        } && native_blocking && exists|i: int| 0 <= i < options.len() && #[trigger] options[i].option_id == "cancel_turn"@,
{
    let e = acp_permission_event_of(sid, provider, m, approval_id).unwrap();
    assert(e->ApprovalRequested_options == canonical_defaults_view());
    assert(e->ApprovalRequested_options[3].option_id == "cancel_turn"@);
}

} // verus!

verus! {

proof fn lemma_status_path(entry: Json)
    ensures
        json_path(entry, seq!["status"@]) == json_get(entry, "status"@),
{
    let p = seq!["status"@];
    assert(p[0] == "status"@);
    assert(p.drop_first() =~= Seq::<Seq<char>>::empty());
    match json_get(entry, "status"@) {
        Some(c) => {
            assert(json_path(c, p.drop_first()) == Some(c));
        },
        None => {},
    }
}

/// A plan element with the given label and status word.
pub open spec fn entry_with_status(entry: Json, label: Seq<char>, word: Seq<char>) -> bool {
    &&& first_str(entry, seq![seq!["label"@], seq!["title"@], seq!["content"@]]) == Some(label)
    &&& json_get(entry, "status"@) == Some(Json::Str(word))
}

/// A labelled ACP plan entry keeps its label, and its status word decides its status:
/// `in_progress` (ACP's own word) or `running` is in progress; `completed`, `complete`
/// or `done` is completed; `failed` or `error` is failed; `cancelled` or `canceled` is
/// cancelled; `pending` is pending.
pub proof fn law_acp_plan_status_words(entry: Json, label: Seq<char>, word: Seq<char>)
    requires
        entry_with_status(entry, label, word),
    ensures
        (word == "in_progress"@ || word == "running"@) ==> acp_plan_entry_of(entry) == Some(
            PlanEntryView { label, status: PlanEntryStatus::InProgress },
        ),
        (word == "completed"@ || word == "complete"@ || word == "done"@) ==> acp_plan_entry_of(entry) == Some(
            PlanEntryView { label, status: PlanEntryStatus::Completed },
        ),
        (word == "failed"@ || word == "error"@) ==> acp_plan_entry_of(entry) == Some(
            PlanEntryView { label, status: PlanEntryStatus::Failed },
        ),
        (word == "cancelled"@ || word == "canceled"@) ==> acp_plan_entry_of(entry) == Some(
            PlanEntryView { label, status: PlanEntryStatus::Cancelled },
        ),
        word == "pending"@ ==> acp_plan_entry_of(entry) == Some(PlanEntryView { label, status: PlanEntryStatus::Pending }),
{
    reveal_strlit("in_progress");
    reveal_strlit("running");
    reveal_strlit("completed");
    reveal_strlit("complete");
    reveal_strlit("done");
    reveal_strlit("failed");
    reveal_strlit("error");
    reveal_strlit("cancelled");
    reveal_strlit("canceled");
    reveal_strlit("pending");
    assert(entry_label_paths() == seq![seq!["label"@], seq!["title"@], seq!["content"@]]);
    lemma_status_path(entry);
    assert(first_str(entry, seq![seq!["status"@]]) == Some(word));
    let words = seq![
        "in_progress"@, "running"@, "completed"@, "complete"@, "done"@, "failed"@, "error"@, "cancelled"@,
        "canceled"@, "pending"@,
    ];
    assert(words[0].len() == 11 && words[1].len() == 7 && words[2].len() == 9 && words[3].len() == 8);
    assert(words[4].len() == 4 && words[5].len() == 6 && words[6].len() == 5 && words[7].len() == 9);
    assert(words[8].len() == 8 && words[9].len() == 7);
    assert(words[1][0] != words[9][0]);
    assert(words[2][1] != words[7][1]);
    assert(words[3][1] != words[8][1]);
}

/// An ACP plan entry that names no status is pending.
pub proof fn law_acp_plan_entries_default_to_pending(entry: Json, label: Seq<char>)
    requires
        first_str(entry, seq![seq!["label"@], seq!["title"@], seq!["content"@]]) == Some(label),
        json_get(entry, "status"@) is None,
    ensures
        acp_plan_entry_of(entry) == Some(PlanEntryView { label, status: PlanEntryStatus::Pending }),
{
    reveal_strlit("in_progress");
    reveal_strlit("running");
    reveal_strlit("completed");
    reveal_strlit("complete");
    reveal_strlit("done");
    reveal_strlit("failed");
    reveal_strlit("error");
    reveal_strlit("cancelled");
    reveal_strlit("canceled");
    reveal_strlit("pending");
    assert(entry_label_paths() == seq![seq!["label"@], seq!["title"@], seq!["content"@]]);
    lemma_status_path(entry);
    assert(first_str(entry, seq![seq!["status"@]]) is None) by {
        let ps = seq![seq!["status"@]];
        assert(ps[0] == seq!["status"@]);
        assert(ps.drop_first() =~= Seq::<Seq<Seq<char>>>::empty());
        assert(json_path(entry, ps[0]) is None);
        assert(first_str(entry, ps.drop_first()) is None);
    }
    assert("pending"@.len() == 7 && "in_progress"@.len() == 11 && "running"@.len() == 7);
    assert("pending"@[0] != "running"@[0]);
    assert("completed"@.len() == 9 && "complete"@.len() == 8 && "done"@.len() == 4);
    assert("failed"@.len() == 6 && "error"@.len() == 5 && "cancelled"@.len() == 9 && "canceled"@.len() == 8);
}

/// A labelled ACP plan entry whose status word is none of the known ones is pending.
pub proof fn law_acp_plan_unknown_status_words_are_pending(entry: Json, label: Seq<char>, word: Seq<char>)
    requires
        entry_with_status(entry, label, word),
        word != "in_progress"@ && word != "running"@ && word != "completed"@ && word != "complete"@ && word
            != "done"@ && word != "failed"@ && word != "error"@ && word != "cancelled"@ && word != "canceled"@,
    ensures
        acp_plan_entry_of(entry) == Some(PlanEntryView { label, status: PlanEntryStatus::Pending }),
{
    assert(entry_label_paths() == seq![seq!["label"@], seq!["title"@], seq!["content"@]]);
    lemma_status_path(entry);
    assert(first_str(entry, seq![seq!["status"@]]) == Some(word));
}

proof fn lemma_labelled_entries(a: Seq<Json>)
    requires
        forall|k: int| 0 <= k < a.len() ==> (#[trigger] acp_plan_entry_of(a[k])) is Some,
    ensures
        acp_plan_entries_from(a).len() == a.len(),
        forall|k: int| 0 <= k < a.len() ==> acp_plan_entries_from(a)[k] == (#[trigger] acp_plan_entry_of(a[k]))->Some_0,
    decreases a.len(),
{
    if a.len() > 0 {
        let init = a.drop_last();
        assert forall|k: int| 0 <= k < init.len() implies (#[trigger] acp_plan_entry_of(init[k])) is Some by {
            assert(init[k] == a[k]);
        }
        lemma_labelled_entries(init);
        assert(acp_plan_entry_of(a[a.len() - 1]) is Some);
        assert forall|k: int| 0 <= k < a.len() implies acp_plan_entries_from(a)[k] == (#[trigger] acp_plan_entry_of(
            a[k],
        ))->Some_0 by {
            if k < a.len() - 1 {
                assert(init[k] == a[k]);
            }
        }
    }
}

/// A plan update whose entries are all labelled is shown as exactly those entries, in
/// their order, each with the status its own word gives.
pub proof fn law_acp_plan_keeps_every_labelled_entry(m: Json, es: Seq<Json>)
    requires
        json_path(m, seq!["params"@, "update"@, "entries"@]) == Some(Json::Array(es)),
        forall|k: int| 0 <= k < es.len() ==> (#[trigger] acp_plan_entry_of(es[k])) is Some,
    ensures
        acp_plan_entries_of(m).len() == es.len(),
        forall|k: int| 0 <= k < es.len() ==> acp_plan_entries_of(m)[k] == (#[trigger] acp_plan_entry_of(es[k]))->Some_0,
{
    lemma_labelled_entries(es);
}

} // verus!

verus! {

/// An ACP message that is a `session/update` becomes the event its update kind names:
/// a streamed chunk a message delta with its text, a finished message a completed
/// message, a plan a plan update with the plan's entries, a tool call a started tool,
/// a tool call update an updated tool, an error an error; any other message gives
/// nothing.
pub proof fn law_acp_updates_become_the_events_they_name(sid: SessionId, provider: Seq<char>, m: Json, t: Seq<char>)
    ensures
        jsonrpc_method_spec(m) != Some("session/update"@) ==> normalize_acp_message_of(sid, provider, m).len() == 0,
        jsonrpc_method_spec(m) == Some("session/update"@) && acp_update_type_of(m) == Some(t) ==> {
            let out = normalize_acp_message_of(sid, provider, m);
            &&& (t == "agent_message_chunk"@ || t == "agent_message_delta"@) ==> (acp_content_text_of(m) matches Some(d)
                ==> out == seq![
                EventView::AgentMessageDelta {
                    session_id: sid,
                    message_id: acp_message_id_of(m),
                    delta: d,
                    provider_payload: Some(m),
                },
            ])
            &&& (t == "agent_message"@ || t == "agent_message_complete"@ || t == "complete"@ || t == "done"@) ==> (out.len()
                == 1 && out[0] is AgentMessageCompleted)
            &&& (t == "plan"@ || t == "plan_update"@) ==> (out.len() == 1 && (out[0] matches EventView::PlanUpdated {
                entries,
                ..
            } && entries == acp_plan_entries_of(m)))
            &&& t == "tool_call"@ ==> (out.len() == 1 && out[0] is ToolStarted)
            &&& t == "tool_call_update"@ ==> (out.len() == 1 && out[0] is ToolUpdated)
            &&& t == "error"@ ==> (out.len() == 1 && out[0] is Error)
        },
{
    reveal_strlit("agent_message_chunk");
    reveal_strlit("agent_message_delta");
    reveal_strlit("agent_message");
    reveal_strlit("agent_message_complete");
    reveal_strlit("complete");
    reveal_strlit("done");
    reveal_strlit("plan");
    reveal_strlit("plan_update");
    reveal_strlit("tool_call");
    reveal_strlit("tool_call_update");
    reveal_strlit("error");
    reveal_strlit("session/update");
    reveal_strlit("session_update");
    assert("agent_message_chunk"@[14] != "agent_message_delta"@[14]);
    assert("agent_message_chunk"@.len() != "agent_message"@.len());
    assert("agent_message_chunk"@.len() != "agent_message_complete"@.len());
    assert("agent_message_chunk"@.len() != "complete"@.len());
    assert("agent_message_chunk"@.len() != "done"@.len());
    assert("agent_message_chunk"@.len() != "plan"@.len());
    assert("agent_message_chunk"@.len() != "plan_update"@.len());
    assert("agent_message_chunk"@.len() != "tool_call"@.len());
    assert("agent_message_chunk"@.len() != "tool_call_update"@.len());
    assert("agent_message_chunk"@.len() != "error"@.len());
    assert("agent_message_chunk"@.len() != "session/update"@.len());
    assert("agent_message_chunk"@.len() != "session_update"@.len());
    assert("agent_message_delta"@.len() != "agent_message"@.len());
    assert("agent_message_delta"@.len() != "agent_message_complete"@.len());
    assert("agent_message_delta"@.len() != "complete"@.len());
    assert("agent_message_delta"@.len() != "done"@.len());
    assert("agent_message_delta"@.len() != "plan"@.len());
    assert("agent_message_delta"@.len() != "plan_update"@.len());
    assert("agent_message_delta"@.len() != "tool_call"@.len());
    assert("agent_message_delta"@.len() != "tool_call_update"@.len());
    assert("agent_message_delta"@.len() != "error"@.len());
    assert("agent_message_delta"@.len() != "session/update"@.len());
    assert("agent_message_delta"@.len() != "session_update"@.len());
    assert("agent_message"@.len() != "agent_message_complete"@.len());
    assert("agent_message"@.len() != "complete"@.len());
    assert("agent_message"@.len() != "done"@.len());
    assert("agent_message"@.len() != "plan"@.len());
    assert("agent_message"@.len() != "plan_update"@.len());
    assert("agent_message"@.len() != "tool_call"@.len());
    assert("agent_message"@.len() != "tool_call_update"@.len());
    assert("agent_message"@.len() != "error"@.len());
    assert("agent_message"@.len() != "session/update"@.len());
    assert("agent_message"@.len() != "session_update"@.len());
    assert("agent_message_complete"@.len() != "complete"@.len());
    assert("agent_message_complete"@.len() != "done"@.len());
    assert("agent_message_complete"@.len() != "plan"@.len());
    assert("agent_message_complete"@.len() != "plan_update"@.len());
    assert("agent_message_complete"@.len() != "tool_call"@.len());
    assert("agent_message_complete"@.len() != "tool_call_update"@.len());
    assert("agent_message_complete"@.len() != "error"@.len());
    assert("agent_message_complete"@.len() != "session/update"@.len());
    assert("agent_message_complete"@.len() != "session_update"@.len());
    assert("complete"@.len() != "done"@.len());
    assert("complete"@.len() != "plan"@.len());
    assert("complete"@.len() != "plan_update"@.len());
    assert("complete"@.len() != "tool_call"@.len());
    assert("complete"@.len() != "tool_call_update"@.len());
    assert("complete"@.len() != "error"@.len());
    assert("complete"@.len() != "session/update"@.len());
    assert("complete"@.len() != "session_update"@.len());
    assert("done"@[0] != "plan"@[0]);
    assert("done"@.len() != "plan_update"@.len());
    assert("done"@.len() != "tool_call"@.len());
    assert("done"@.len() != "tool_call_update"@.len());
    assert("done"@.len() != "error"@.len());
    assert("done"@.len() != "session/update"@.len());
    assert("done"@.len() != "session_update"@.len());
    assert("plan"@.len() != "plan_update"@.len());
    assert("plan"@.len() != "tool_call"@.len());
    assert("plan"@.len() != "tool_call_update"@.len());
    assert("plan"@.len() != "error"@.len());
    assert("plan"@.len() != "session/update"@.len());
    assert("plan"@.len() != "session_update"@.len());
    assert("plan_update"@.len() != "tool_call"@.len());
    assert("plan_update"@.len() != "tool_call_update"@.len());
    assert("plan_update"@.len() != "error"@.len());
    assert("plan_update"@.len() != "session/update"@.len());
    assert("plan_update"@.len() != "session_update"@.len());
    assert("tool_call"@.len() != "tool_call_update"@.len());
    assert("tool_call"@.len() != "error"@.len());
    assert("tool_call"@.len() != "session/update"@.len());
    assert("tool_call"@.len() != "session_update"@.len());
    assert("tool_call_update"@.len() != "error"@.len());
    assert("tool_call_update"@.len() != "session/update"@.len());
    assert("tool_call_update"@.len() != "session_update"@.len());
    assert("error"@.len() != "session/update"@.len());
    assert("error"@.len() != "session_update"@.len());
    assert("session/update"@[7] != "session_update"@[7]);
}

} // verus!
