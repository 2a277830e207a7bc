//! Normalization of Codex app-server messages into runner events.
use vstd::prelude::*;
use crate::json::{values_view, Json, JsonValue, first_str, first_i64, first_bool, json_path, json_get, json_as_str,
    json_as_array, opt_str, opt_json, get, as_str, as_array, json_clone};
use crate::message_paths::{
    accepted_at, accepted_paths, change_kind_at, change_kind_paths,
    command_at, command_id_field_at, command_id_field_paths, command_paths,
    compaction_id_at, compaction_id_paths, completed_content_at, completed_content_paths,
    context_window_at, context_window_paths, cwd_at, cwd_paths,
    delta_at, delta_paths, detail_at, detail_paths,
    duration_at, duration_paths, entry_label_at, entry_label_paths,
    entry_status_at, entry_status_paths, error_code_at, error_code_paths,
    error_message_at, error_message_paths, exit_code_at, exit_code_paths,
    explanation_at, explanation_paths, file_diff_at, file_diff_paths,
    file_path_at, file_path_paths, item_id_at, item_id_paths,
    item_type_at, item_type_paths, last_tokens_at, last_tokens_paths,
    limit_id_at, limit_id_paths, limit_reached_at, limit_reached_paths,
    message_id_at, message_id_paths, notification_event_id_at, notification_event_id_paths,
    output_delta_at, output_delta_paths, param_thread_id_at, param_thread_id_paths,
    plan_delta_content_at, plan_delta_content_paths, plan_delta_id_at, plan_delta_id_paths,
    plan_list_at, plan_list_paths, plan_type_at, plan_type_paths,
    primary_used_at, primary_used_paths, process_id_at, process_id_paths,
    raw_input_title_at, raw_input_title_paths, secondary_used_at, secondary_used_paths,
    source_at, source_paths, status_plain_at, status_plain_paths,
    status_type_at, status_type_paths, stream_at, stream_paths,
    success_at, success_paths, tool_input_at, tool_input_paths,
    tool_name_at, tool_name_paths, tool_output_at, tool_output_paths,
    tool_title_at, tool_title_paths, top_message_at, top_message_paths,
    total_tokens_at, total_tokens_paths, turn_event_id_at, turn_event_id_paths,
    turn_or_id_at, turn_or_id_paths, turn_or_thread_at, turn_or_thread_paths,
    turn_status_at, turn_status_paths,
};
use crate::model::{SessionId, SessionStatus, PlanEntryStatus, CommandOutputStream, FileChangeKind};
use crate::events::{AgentErrorEvent, AgentMessageDeltaEvent, CommandCompletedEvent, CommandEvent, CommandOutputEvent, EventView, FileChangeEvent, MessageCompletedEvent, NativeNotification, NormalizedEvent, NotificationView, PlanEntry, PlanEntryView, PlanEvent, SessionStatusChangedEvent, ToolEvent, events_view, opt_j, opt_s, plan_entries_view};
use crate::text::{str_eq, starts_with, seq_starts_with, owned, concat2, i64_decimal, int_decimal,
    strings_view, split_on, join_on, split_char, join_strings};
use crate::outside::{char_uppercase, char_to_uppercase};

verus! {

// ---------------------------------------------------------------------------
// Small shared pieces
// ---------------------------------------------------------------------------

/// `o.unwrap_or(d)` on text.
pub open spec fn text_or(o: Option<Seq<char>>, d: Seq<char>) -> Seq<char> {
    match o {
        Some(s) => s,
        None => d,
    }
}

/// The events of an optional event.
pub open spec fn opt_events(o: Option<EventView>) -> Seq<EventView> {
    match o {
        Some(e) => seq![e],
        None => Seq::empty(),
    }
}

/// An owned copy of an optional string slice.
fn own_opt(o: Option<&str>) -> (r: Option<String>)
    ensures
        opt_s(r) == opt_str(o),
{
    match o {
        Some(s) => Some(owned(s)),
        None => None,
    }
}

/// An owned copy of an optional JSON value.
fn clone_opt(o: Option<&JsonValue>) -> (r: Option<JsonValue>)
    ensures
        opt_j(r) == opt_json(o),
{
    match o {
        Some(v) => Some(json_clone(v)),
        None => None,
    }
}

fn text_or_exec(o: Option<&str>, d: &str) -> (r: String)
    ensures
        r@ == text_or(opt_str(o), d@),
{
    match o {
        Some(s) => owned(s),
        None => owned(d),
    }
}

fn vec1(e: NormalizedEvent) -> (r: Vec<NormalizedEvent>)
    ensures
        events_view(r@) == seq![e@],
{
    let mut v = Vec::new();
    v.push(e);
    proof {
        assert(events_view(v@) =~= seq![e@]);
    }
    v
}

fn vec_opt(o: Option<NormalizedEvent>) -> (r: Vec<NormalizedEvent>)
    ensures
        events_view(r@) == opt_events(match o {
            Some(e) => Some(e@),
            None => None,
        }),
{
    match o {
        Some(e) => vec1(e),
        None => {
            let v = Vec::new();
            proof {
                assert(events_view(v@) =~= Seq::<EventView>::empty());
            }
            v
        },
    }
}

pub open spec fn opt_event_view(o: Option<NormalizedEvent>) -> Option<EventView> {
    match o {
        Some(e) => Some(e@),
        None => None,
    }
}

fn push_event(v: &mut Vec<NormalizedEvent>, e: NormalizedEvent)
    ensures
        events_view(final(v)@) == events_view(old(v)@).push(e@),
{
    let ghost before = v@;
    v.push(e);
    proof {
        assert(events_view(v@) =~= events_view(before).push(e@));
    }
}

// ---------------------------------------------------------------------------
// Message fields
// ---------------------------------------------------------------------------

/// The message id a delta or completion belongs to.
pub open spec fn message_id_spec(m: Json) -> Seq<char> {
    text_or(first_str(m, message_id_paths()), "codex-message"@)
}

/// The item id a command or tool event belongs to.
pub open spec fn item_id_spec(m: Json) -> Seq<char> {
    text_or(first_str(m, item_id_paths()), "codex-item"@)
}

pub open spec fn item_type_spec(m: Json) -> Option<Seq<char>> {
    first_str(m, item_type_paths())
}

/// User messages and reasoning items are not shown as item events.
pub open spec fn ignored_item(m: Json) -> bool {
    item_type_spec(m) == Some("userMessage"@) || item_type_spec(m) == Some("reasoning"@)
}

fn message_id(m: &JsonValue) -> (r: String)
    ensures
        r@ == message_id_spec(m@),
{
    text_or_exec(message_id_at(m), "codex-message")
}

fn item_id(m: &JsonValue) -> (r: String)
    ensures
        r@ == item_id_spec(m@),
{
    text_or_exec(item_id_at(m), "codex-item")
}

fn is_item_type(m: &JsonValue, kind: &str) -> (r: bool)
    ensures
        r == (item_type_spec(m@) == Some(kind@)),
{
    match item_type_at(m) {
        Some(t) => str_eq(t, kind),
        None => false,
    }
}

fn should_ignore_item_event(m: &JsonValue) -> (r: bool)
    ensures
        r == ignored_item(m@),
{
    is_item_type(m, "userMessage") || is_item_type(m, "reasoning")
}

/// `message.get("method")` as a string.
pub open spec fn jsonrpc_method_spec(m: Json) -> Option<Seq<char>> {
    match json_get(m, "method"@) {
        Some(v) => json_as_str(v),
        None => None,
    }
}

/// The JSON-RPC method of a message, when it has a string one.
pub fn jsonrpc_method(m: &JsonValue) -> (r: Option<&str>)
    ensures
        opt_str(r) == jsonrpc_method_spec(m@),
{
    match get(m, "method") {
        Some(v) => as_str(v),
        None => None,
    }
}

// ---------------------------------------------------------------------------
// Notification category and title
// ---------------------------------------------------------------------------

/// The category a native notification is shown under.
pub open spec fn notification_category_of(method: Seq<char>) -> Seq<char> {
    if method == "error"@ || method == "warning"@ || method == "guardianWarning"@
        || method == "deprecationNotice"@ || method == "configWarning"@ {
        "warning"@
    } else if seq_starts_with(method, "thread/realtime/"@) {
        "realtime"@
    } else if seq_starts_with(method, "thread/"@) {
        "thread"@
    } else if seq_starts_with(method, "turn/"@) {
        "turn"@
    } else if seq_starts_with(method, "item/reasoning/"@) {
        "reasoning"@
    } else if seq_starts_with(method, "item/mcpToolCall/"@) || seq_starts_with(method, "mcpServer/"@) {
        "mcp"@
    } else if seq_starts_with(method, "model/"@) {
        "model"@
    } else if seq_starts_with(method, "hook/"@) {
        "hook"@
    } else if seq_starts_with(method, "account/"@) {
        "account"@
    } else if seq_starts_with(method, "fuzzyFileSearch/"@) {
        "search"@
    } else if seq_starts_with(method, "windows"@) {
        "environment"@
    } else {
        "provider"@
    }
}

/// The category a native notification is shown under.
pub fn native_notification_category(method: &str) -> (r: &'static str)
    ensures
        r@ == notification_category_of(method@),
{
    if str_eq(method, "error") || str_eq(method, "warning") || str_eq(method, "guardianWarning")
        || str_eq(method, "deprecationNotice") || str_eq(method, "configWarning") {
        "warning"
    } else if starts_with(method, "thread/realtime/") {
        "realtime"
    } else if starts_with(method, "thread/") {
        "thread"
    } else if starts_with(method, "turn/") {
        "turn"
    } else if starts_with(method, "item/reasoning/") {
        "reasoning"
    } else if starts_with(method, "item/mcpToolCall/") || starts_with(method, "mcpServer/") {
        "mcp"
    } else if starts_with(method, "model/") {
        "model"
    } else if starts_with(method, "hook/") {
        "hook"
    } else if starts_with(method, "account/") {
        "account"
    } else if starts_with(method, "fuzzyFileSearch/") {
        "search"
    } else if starts_with(method, "windows") {
        "environment"
    } else {
        "provider"
    }
}

/// A word with its first character upper-cased.
pub open spec fn capitalized(w: Seq<char>) -> Seq<char> {
    if w.len() == 0 {
        Seq::empty()
    } else {
        char_uppercase(w[0]) + w.subrange(1, w.len() as int)
    }
}

/// The non-empty pieces, each capitalized.
pub open spec fn title_words(parts: Seq<Seq<char>>) -> Seq<Seq<char>>
    decreases parts.len(),
{
    if parts.len() == 0 {
        Seq::empty()
    } else if parts.last().len() == 0 {
        title_words(parts.drop_last())
    } else {
        title_words(parts.drop_last()).push(capitalized(parts.last()))
    }
}

/// The title of a native notification.
pub open spec fn notification_title_of(method: Seq<char>) -> Seq<char> {
    if method == "model/rerouted"@ {
        "Model rerouted"@
    } else if method == "model/verification"@ {
        "Model verification"@
    } else if method == "warning"@ {
        "Warning"@
    } else if method == "guardianWarning"@ {
        "Guardian warning"@
    } else if method == "deprecationNotice"@ {
        "Deprecation notice"@
    } else if method == "configWarning"@ {
        "Configuration warning"@
    } else if method == "item/fileChange/outputDelta"@ {
        "File change output"@
    } else if method == "item/fileChange/patchUpdated"@ {
        "File patch updated"@
    } else {
        join_on(title_words(split_on(method, '/')), " "@)
    }
}

fn capitalize(w: &str) -> (r: String)
    ensures
        r@ == capitalized(w@),
{
    let n = w.unicode_len();
    if n == 0 {
        return String::new();
    }
    let mut r = char_to_uppercase(w.get_char(0));
    let rest = w.substring_char(1, n);
    r.append(rest);
    r
}

/// The title of a native notification: a fixed one for a few methods, else the method's
/// `/`-separated words, each capitalized, joined by spaces.
pub fn native_notification_title(method: &str) -> (r: String)
    ensures
        r@ == notification_title_of(method@),
{
    if str_eq(method, "model/rerouted") {
        owned("Model rerouted")
    } else if str_eq(method, "model/verification") {
        owned("Model verification")
    } else if str_eq(method, "warning") {
        owned("Warning")
    } else if str_eq(method, "guardianWarning") {
        owned("Guardian warning")
    } else if str_eq(method, "deprecationNotice") {
        owned("Deprecation notice")
    } else if str_eq(method, "configWarning") {
        owned("Configuration warning")
    } else if str_eq(method, "item/fileChange/outputDelta") {
        owned("File change output")
    } else if str_eq(method, "item/fileChange/patchUpdated") {
        owned("File patch updated")
    } else {
        let parts = split_char(method, '/');
        let mut words: Vec<String> = Vec::new();
        let mut i: usize = 0;
        proof {
            assert(strings_view(parts@).subrange(0, 0) =~= Seq::<Seq<char>>::empty());
            assert(strings_view(words@) =~= Seq::<Seq<char>>::empty());
        }
        while i < parts.len()
            invariant
                i <= parts.len(),
                strings_view(words@) == title_words(strings_view(parts@).subrange(0, i as int)),
            decreases parts.len() - i,
        {
            let ghost sv = strings_view(parts@);
            proof {
                assert(sv.subrange(0, i + 1).drop_last() =~= sv.subrange(0, i as int));
                assert(sv.subrange(0, i + 1).last() == parts@[i as int]@);
            }
            let p = parts[i].as_str();
            if p.unicode_len() > 0 {
                let ghost before = words@;
                words.push(capitalize(p));
                proof {
                    assert(strings_view(words@) =~= strings_view(before).push(capitalized(p@)));
                }
            }
            i = i + 1;
        }
        proof {
            assert(strings_view(parts@).subrange(0, parts@.len() as int) =~= strings_view(parts@));
        }
        join_strings(&words, " ")
    }
}

// ---------------------------------------------------------------------------
// Native notifications
// ---------------------------------------------------------------------------

/// The native notification built from a message with the given method, category, title
/// and status.
pub open spec fn native_notification_of(
    sid: SessionId,
    m: Json,
    method: Seq<char>,
    category: Seq<char>,
    title: Seq<char>,
    status: Option<Seq<char>>,
) -> NotificationView {
    NotificationView {
        session_id: sid,
        provider_id: "codex"@,
        event_id: first_str(m, notification_event_id_paths()),
        method,
        category,
        title,
        detail: first_str(m, detail_paths()),
        status,
        provider_payload: Some(m),
    }
}

fn native_notification(
    sid: SessionId,
    m: &JsonValue,
    method: &str,
    category: &str,
    title: &str,
    status: Option<&str>,
) -> (r: NativeNotification)
    ensures
        r@ == native_notification_of(sid, m@, method@, category@, title@, opt_str(status)),
{
    NativeNotification {
        session_id: sid,
        provider_id: owned("codex"),
        event_id: own_opt(notification_event_id_at(m)),
        method: owned(method),
        category: owned(category),
        title: owned(title),
        detail: own_opt(detail_at(m)),
        status: own_opt(status),
        provider_payload: Some(json_clone(m)),
    }
}

/// The notification of a method with its own category and title.
pub open spec fn method_notification(sid: SessionId, m: Json, method: Seq<char>, status: Option<Seq<char>>) -> NotificationView {
    native_notification_of(sid, m, method, notification_category_of(method), notification_title_of(method), status)
}

fn method_notification_exec(sid: SessionId, m: &JsonValue, method: &str, status: Option<&str>) -> (r: NativeNotification)
    ensures
        r@ == method_notification(sid, m@, method@, opt_str(status)),
{
    let title = native_notification_title(method);
    native_notification(sid, m, method, native_notification_category(method), title.as_str(), status)
}

// ---------------------------------------------------------------------------
// Message deltas, completions, plans and command output
// ---------------------------------------------------------------------------

/// `text_delta`: a message delta, when the message carries delta text.
pub open spec fn text_delta_of(sid: SessionId, m: Json) -> Option<EventView> {
    match first_str(m, delta_paths()) {
        Some(d) => Some(EventView::AgentMessageDelta {
            session_id: sid,
            message_id: message_id_spec(m),
            delta: d,
            provider_payload: Some(m),
        }),
        None => None,
    }
}

fn text_delta(sid: SessionId, m: &JsonValue) -> (r: Option<NormalizedEvent>)
    ensures
        opt_event_view(r) == text_delta_of(sid, m@),
{
    match delta_at(m) {
        Some(d) => Some(NormalizedEvent::AgentMessageDelta(AgentMessageDeltaEvent {
            session_id: sid,
            message_id: message_id(m),
            delta: owned(d),
            provider_payload: Some(json_clone(m)),
        })),
        None => None,
    }
}

/// `message_completed`: the completion of the message the message names.
pub open spec fn message_completed_of(sid: SessionId, m: Json) -> EventView {
    EventView::AgentMessageCompleted {
        session_id: sid,
        message_id: message_id_spec(m),
        content: first_str(m, completed_content_paths()),
        provider_payload: Some(m),
    }
}

fn message_completed(sid: SessionId, m: &JsonValue) -> (r: NormalizedEvent)
    ensures
        r@ == message_completed_of(sid, m@),
{
    NormalizedEvent::AgentMessageCompleted(MessageCompletedEvent {
        session_id: sid,
        message_id: message_id(m),
        content: own_opt(completed_content_at(m)),
        provider_payload: Some(json_clone(m)),
    })
}

/// The status of a plan entry from its status text.
pub open spec fn plan_status_of(s: Option<Seq<char>>) -> PlanEntryStatus {
    match s {
        Some(t) => if t == "completed"@ {
            PlanEntryStatus::Completed
        } else if t == "inProgress"@ || t == "in_progress"@ {
            PlanEntryStatus::InProgress
        } else if t == "failed"@ || t == "error"@ {
            PlanEntryStatus::Failed
        } else if t == "cancelled"@ || t == "canceled"@ {
            PlanEntryStatus::Cancelled
        } else {
            PlanEntryStatus::Pending
        },
        None => PlanEntryStatus::Pending,
    }
}

fn plan_status(s: Option<&str>) -> (r: PlanEntryStatus)
    ensures
        r == plan_status_of(opt_str(s)),
{
    match s {
        Some(t) => if str_eq(t, "completed") {
            PlanEntryStatus::Completed
        } else if str_eq(t, "inProgress") || str_eq(t, "in_progress") {
            PlanEntryStatus::InProgress
        } else if str_eq(t, "failed") || str_eq(t, "error") {
            PlanEntryStatus::Failed
        } else if str_eq(t, "cancelled") || str_eq(t, "canceled") {
            PlanEntryStatus::Cancelled
        } else {
            PlanEntryStatus::Pending
        },
        None => PlanEntryStatus::Pending,
    }
}

/// The plan entries of a plan array: each entry that has a label, in order.
pub open spec fn plan_entries_of(items: Seq<Json>) -> Seq<PlanEntryView>
    decreases items.len(),
{
    if items.len() == 0 {
        Seq::empty()
    } else {
        let rest = plan_entries_of(items.drop_last());
        match first_str(items.last(), entry_label_paths()) {
            Some(label) => rest.push(
                PlanEntryView {
                    label,
                    status: plan_status_of(first_str(items.last(), entry_status_paths())),
                },
            ),
            None => rest,
        }
    }
}

/// The items of `params.plan`, when it is an array.
pub open spec fn plan_items_of(m: Json) -> Seq<Json> {
    match json_path(m, plan_list_paths()[0]) {
        Some(v) => match json_as_array(v) {
            Some(a) => a,
            None => Seq::empty(),
        },
        None => Seq::empty(),
    }
}

fn plan_entries(m: &JsonValue) -> (r: Vec<PlanEntry>)
    ensures
        plan_entries_view(r@) == plan_entries_of(plan_items_of(m@)),
{
    let mut out: Vec<PlanEntry> = Vec::new();
    let list = match plan_list_at(m) {
        Some(v) => as_array(v),
        None => None,
    };
    match list {
        Some(items) => {
            let ghost iv = values_view(items@);
            let mut i: usize = 0;
            proof {
                assert(iv.subrange(0, 0) =~= Seq::<Json>::empty());
                assert(plan_entries_view(out@) =~= Seq::<PlanEntryView>::empty());
            }
            while i < items.len()
                invariant
                    i <= items.len(),
                    iv == values_view(items@),
                    plan_entries_view(out@) == plan_entries_of(iv.subrange(0, i as int)),
                decreases items.len() - i,
            {
                proof {
                    assert(iv.subrange(0, i + 1).drop_last() =~= iv.subrange(0, i as int));
                    assert(iv.subrange(0, i + 1).last() == items@[i as int]@);
                }
                let entry = &items[i];
                match entry_label_at(entry) {
                    Some(label) => {
                        let ghost before = out@;
                        out.push(PlanEntry { label: owned(label), status: plan_status(entry_status_at(entry)) });
                        proof {
                            assert(plan_entries_view(out@) =~= plan_entries_view(before).push(
                                PlanEntryView {
                                    label: label@,
                                    status: plan_status_of(first_str(entry@, entry_status_paths())),
                                },
                            ));
                        }
                    },
                    None => {},
                }
                i = i + 1;
            }
            proof {
                assert(iv.subrange(0, items@.len() as int) =~= iv);
            }
        },
        None => {
            proof {
                assert(plan_entries_view(out@) =~= Seq::<PlanEntryView>::empty());
            }
        },
    }
    out
}

/// `turn_plan_updated`: the turn's plan, unless it has neither entries nor explanation.
pub open spec fn turn_plan_updated_of(sid: SessionId, m: Json) -> Option<EventView> {
    let entries = plan_entries_of(plan_items_of(m));
    if entries.len() == 0 && first_str(m, explanation_paths()) is None {
        None
    } else {
        Some(EventView::PlanUpdated {
            session_id: sid,
            plan_id: first_str(m, turn_or_id_paths()),
            title: Some("Implementation plan"@),
            content: first_str(m, explanation_paths()),
            entries,
            append: false,
            provider_payload: Some(m),
        })
    }
}

fn turn_plan_updated(sid: SessionId, m: &JsonValue) -> (r: Option<NormalizedEvent>)
    ensures
        opt_event_view(r) == turn_plan_updated_of(sid, m@),
{
    let entries = plan_entries(m);
    let explanation = explanation_at(m);
    if entries.len() == 0 && explanation.is_none() {
        return None;
    }
    Some(NormalizedEvent::PlanUpdated(PlanEvent {
        session_id: sid,
        plan_id: own_opt(turn_or_id_at(m)),
        title: Some(owned("Implementation plan")),
        content: own_opt(explanation),
        entries,
        append: false,
        provider_payload: Some(json_clone(m)),
    }))
}

/// `plan_delta`: text appended to a plan.
pub open spec fn plan_delta_of(sid: SessionId, m: Json) -> Option<EventView> {
    match first_str(m, plan_delta_content_paths()) {
        Some(content) => Some(EventView::PlanUpdated {
            session_id: sid,
            plan_id: first_str(m, plan_delta_id_paths()),
            title: Some("Implementation plan"@),
            content: Some(content),
            entries: Seq::empty(),
            append: true,
            provider_payload: Some(m),
        }),
        None => None,
    }
}

fn plan_delta(sid: SessionId, m: &JsonValue) -> (r: Option<NormalizedEvent>)
    ensures
        opt_event_view(r) == plan_delta_of(sid, m@),
{
    match plan_delta_content_at(m) {
        Some(content) => {
            let entries: Vec<PlanEntry> = Vec::new();
            proof {
                assert(plan_entries_view(entries@) =~= Seq::<PlanEntryView>::empty());
            }
            Some(NormalizedEvent::PlanUpdated(PlanEvent {
                session_id: sid,
                plan_id: own_opt(plan_delta_id_at(m)),
                title: Some(owned("Implementation plan")),
                content: Some(owned(content)),
                entries,
                append: true,
                provider_payload: Some(json_clone(m)),
            }))
        },
        None => None,
    }
}

/// `command_output_delta`: output of a running command.
pub open spec fn command_output_delta_of(sid: SessionId, m: Json) -> Option<EventView> {
    match first_str(m, output_delta_paths()) {
        Some(d) => Some(EventView::CommandOutputDelta {
            session_id: sid,
            command_id: item_id_spec(m),
            stream: if first_str(m, stream_paths()) == Some("stderr"@) {
                CommandOutputStream::Stderr
            } else {
                CommandOutputStream::Stdout
            },
            delta: d,
            provider_payload: Some(m),
        }),
        None => None,
    }
}

fn command_output_delta(sid: SessionId, m: &JsonValue) -> (r: Option<NormalizedEvent>)
    ensures
        opt_event_view(r) == command_output_delta_of(sid, m@),
{
    match output_delta_at(m) {
        Some(d) => {
            let stderr = match stream_at(m) {
                Some(s) => str_eq(s, "stderr"),
                None => false,
            };
            Some(NormalizedEvent::CommandOutputDelta(CommandOutputEvent {
                session_id: sid,
                command_id: item_id(m),
                stream: if stderr {
                    CommandOutputStream::Stderr
                } else {
                    CommandOutputStream::Stdout
                },
                delta: owned(d),
                provider_payload: Some(json_clone(m)),
            }))
        },
        None => None,
    }
}

// ---------------------------------------------------------------------------
// Provider command results, compaction, status and usage notifications
// ---------------------------------------------------------------------------

/// The result of a provider slash command, as a native notification.
pub open spec fn slash_command_result_of(sid: SessionId, m: Json) -> EventView {
    EventView::NativeNotification(NotificationView {
        session_id: sid,
        provider_id: "codex"@,
        event_id: first_str(m, command_id_field_paths()),
        method: "codex/slash_command_result"@,
        category: "slash_command"@,
        title: text_or(first_str(m, raw_input_title_paths()), "Provider command"@),
        detail: first_str(m, top_message_paths()),
        status: Some(
            if first_bool(m, accepted_paths()) == Some(true) {
                "accepted"@
            } else {
                "rejected"@
            },
        ),
        provider_payload: Some(m),
    })
}

fn codex_slash_command_result(sid: SessionId, m: &JsonValue) -> (r: NormalizedEvent)
    ensures
        r@ == slash_command_result_of(sid, m@),
{
    let accepted = match accepted_at(m) {
        Some(b) => b,
        None => false,
    };
    NormalizedEvent::NativeNotification(NativeNotification {
        session_id: sid,
        provider_id: owned("codex"),
        event_id: own_opt(command_id_field_at(m)),
        method: owned("codex/slash_command_result"),
        category: owned("slash_command"),
        title: text_or_exec(raw_input_title_at(m), "Provider command"),
        detail: own_opt(top_message_at(m)),
        status: Some(owned(if accepted { "accepted" } else { "rejected" })),
        provider_payload: Some(json_clone(m)),
    })
}

/// A bare context-compaction item, as a native notification.
pub open spec fn context_compaction_of(sid: SessionId, m: Json) -> EventView {
    EventView::NativeNotification(NotificationView {
        session_id: sid,
        provider_id: "codex"@,
        event_id: first_str(m, compaction_id_paths()),
        method: "item/contextCompaction"@,
        category: "compaction"@,
        title: "Context compacted"@,
        detail: None,
        status: Some("completed"@),
        provider_payload: Some(m),
    })
}

fn codex_context_compaction_event(sid: SessionId, m: &JsonValue) -> (r: NormalizedEvent)
    ensures
        r@ == context_compaction_of(sid, m@),
{
    NormalizedEvent::NativeNotification(NativeNotification {
        session_id: sid,
        provider_id: owned("codex"),
        event_id: own_opt(compaction_id_at(m)),
        method: owned("item/contextCompaction"),
        category: owned("compaction"),
        title: owned("Context compacted"),
        detail: None,
        status: Some(owned("completed")),
        provider_payload: Some(json_clone(m)),
    })
}

/// Messages without a method: a slash command result, a compaction item, or neither.
pub open spec fn non_jsonrpc_of(sid: SessionId, m: Json) -> Option<Seq<EventView>> {
    if json_get(m, "method"@) is Some {
        None
    } else if json_get(m, "command_id"@) is Some && json_get(m, "raw_input"@) is Some {
        Some(seq![slash_command_result_of(sid, m)])
    } else if item_type_spec(m) == Some("contextCompaction"@) {
        Some(seq![context_compaction_of(sid, m)])
    } else {
        None
    }
}

fn normalize_codex_non_jsonrpc_message(sid: SessionId, m: &JsonValue) -> (r: Option<Vec<NormalizedEvent>>)
    ensures
        match r {
            Some(v) => non_jsonrpc_of(sid, m@) == Some(events_view(v@)),
            None => non_jsonrpc_of(sid, m@) is None,
        },
{
    if get(m, "method").is_some() {
        return None;
    }
    if get(m, "command_id").is_some() && get(m, "raw_input").is_some() {
        return Some(vec1(codex_slash_command_result(sid, m)));
    }
    if is_item_type(m, "contextCompaction") {
        return Some(vec1(codex_context_compaction_event(sid, m)));
    }
    None
}

/// A session status change.
pub open spec fn status_event_of(sid: SessionId, status: SessionStatus, reason: Seq<char>) -> EventView {
    EventView::SessionStatusChanged { session_id: sid, status, reason: Some(reason) }
}

fn session_status_event(sid: SessionId, status: SessionStatus, reason: &str) -> (r: NormalizedEvent)
    ensures
        r@ == status_event_of(sid, status, reason@),
{
    NormalizedEvent::SessionStatusChanged(SessionStatusChangedEvent {
        session_id: sid,
        status,
        reason: Some(owned(reason)),
    })
}

/// The provider's thread status: `params.status.type`, else `params.status`, else
/// `"updated"`.
pub open spec fn provider_thread_status(m: Json) -> Seq<char> {
    match first_str(m, status_type_paths()) {
        Some(s) => s,
        None => text_or(first_str(m, status_plain_paths()), "updated"@),
    }
}

/// `thread/status/changed`: a session status for an active or idle thread, then the
/// notification itself.
pub open spec fn thread_status_changed_of(sid: SessionId, m: Json) -> Seq<EventView> {
    let ps = provider_thread_status(m);
    let head = if ps == "active"@ {
        seq![status_event_of(sid, SessionStatus::Running, "Codex thread is active."@)]
    } else if ps == "idle"@ {
        seq![status_event_of(sid, SessionStatus::Idle, "Codex thread is idle."@)]
    } else {
        Seq::empty()
    };
    head.push(
        EventView::NativeNotification(NotificationView {
            session_id: sid,
            provider_id: "codex"@,
            event_id: first_str(m, param_thread_id_paths()),
            method: "thread/status/changed"@,
            category: "thread"@,
            title: "Thread status changed"@,
            detail: Some("status: "@ + ps),
            status: Some(ps),
            provider_payload: Some(m),
        }),
    )
}

fn thread_status_changed(sid: SessionId, m: &JsonValue) -> (r: Vec<NormalizedEvent>)
    ensures
        events_view(r@) == thread_status_changed_of(sid, m@),
{
    let ps: &str = match status_type_at(m) {
        Some(s) => s,
        None => match status_plain_at(m) {
            Some(s) => s,
            None => "updated",
        },
    };
    let mut events: Vec<NormalizedEvent> = Vec::new();
    proof {
        assert(events_view(events@) =~= Seq::<EventView>::empty());
    }
    if str_eq(ps, "active") {
        push_event(&mut events, session_status_event(sid, SessionStatus::Running, "Codex thread is active."));
    } else if str_eq(ps, "idle") {
        push_event(&mut events, session_status_event(sid, SessionStatus::Idle, "Codex thread is idle."));
    }
    proof {
        let ps_v = provider_thread_status(m@);
        assert(ps@ == ps_v);
        if ps_v == "active"@ {
            assert(events_view(events@) =~= seq![status_event_of(sid, SessionStatus::Running, "Codex thread is active."@)]);
        } else if ps_v == "idle"@ {
            assert(events_view(events@) =~= seq![status_event_of(sid, SessionStatus::Idle, "Codex thread is idle."@)]);
        }
    }
    push_event(&mut events, NormalizedEvent::NativeNotification(NativeNotification {
        session_id: sid,
        provider_id: owned("codex"),
        event_id: own_opt(param_thread_id_at(m)),
        method: owned("thread/status/changed"),
        category: owned("thread"),
        title: owned("Thread status changed"),
        detail: Some(concat2("status: ", ps)),
        status: Some(owned(ps)),
        provider_payload: Some(json_clone(m)),
    }));
    events
}

/// `turn/started`: a running status when the turn is running, then the notification.
pub open spec fn turn_started_of(sid: SessionId, m: Json) -> Seq<EventView> {
    let status = text_or(first_str(m, turn_status_paths()), "running"@);
    let head = if status == "inProgress"@ || status == "running"@ {
        seq![status_event_of(sid, SessionStatus::Running, "Codex turn started."@)]
    } else {
        Seq::empty()
    };
    head.push(
        EventView::NativeNotification(NotificationView {
            session_id: sid,
            provider_id: "codex"@,
            event_id: first_str(m, turn_event_id_paths()),
            method: "turn/started"@,
            category: "turn"@,
            title: "Turn started"@,
            detail: None,
            status: Some(status),
            provider_payload: Some(m),
        }),
    )
}

fn turn_started(sid: SessionId, m: &JsonValue) -> (r: Vec<NormalizedEvent>)
    ensures
        events_view(r@) == turn_started_of(sid, m@),
{
    let status: &str = match turn_status_at(m) {
        Some(s) => s,
        None => "running",
    };
    let mut events: Vec<NormalizedEvent> = Vec::new();
    proof {
        assert(events_view(events@) =~= Seq::<EventView>::empty());
    }
    if str_eq(status, "inProgress") || str_eq(status, "running") {
        push_event(&mut events, session_status_event(sid, SessionStatus::Running, "Codex turn started."));
        proof {
            assert(events_view(events@) =~= seq![status_event_of(sid, SessionStatus::Running, "Codex turn started."@)]);
        }
    }
    push_event(&mut events, NormalizedEvent::NativeNotification(NativeNotification {
        session_id: sid,
        provider_id: owned("codex"),
        event_id: own_opt(turn_event_id_at(m)),
        method: owned("turn/started"),
        category: owned("turn"),
        title: owned("Turn started"),
        detail: None,
        status: Some(owned(status)),
        provider_payload: Some(json_clone(m)),
    }));
    events
}

/// `acc` with `o` appended when it is present.
pub open spec fn push_present(acc: Seq<Seq<char>>, o: Option<Seq<char>>) -> Seq<Seq<char>> {
    match o {
        Some(p) => acc.push(p),
        None => acc,
    }
}

/// `Some(text)` unless the text is empty.
pub open spec fn non_empty_text(t: Seq<char>) -> Option<Seq<char>> {
    if t.len() == 0 {
        None
    } else {
        Some(t)
    }
}

/// A number with a label before it and a unit after it, when the number is present.
pub open spec fn labeled_number(prefix: Seq<char>, v: Option<i64>, suffix: Seq<char>) -> Option<Seq<char>> {
    match v {
        Some(n) => Some(prefix + int_decimal(n as int) + suffix),
        None => None,
    }
}

fn push_present_exec(v: &mut Vec<String>, o: Option<String>)
    ensures
        strings_view(final(v)@) == push_present(strings_view(old(v)@), opt_s(o)),
{
    match o {
        Some(p) => {
            let ghost before = v@;
            v.push(p);
            proof {
                assert(strings_view(v@) =~= strings_view(before).push(v@.last()@));
            }
        },
        None => {},
    }
}

fn labeled_number_exec(prefix: &str, v: Option<i64>, suffix: &str) -> (r: Option<String>)
    ensures
        opt_s(r) == labeled_number(prefix@, v, suffix@),
{
    match v {
        Some(n) => {
            let digits = i64_decimal(n);
            let mut t = owned(prefix);
            t.append(digits.as_str());
            t.append(suffix);
            Some(t)
        },
        None => None,
    }
}

fn joined_detail(parts: &Vec<String>) -> (r: Option<String>)
    ensures
        opt_s(r) == non_empty_text(join_on(strings_view(parts@), " · "@)),
{
    let j = join_strings(parts, " · ");
    if j.as_str().unicode_len() == 0 {
        None
    } else {
        Some(j)
    }
}

/// The summary of a token usage update.
pub open spec fn token_usage_detail(m: Json) -> Option<Seq<char>> {
    let parts = push_present(
        push_present(
            push_present(Seq::empty(), labeled_number("last "@, first_i64(m, last_tokens_paths()), ""@)),
            labeled_number("total "@, first_i64(m, total_tokens_paths()), ""@),
        ),
        labeled_number("window "@, first_i64(m, context_window_paths()), ""@),
    );
    non_empty_text(join_on(parts, " · "@))
}

/// `thread/tokenUsage/updated`, as a native notification with a summary.
pub open spec fn token_usage_updated_of(sid: SessionId, m: Json) -> EventView {
    EventView::NativeNotification(NotificationView {
        session_id: sid,
        provider_id: "codex"@,
        event_id: first_str(m, turn_or_thread_paths()),
        method: "thread/tokenUsage/updated"@,
        category: "token_usage"@,
        title: "Token usage updated"@,
        detail: token_usage_detail(m),
        status: Some("updated"@),
        provider_payload: Some(m),
    })
}

fn token_usage_updated(sid: SessionId, m: &JsonValue) -> (r: NormalizedEvent)
    ensures
        r@ == token_usage_updated_of(sid, m@),
{
    let mut parts: Vec<String> = Vec::new();
    proof {
        assert(strings_view(parts@) =~= Seq::<Seq<char>>::empty());
    }
    push_present_exec(&mut parts, labeled_number_exec("last ", last_tokens_at(m), ""));
    push_present_exec(&mut parts, labeled_number_exec("total ", total_tokens_at(m), ""));
    push_present_exec(&mut parts, labeled_number_exec("window ", context_window_at(m), ""));
    NormalizedEvent::NativeNotification(NativeNotification {
        session_id: sid,
        provider_id: owned("codex"),
        event_id: own_opt(turn_or_thread_at(m)),
        method: owned("thread/tokenUsage/updated"),
        category: owned("token_usage"),
        title: owned("Token usage updated"),
        detail: joined_detail(&parts),
        status: Some(owned("updated")),
        provider_payload: Some(json_clone(m)),
    })
}

/// The summary of a rate limit update.
pub open spec fn rate_limits_detail(m: Json) -> Option<Seq<char>> {
    let parts = push_present(
        push_present(
            push_present(
                push_present(Seq::empty(), first_str(m, plan_type_paths())),
                labeled_number("primary "@, first_i64(m, primary_used_paths()), "%"@),
            ),
            labeled_number("secondary "@, first_i64(m, secondary_used_paths()), "%"@),
        ),
        match first_str(m, limit_reached_paths()) {
            Some(t) => Some("reached "@ + t),
            None => None,
        },
    );
    non_empty_text(join_on(parts, " · "@))
}

/// `account/rateLimits/updated`, as a native notification with a summary.
pub open spec fn rate_limits_updated_of(sid: SessionId, m: Json) -> EventView {
    EventView::NativeNotification(NotificationView {
        session_id: sid,
        provider_id: "codex"@,
        event_id: first_str(m, limit_id_paths()),
        method: "account/rateLimits/updated"@,
        category: "rate_limits"@,
        title: "Rate limits updated"@,
        detail: rate_limits_detail(m),
        status: Some("updated"@),
        provider_payload: Some(m),
    })
}

fn rate_limits_updated(sid: SessionId, m: &JsonValue) -> (r: NormalizedEvent)
    ensures
        r@ == rate_limits_updated_of(sid, m@),
{
    let mut parts: Vec<String> = Vec::new();
    proof {
        assert(strings_view(parts@) =~= Seq::<Seq<char>>::empty());
    }
    push_present_exec(&mut parts, own_opt(plan_type_at(m)));
    push_present_exec(&mut parts, labeled_number_exec("primary ", primary_used_at(m), "%"));
    push_present_exec(&mut parts, labeled_number_exec("secondary ", secondary_used_at(m), "%"));
    let reached = match limit_reached_at(m) {
        Some(t) => Some(concat2("reached ", t)),
        None => None,
    };
    push_present_exec(&mut parts, reached);
    NormalizedEvent::NativeNotification(NativeNotification {
        session_id: sid,
        provider_id: owned("codex"),
        event_id: own_opt(limit_id_at(m)),
        method: owned("account/rateLimits/updated"),
        category: owned("rate_limits"),
        title: owned("Rate limits updated"),
        detail: joined_detail(&parts),
        status: Some(owned("updated")),
        provider_payload: Some(json_clone(m)),
    })
}

// ---------------------------------------------------------------------------
// Item lifecycle
// ---------------------------------------------------------------------------

/// The name a tool item is shown by: its name, else its item type, else `"tool"`.
pub open spec fn tool_name_of(m: Json) -> Seq<char> {
    match first_str(m, tool_name_paths()) {
        Some(n) => n,
        None => text_or(item_type_spec(m), "tool"@),
    }
}

fn tool_name(m: &JsonValue) -> (r: String)
    ensures
        r@ == tool_name_of(m@),
{
    match tool_name_at(m) {
        Some(n) => owned(n),
        None => text_or_exec(item_type_at(m), "tool"),
    }
}

/// `item/started`: a command start for a command item, else a tool start.
pub open spec fn item_started_of(sid: SessionId, m: Json) -> Option<EventView> {
    if ignored_item(m) {
        None
    } else {
        match first_str(m, command_paths()) {
            Some(c) => Some(EventView::CommandStarted {
                session_id: sid,
                command_id: item_id_spec(m),
                command: c,
                cwd: first_str(m, cwd_paths()),
                source: first_str(m, source_paths()),
                process_id: first_str(m, process_id_paths()),
                provider_payload: Some(m),
            }),
            None => Some(EventView::ToolStarted {
                session_id: sid,
                tool_call_id: item_id_spec(m),
                name: tool_name_of(m),
                title: first_str(m, tool_title_paths()),
                input: json_path(m, tool_input_paths()[0]),
                output: None,
                provider_payload: Some(m),
            }),
        }
    }
}

fn item_started(sid: SessionId, m: &JsonValue) -> (r: Option<NormalizedEvent>)
    ensures
        opt_event_view(r) == item_started_of(sid, m@),
{
    if should_ignore_item_event(m) {
        return None;
    }
    match command_at(m) {
        Some(c) => Some(NormalizedEvent::CommandStarted(CommandEvent {
            session_id: sid,
            command_id: item_id(m),
            command: owned(c),
            cwd: own_opt(cwd_at(m)),
            source: own_opt(source_at(m)),
            process_id: own_opt(process_id_at(m)),
            provider_payload: Some(json_clone(m)),
        })),
        None => Some(NormalizedEvent::ToolStarted(ToolEvent {
            session_id: sid,
            tool_call_id: item_id(m),
            name: tool_name(m),
            title: own_opt(tool_title_at(m)),
            input: clone_opt(tool_input_at(m)),
            output: None,
            provider_payload: Some(json_clone(m)),
        })),
    }
}

/// The kind of a file change from its change kind text.
pub open spec fn file_change_kind_of(m: Json) -> FileChangeKind {
    match first_str(m, change_kind_paths()) {
        Some(k) => if k == "create"@ || k == "add"@ {
            FileChangeKind::Create
        } else if k == "delete"@ || k == "remove"@ {
            FileChangeKind::Delete
        } else if k == "rename"@ || k == "move"@ {
            FileChangeKind::Rename
        } else {
            FileChangeKind::Modify
        },
        None => FileChangeKind::Modify,
    }
}

fn file_change_kind(m: &JsonValue) -> (r: FileChangeKind)
    ensures
        r == file_change_kind_of(m@),
{
    match change_kind_at(m) {
        Some(k) => if str_eq(k, "create") || str_eq(k, "add") {
            FileChangeKind::Create
        } else if str_eq(k, "delete") || str_eq(k, "remove") {
            FileChangeKind::Delete
        } else if str_eq(k, "rename") || str_eq(k, "move") {
            FileChangeKind::Rename
        } else {
            FileChangeKind::Modify
        },
        None => FileChangeKind::Modify,
    }
}

/// A duration in milliseconds, when it is not negative.
pub open spec fn duration_of(v: Option<i64>) -> Option<u64> {
    match v {
        Some(n) => if n >= 0 {
            Some(n as u64)
        } else {
            None
        },
        None => None,
    }
}

/// `item/completed`: a message completion, a compaction, a command completion, a
/// proposed file change, or a tool completion.
pub open spec fn item_completed_of(sid: SessionId, m: Json) -> Option<EventView> {
    if item_type_spec(m) == Some("agentMessage"@) {
        Some(message_completed_of(sid, m))
    } else if item_type_spec(m) == Some("contextCompaction"@) {
        Some(
            EventView::NativeNotification(
                native_notification_of(
                    sid,
                    m,
                    "item/contextCompaction"@,
                    "compaction"@,
                    "Context compacted"@,
                    Some("completed"@),
                ),
            ),
        )
    } else if ignored_item(m) {
        None
    } else if first_str(m, command_paths()) is Some {
        Some(EventView::CommandCompleted {
            session_id: sid,
            command_id: item_id_spec(m),
            exit_code: match first_i64(m, exit_code_paths()) {
                Some(n) => Some(n as i32),
                None => None,
            },
            duration_ms: duration_of(first_i64(m, duration_paths())),
            success: match first_bool(m, success_paths()) {
                Some(b) => b,
                None => true,
            },
            provider_payload: Some(m),
        })
    } else {
        match first_str(m, file_path_paths()) {
            Some(path) => Some(EventView::FileChangeProposed {
                session_id: sid,
                path,
                change_kind: file_change_kind_of(m),
                diff: first_str(m, file_diff_paths()),
                provider_payload: Some(m),
            }),
            None => Some(EventView::ToolCompleted {
                session_id: sid,
                tool_call_id: item_id_spec(m),
                name: tool_name_of(m),
                title: first_str(m, tool_title_paths()),
                input: None,
                output: json_path(m, tool_output_paths()[0]),
                provider_payload: Some(m),
            }),
        }
    }
}

fn item_completed(sid: SessionId, m: &JsonValue) -> (r: Option<NormalizedEvent>)
    ensures
        opt_event_view(r) == item_completed_of(sid, m@),
{
    if is_item_type(m, "agentMessage") {
        return Some(message_completed(sid, m));
    }
    if is_item_type(m, "contextCompaction") {
        return Some(NormalizedEvent::NativeNotification(native_notification(
            sid,
            m,
            "item/contextCompaction",
            "compaction",
            "Context compacted",
            Some("completed"),
        )));
    }
    if should_ignore_item_event(m) {
        return None;
    }
    if command_at(m).is_some() {
        return Some(NormalizedEvent::CommandCompleted(CommandCompletedEvent {
            session_id: sid,
            command_id: item_id(m),
            exit_code: match exit_code_at(m) {
                Some(n) => Some(n as i32),
                None => None,
            },
            duration_ms: match duration_at(m) {
                Some(n) => if n >= 0 {
                    Some(n as u64)
                } else {
                    None
                },
                None => None,
            },
            success: match success_at(m) {
                Some(b) => b,
                None => true,
            },
            provider_payload: Some(json_clone(m)),
        }));
    }
    match file_path_at(m) {
        Some(path) => Some(NormalizedEvent::FileChangeProposed(FileChangeEvent {
            session_id: sid,
            path: owned(path),
            change_kind: file_change_kind(m),
            diff: own_opt(file_diff_at(m)),
            provider_payload: Some(json_clone(m)),
        })),
        None => Some(NormalizedEvent::ToolCompleted(ToolEvent {
            session_id: sid,
            tool_call_id: item_id(m),
            name: tool_name(m),
            title: own_opt(tool_title_at(m)),
            input: None,
            output: clone_opt(tool_output_at(m)),
            provider_payload: Some(json_clone(m)),
        })),
    }
}

// ---------------------------------------------------------------------------
// Normalization
// ---------------------------------------------------------------------------

/// One notification event of the given kind for a method.
pub open spec fn wrapped(kind: nat, n: NotificationView) -> EventView {
    if kind == 0 {
        EventView::NativeNotification(n)
    } else if kind == 1 {
        EventView::TurnDiffUpdated(n)
    } else if kind == 2 {
        EventView::ItemReasoning(n)
    } else if kind == 3 {
        EventView::ServerRequestResolved(n)
    } else if kind == 4 {
        EventView::McpToolCallProgress(n)
    } else {
        EventView::ThreadRealtimeEvent(n)
    }
}

/// Which notification event a method's notification is carried by.
pub open spec fn notification_kind(method: Seq<char>) -> nat {
    if method == "turn/diff/updated"@ {
        1
    } else if method == "item/reasoning/summaryTextDelta"@ || method == "item/reasoning/summaryPartAdded"@
        || method == "item/reasoning/textDelta"@ {
        2
    } else if method == "serverRequest/resolved"@ {
        3
    } else {
        4
    }
}

/// The events of a JSON-RPC message with method `method`.
pub open spec fn method_events(sid: SessionId, m: Json, method: Seq<char>) -> Seq<EventView> {
    if method == "agentMessage/delta"@ || method == "item/agentMessage/delta"@ {
        opt_events(text_delta_of(sid, m))
    } else if method == "agentMessage/completed"@ || method == "agentMessage/complete"@ {
        seq![message_completed_of(sid, m)]
    } else if method == "turn/started"@ {
        turn_started_of(sid, m)
    } else if method == "thread/status/changed"@ {
        thread_status_changed_of(sid, m)
    } else if method == "thread/tokenUsage/updated"@ {
        seq![token_usage_updated_of(sid, m)]
    } else if method == "account/rateLimits/updated"@ {
        seq![rate_limits_updated_of(sid, m)]
    } else if method == "thread/compacted"@ {
        seq![
            EventView::NativeNotification(
                native_notification_of(
                    sid,
                    m,
                    "thread/compacted"@,
                    "compaction"@,
                    "Context compacted"@,
                    Some("completed"@),
                ),
            ),
        ]
    } else if method == "turn/diff/updated"@ {
        seq![wrapped(1, method_notification(sid, m, method, None))]
    } else if method == "item/reasoning/summaryTextDelta"@ || method
        == "item/reasoning/summaryPartAdded"@ || method == "item/reasoning/textDelta"@ {
        seq![wrapped(2, method_notification(sid, m, method, None))]
    } else if method == "serverRequest/resolved"@ {
        seq![wrapped(3, method_notification(sid, m, method, None))]
    } else if method == "item/mcpToolCall/progress"@ || seq_starts_with(method, "mcpServer/"@) {
        seq![wrapped(4, method_notification(sid, m, method, None))]
    } else {
        later_method_events(sid, m, method)
    }
}

/// The events of the methods not handled by [`method_events`] itself.
pub open spec fn later_method_events(sid: SessionId, m: Json, method: Seq<char>) -> Seq<EventView> {
    if method == "turn/plan/updated"@ {
        opt_events(turn_plan_updated_of(sid, m))
    } else if method == "item/plan/delta"@ {
        opt_events(plan_delta_of(sid, m))
    } else if method == "item/commandExecution/outputDelta"@ || method
        == "command/exec/outputDelta"@ {
        opt_events(command_output_delta_of(sid, m))
    } else if method == "item/fileChange/outputDelta"@ || method
        == "item/fileChange/patchUpdated"@ {
        seq![
            EventView::NativeNotification(
                native_notification_of(
                    sid,
                    m,
                    method,
                    "file"@,
                    notification_title_of(method),
                    Some("updated"@),
                ),
            ),
        ]
    } else if seq_starts_with(method, "thread/realtime/"@) {
        seq![wrapped(5, method_notification(sid, m, method, Some("updated"@)))]
    } else if method == "item/started"@ {
        opt_events(item_started_of(sid, m))
    } else if method == "item/completed"@ {
        opt_events(item_completed_of(sid, m))
    } else if method == "turn/completed"@ {
        seq![
            EventView::AgentMessageCompleted {
                session_id: sid,
                message_id: text_or(first_str(m, turn_or_id_paths()), "codex-turn"@),
                content: None,
                provider_payload: Some(m),
            },
            status_event_of(sid, SessionStatus::Idle, "Codex turn completed."@),
        ]
    } else if method == "error"@ {
        seq![
            EventView::Error {
                session_id: Some(sid),
                code: first_str(m, error_code_paths()),
                message: text_or(first_str(m, error_message_paths()), "Codex reported an error"@),
                provider_payload: Some(m),
            },
        ]
    } else {
        seq![wrapped(0, method_notification(sid, m, method, None))]
    }
}

/// The runner events a Codex message stands for.
pub open spec fn normalized_events(sid: SessionId, m: Json) -> Seq<EventView> {
    match non_jsonrpc_of(sid, m) {
        Some(events) => events,
        None => match jsonrpc_method_spec(m) {
            Some(method) => method_events(sid, m, method),
            None => Seq::empty(),
        },
    }
}

fn notification_events(sid: SessionId, m: &JsonValue, method: &str) -> (r: Vec<NormalizedEvent>)
    ensures
        events_view(r@) == seq![wrapped(notification_kind(method@), method_notification(sid, m@, method@, None))],
{
    let n = method_notification_exec(sid, m, method, None);
    if str_eq(method, "turn/diff/updated") {
        vec1(NormalizedEvent::TurnDiffUpdated(n))
    } else if str_eq(method, "item/reasoning/summaryTextDelta") || str_eq(method, "item/reasoning/summaryPartAdded")
        || str_eq(method, "item/reasoning/textDelta") {
        vec1(NormalizedEvent::ItemReasoning(n))
    } else if str_eq(method, "serverRequest/resolved") {
        vec1(NormalizedEvent::ServerRequestResolved(n))
    } else {
        vec1(NormalizedEvent::McpToolCallProgress(n))
    }
}

fn method_events_exec(sid: SessionId, m: &JsonValue, method: &str) -> (r: Vec<NormalizedEvent>)
    ensures
        events_view(r@) == method_events(sid, m@, method@),
{
    if str_eq(method, "agentMessage/delta") || str_eq(method, "item/agentMessage/delta") {
        vec_opt(text_delta(sid, m))
    } else if str_eq(method, "agentMessage/completed") || str_eq(method, "agentMessage/complete") {
        vec1(message_completed(sid, m))
    } else if str_eq(method, "turn/started") {
        turn_started(sid, m)
    } else if str_eq(method, "thread/status/changed") {
        thread_status_changed(sid, m)
    } else if str_eq(method, "thread/tokenUsage/updated") {
        vec1(token_usage_updated(sid, m))
    } else if str_eq(method, "account/rateLimits/updated") {
        vec1(rate_limits_updated(sid, m))
    } else if str_eq(method, "thread/compacted") {
        vec1(NormalizedEvent::NativeNotification(native_notification(
            sid,
            m,
            "thread/compacted",
            "compaction",
            "Context compacted",
            Some("completed"),
        )))
    } else if str_eq(method, "turn/diff/updated") || str_eq(method, "item/reasoning/summaryTextDelta")
        || str_eq(method, "item/reasoning/summaryPartAdded") || str_eq(method, "item/reasoning/textDelta")
        || str_eq(method, "serverRequest/resolved") || str_eq(method, "item/mcpToolCall/progress")
        || starts_with(method, "mcpServer/") {
        notification_events(sid, m, method)
    } else {
        later_method_events_exec(sid, m, method)
    }
}

fn later_method_events_exec(sid: SessionId, m: &JsonValue, method: &str) -> (r: Vec<NormalizedEvent>)
    ensures
        events_view(r@) == later_method_events(sid, m@, method@),
{
    if str_eq(method, "turn/plan/updated") {
        vec_opt(turn_plan_updated(sid, m))
    } else if str_eq(method, "item/plan/delta") {
        vec_opt(plan_delta(sid, m))
    } else if str_eq(method, "item/commandExecution/outputDelta") || str_eq(method, "command/exec/outputDelta") {
        vec_opt(command_output_delta(sid, m))
    } else if str_eq(method, "item/fileChange/outputDelta") || str_eq(method, "item/fileChange/patchUpdated") {
        let title = native_notification_title(method);
        vec1(NormalizedEvent::NativeNotification(native_notification(
            sid,
            m,
            method,
            "file",
            title.as_str(),
            Some("updated"),
        )))
    } else if starts_with(method, "thread/realtime/") {
        vec1(NormalizedEvent::ThreadRealtimeEvent(method_notification_exec(sid, m, method, Some("updated"))))
    } else if str_eq(method, "item/started") {
        vec_opt(item_started(sid, m))
    } else if str_eq(method, "item/completed") {
        vec_opt(item_completed(sid, m))
    } else if str_eq(method, "turn/completed") {
        let mut v = vec1(NormalizedEvent::AgentMessageCompleted(MessageCompletedEvent {
            session_id: sid,
            message_id: text_or_exec(turn_or_id_at(m), "codex-turn"),
            content: None,
            provider_payload: Some(json_clone(m)),
        }));
        push_event(&mut v, session_status_event(sid, SessionStatus::Idle, "Codex turn completed."));
        v
    } else if str_eq(method, "error") {
        vec1(NormalizedEvent::Error(AgentErrorEvent {
            session_id: Some(sid),
            code: own_opt(error_code_at(m)),
            message: text_or_exec(error_message_at(m), "Codex reported an error"),
            provider_payload: Some(json_clone(m)),
        }))
    } else {
        vec1(NormalizedEvent::NativeNotification(method_notification_exec(sid, m, method, None)))
    }
}

/// The runner events a Codex message stands for: a slash command result or a bare
/// compaction item for messages without a method; for JSON-RPC messages, the events
/// of their method; nothing for anything else.
pub fn normalize_codex_message(session_id: SessionId, message: &JsonValue) -> (r: Vec<NormalizedEvent>)
    ensures
        events_view(r@) == normalized_events(session_id, message@),
{
    match normalize_codex_non_jsonrpc_message(session_id, message) {
        Some(events) => events,
        None => match jsonrpc_method(message) {
            Some(method) => method_events_exec(session_id, message, method),
            None => {
                let v = Vec::new();
                proof {
                    assert(events_view(v@) =~= Seq::<EventView>::empty());
                }
                v
            },
        },
    }
}

} // verus!
