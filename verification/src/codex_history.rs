//! Threads and history read back from Codex: the thread list, and the items of a
//! thread's turns as history entries.
use vstd::prelude::*;
use crate::json::{Json, JsonValue, json_get, json_path, json_as_i64, json_as_array, first_str, first_i64,
    get, as_str, as_i64, as_array, at, values_view, entries_view, json_clone, opt_str, path_view};
use crate::message_paths::{history_message_id_at, history_message_id_paths, history_text_at,
    history_text_paths, history_command_at, history_command_paths, history_detail_at, history_detail_paths,
    history_tool_name_at, history_tool_name_paths, history_change_kind_at, history_change_kind_paths,
    history_part_text_at, history_part_text_paths, thread_updated_text_at, thread_updated_text_paths,
    thread_updated_number_at, thread_updated_number_paths, thread_list_id_at, thread_list_id_paths,
    thread_list_title_at, thread_list_title_paths};
use crate::codex::{text_or, non_empty_text, duration_of};
use crate::codex_questions::{strings_among, strings_among_exec, member_text, member_str};
use crate::events::{opt_s, opt_j};
use crate::model::FileChangeKind;
use crate::text::{owned, str_eq, concat2, join_on, join_strings, nat_decimal, int_decimal, u64_decimal,
    i64_decimal};

verus! {

/// How a tool call in history ended.
#[derive(Clone, Copy, Debug, PartialEq, Eq, Structural)]
pub enum DiscoveredToolStatus {
    Running,
    Completed,
    Failed,
}

/// What became of a file change in history.
#[derive(Clone, Copy, Debug, PartialEq, Eq, Structural)]
pub enum DiscoveredFileChangeStatus {
    Proposed,
    Applied,
    Rejected,
}

/// One action a command in history took (a read, a search, ...).
#[derive(Debug, PartialEq)]
pub struct DiscoveredCommandAction {
    pub kind: String,
    pub command: Option<String>,
    pub path: Option<String>,
    pub name: Option<String>,
    pub query: Option<String>,
    pub provider_payload: Option<JsonValue>,
}

pub struct CommandActionView {
    pub kind: Seq<char>,
    pub command: Option<Seq<char>>,
    pub path: Option<Seq<char>>,
    pub name: Option<Seq<char>>,
    pub query: Option<Seq<char>>,
    pub provider_payload: Option<Json>,
}

impl View for DiscoveredCommandAction {
    type V = CommandActionView;

    open spec fn view(&self) -> CommandActionView {
        CommandActionView {
            kind: self.kind@,
            command: opt_s(self.command),
            path: opt_s(self.path),
            name: opt_s(self.name),
            query: opt_s(self.query),
            provider_payload: opt_j(self.provider_payload),
        }
    }
}

pub open spec fn actions_view(v: Seq<DiscoveredCommandAction>) -> Seq<CommandActionView> {
    v.map_values(|a: DiscoveredCommandAction| a@)
}

/// One entry of a thread's history.
#[derive(Debug, PartialEq)]
pub enum DiscoveredSessionHistoryItem {
    UserMessage { message_id: Option<String>, content: String },
    AgentMessage { message_id: String, content: String },
    Command {
        command_id: String,
        command: String,
        cwd: Option<String>,
        source: Option<String>,
        process_id: Option<String>,
        duration_ms: Option<u64>,
        actions: Vec<DiscoveredCommandAction>,
        output: Option<String>,
        exit_code: Option<i32>,
        success: bool,
        provider_payload: Option<JsonValue>,
    },
    FileChange {
        change_id: String,
        path: String,
        change_kind: FileChangeKind,
        status: DiscoveredFileChangeStatus,
        diff: Option<String>,
        provider_payload: Option<JsonValue>,
    },
    Tool {
        tool_call_id: String,
        name: String,
        title: Option<String>,
        status: DiscoveredToolStatus,
        input: Option<JsonValue>,
        output: Option<JsonValue>,
        provider_payload: Option<JsonValue>,
    },
    Plan { plan_id: String, title: Option<String>, content: String, provider_payload: Option<JsonValue> },
    NativeNotification {
        event_id: Option<String>,
        category: String,
        title: String,
        detail: Option<String>,
        status: Option<String>,
        provider_payload: Option<JsonValue>,
    },
}

pub enum HistoryView {
    UserMessage { message_id: Option<Seq<char>>, content: Seq<char> },
    AgentMessage { message_id: Seq<char>, content: Seq<char> },
    Command {
        command_id: Seq<char>,
        command: Seq<char>,
        cwd: Option<Seq<char>>,
        source: Option<Seq<char>>,
        process_id: Option<Seq<char>>,
        duration_ms: Option<u64>,
        actions: Seq<CommandActionView>,
        output: Option<Seq<char>>,
        exit_code: Option<i32>,
        success: bool,
        provider_payload: Option<Json>,
    },
    FileChange {
        change_id: Seq<char>,
        path: Seq<char>,
        change_kind: FileChangeKind,
        status: DiscoveredFileChangeStatus,
        diff: Option<Seq<char>>,
        provider_payload: Option<Json>,
    },
    Tool {
        tool_call_id: Seq<char>,
        name: Seq<char>,
        title: Option<Seq<char>>,
        status: DiscoveredToolStatus,
        input: Option<Json>,
        output: Option<Json>,
        provider_payload: Option<Json>,
    },
    Plan { plan_id: Seq<char>, title: Option<Seq<char>>, content: Seq<char>, provider_payload: Option<Json> },
    NativeNotification {
        event_id: Option<Seq<char>>,
        category: Seq<char>,
        title: Seq<char>,
        detail: Option<Seq<char>>,
        status: Option<Seq<char>>,
        provider_payload: Option<Json>,
    },
}

impl View for DiscoveredSessionHistoryItem {
    type V = HistoryView;

    open spec fn view(&self) -> HistoryView {
        match self {
            DiscoveredSessionHistoryItem::UserMessage { message_id, content } => HistoryView::UserMessage {
                message_id: opt_s(*message_id),
                content: content@,
            },
            DiscoveredSessionHistoryItem::AgentMessage { message_id, content } => HistoryView::AgentMessage {
                message_id: message_id@,
                content: content@,
            },
            DiscoveredSessionHistoryItem::Command {
                command_id,
                command,
                cwd,
                source,
                process_id,
                duration_ms,
                actions,
                output,
                exit_code,
                success,
                provider_payload,
            } => HistoryView::Command {
                command_id: command_id@,
                command: command@,
                cwd: opt_s(*cwd),
                source: opt_s(*source),
                process_id: opt_s(*process_id),
                duration_ms: *duration_ms,
                actions: actions_view(actions@),
                output: opt_s(*output),
                exit_code: *exit_code,
                success: *success,
                provider_payload: opt_j(*provider_payload),
            },
            DiscoveredSessionHistoryItem::FileChange { change_id, path, change_kind, status, diff, provider_payload } =>
                HistoryView::FileChange {
                change_id: change_id@,
                path: path@,
                change_kind: *change_kind,
                status: *status,
                diff: opt_s(*diff),
                provider_payload: opt_j(*provider_payload),
            },
            DiscoveredSessionHistoryItem::Tool { tool_call_id, name, title, status, input, output, provider_payload } =>
                HistoryView::Tool {
                tool_call_id: tool_call_id@,
                name: name@,
                title: opt_s(*title),
                status: *status,
                input: opt_j(*input),
                output: opt_j(*output),
                provider_payload: opt_j(*provider_payload),
            },
            DiscoveredSessionHistoryItem::Plan { plan_id, title, content, provider_payload } => HistoryView::Plan {
                plan_id: plan_id@,
                title: opt_s(*title),
                content: content@,
                provider_payload: opt_j(*provider_payload),
            },
            DiscoveredSessionHistoryItem::NativeNotification { event_id, category, title, detail, status, provider_payload } =>
                HistoryView::NativeNotification {
                event_id: opt_s(*event_id),
                category: category@,
                title: title@,
                detail: opt_s(*detail),
                status: opt_s(*status),
                provider_payload: opt_j(*provider_payload),
            },
        }
    }
}

pub open spec fn history_view(v: Seq<DiscoveredSessionHistoryItem>) -> Seq<HistoryView> {
    v.map_values(|i: DiscoveredSessionHistoryItem| i@)
}

fn own(o: Option<&str>) -> (r: Option<String>)
    ensures
        opt_s(r) == opt_str(o),
{
    match o {
        Some(s) => Some(owned(s)),
        None => None,
    }
}

fn or_default(o: Option<&str>, d: &str) -> (r: String)
    ensures
        r@ == text_or(opt_str(o), d@),
{
    match o {
        Some(s) => owned(s),
        None => owned(d),
    }
}

fn push_item(items: &mut Vec<DiscoveredSessionHistoryItem>, item: DiscoveredSessionHistoryItem)
    ensures
        history_view(final(items)@) == history_view(old(items)@).push(item@),
{
    let ghost before = items@;
    items.push(item);
    proof {
        assert(history_view(items@) =~= history_view(before).push(item@));
    }
}

/// The integer member `key` of a value.
pub open spec fn member_int(v: Json, key: Seq<char>) -> Option<i64> {
    match json_get(v, key) {
        Some(x) => json_as_i64(x),
        None => None,
    }
}

fn member_int_exec(v: &JsonValue, key: &str) -> (r: Option<i64>)
    ensures
        r == member_int(v@, key@),
{
    match get(v, key) {
        Some(x) => as_i64(x),
        None => None,
    }
}

/// The array member `key` of a value, when it is an array.
pub open spec fn member_items(v: Json, key: Seq<char>) -> Option<Seq<Json>> {
    match json_get(v, key) {
        Some(x) => json_as_array(x),
        None => None,
    }
}

fn member_items_exec<'a>(v: &'a JsonValue, key: &str) -> (r: Option<&'a Vec<JsonValue>>)
    ensures
        match r {
            Some(a) => member_items(v@, key@) == Some(values_view(a@)),
            None => member_items(v@, key@) is None,
        },
{
    match get(v, key) {
        Some(x) => as_array(x),
        None => None,
    }
}

// ---------------------------------------------------------------------------
// Text content
// ---------------------------------------------------------------------------

/// The texts of content parts, concatenated.
pub open spec fn parts_text(parts: Seq<Json>) -> Seq<char>
    decreases parts.len(),
{
    if parts.len() == 0 {
        Seq::empty()
    } else {
        parts_text(parts.drop_last()) + text_or(first_str(parts.last(), history_part_text_paths()), Seq::empty())
    }
}

/// The text of a message item: a text member, else its content parts' texts.
pub open spec fn text_content_of(v: Json) -> Option<Seq<char>> {
    match first_str(v, history_text_paths()) {
        Some(s) => Some(s),
        None => match member_items(v, "content"@) {
            Some(parts) => non_empty_text(parts_text(parts)),
            None => None,
        },
    }
}

fn text_content(v: &JsonValue) -> (r: Option<String>)
    ensures
        opt_s(r) == text_content_of(v@),
{
    match history_text_at(v) {
        Some(s) => Some(owned(s)),
        None => match member_items_exec(v, "content") {
            Some(parts) => {
                let ghost pv = values_view(parts@);
                let mut out = String::new();
                let mut i: usize = 0;
                proof {
                    assert(pv.subrange(0, 0) =~= Seq::<Json>::empty());
                }
                while i < parts.len()
                    invariant
                        i <= parts.len(),
                        pv == values_view(parts@),
                        out@ == parts_text(pv.subrange(0, i as int)),
                    decreases parts.len() - i,
                {
                    proof {
                        assert(pv.subrange(0, i + 1).drop_last() =~= pv.subrange(0, i as int));
                        assert(pv.subrange(0, i + 1).last() == parts@[i as int]@);
                    }
                    match history_part_text_at(&parts[i]) {
                        Some(t) => {
                            out.append(t);
                        },
                        None => {
                            proof {
                                assert(out@ + Seq::<char>::empty() =~= out@);
                            }
                        },
                    }
                    i = i + 1;
                }
                proof {
                    assert(pv.subrange(0, parts@.len() as int) =~= pv);
                }
                if out.as_str().unicode_len() == 0 {
                    None
                } else {
                    Some(out)
                }
            },
            None => None,
        },
    }
}

/// Whether a message item has content that is not text.
pub open spec fn has_fallback_content(v: Json) -> bool {
    match json_get(v, "content"@) {
        Some(Json::Array(parts)) => parts.len() > 0,
        Some(Json::Object(_)) => true,
        _ => false,
    }
}

fn has_fallback_content_exec(v: &JsonValue) -> (r: bool)
    ensures
        r == has_fallback_content(v@),
{
    match get(v, "content") {
        Some(JsonValue::Array(parts)) => parts.len() > 0,
        Some(JsonValue::Object(_)) => true,
        _ => false,
    }
}

/// The text of a plan item.
pub open spec fn plan_text_of(v: Json) -> Option<Seq<char>> {
    match text_content_of(v) {
        Some(s) => Some(s),
        None => match member_text(v, "text"@) {
            Some(t) => non_empty_text(t),
            None => None,
        },
    }
}

fn plan_text(v: &JsonValue) -> (r: Option<String>)
    ensures
        opt_s(r) == plan_text_of(v@),
{
    match text_content(v) {
        Some(s) => Some(s),
        None => match member_str(v, "text") {
            Some(t) => if t.unicode_len() == 0 {
                None
            } else {
                Some(owned(t))
            },
            None => None,
        },
    }
}

/// The command line of a command item: a command member, else its argv joined by
/// spaces; never empty.
pub open spec fn command_line_of(v: Json) -> Option<Seq<char>> {
    let line = match first_str(v, history_command_paths()) {
        Some(s) => Some(s),
        None => match member_items(v, "argv"@) {
            Some(parts) => Some(join_on(strings_among(parts), " "@)),
            None => None,
        },
    };
    match line {
        Some(l) => non_empty_text(l),
        None => None,
    }
}

fn command_line(v: &JsonValue) -> (r: Option<String>)
    ensures
        opt_s(r) == command_line_of(v@),
{
    let line = match history_command_at(v) {
        Some(s) => Some(owned(s)),
        None => match member_items_exec(v, "argv") {
            Some(parts) => {
                let strs = strings_among_exec(parts);
                Some(join_strings(&strs, " "))
            },
            None => None,
        },
    };
    match line {
        Some(l) => if l.as_str().unicode_len() == 0 {
            None
        } else {
            Some(l)
        },
        None => None,
    }
}

// ---------------------------------------------------------------------------
// Items
// ---------------------------------------------------------------------------

/// A history item shown as a native notification of its own type.
pub open spec fn item_notification_of(v: Json, wire_type: Seq<char>) -> HistoryView {
    HistoryView::NativeNotification {
        event_id: first_str(v, history_message_id_paths()),
        category: "codex_thread_item"@,
        title: wire_type,
        detail: first_str(v, history_detail_paths()),
        status: member_text(v, "status"@),
        provider_payload: Some(v),
    }
}

fn item_notification(v: &JsonValue, wire_type: &str) -> (r: DiscoveredSessionHistoryItem)
    ensures
        r@ == item_notification_of(v@, wire_type@),
{
    DiscoveredSessionHistoryItem::NativeNotification {
        event_id: own(history_message_id_at(v)),
        category: owned("codex_thread_item"),
        title: owned(wire_type),
        detail: own(history_detail_at(v)),
        status: own(member_str(v, "status")),
        provider_payload: Some(json_clone(v)),
    }
}

pub open spec fn tool_status_of(v: Json) -> DiscoveredToolStatus {
    if member_text(v, "status"@) == Some("completed"@) {
        DiscoveredToolStatus::Completed
    } else if member_text(v, "status"@) == Some("failed"@) {
        DiscoveredToolStatus::Failed
    } else {
        DiscoveredToolStatus::Running
    }
}

fn tool_status(v: &JsonValue) -> (r: DiscoveredToolStatus)
    ensures
        r == tool_status_of(v@),
{
    match member_str(v, "status") {
        Some(s) => if str_eq(s, "completed") {
            DiscoveredToolStatus::Completed
        } else if str_eq(s, "failed") {
            DiscoveredToolStatus::Failed
        } else {
            DiscoveredToolStatus::Running
        },
        None => DiscoveredToolStatus::Running,
    }
}

pub open spec fn file_change_status_of(v: Json) -> DiscoveredFileChangeStatus {
    match member_text(v, "status"@) {
        Some(s) => if s == "applied"@ || s == "completed"@ {
            DiscoveredFileChangeStatus::Applied
        } else if s == "rejected"@ || s == "failed"@ {
            DiscoveredFileChangeStatus::Rejected
        } else {
            DiscoveredFileChangeStatus::Proposed
        },
        None => DiscoveredFileChangeStatus::Proposed,
    }
}

fn file_change_status(v: &JsonValue) -> (r: DiscoveredFileChangeStatus)
    ensures
        r == file_change_status_of(v@),
{
    match member_str(v, "status") {
        Some(s) => if str_eq(s, "applied") || str_eq(s, "completed") {
            DiscoveredFileChangeStatus::Applied
        } else if str_eq(s, "rejected") || str_eq(s, "failed") {
            DiscoveredFileChangeStatus::Rejected
        } else {
            DiscoveredFileChangeStatus::Proposed
        },
        None => DiscoveredFileChangeStatus::Proposed,
    }
}

pub open spec fn change_kind_of(change: Json) -> FileChangeKind {
    match first_str(change, history_change_kind_paths()) {
        Some(k) => if k == "add"@ || k == "create"@ {
            FileChangeKind::Create
        } else if k == "delete"@ || k == "remove"@ {
            FileChangeKind::Delete
        } else if k == "rename"@ || k == "move"@ {
            FileChangeKind::Rename
        } else {
            FileChangeKind::Modify
        },
        None => FileChangeKind::Modify,
    }
}

fn change_kind(change: &JsonValue) -> (r: FileChangeKind)
    ensures
        r == change_kind_of(change@),
{
    match history_change_kind_at(change) {
        Some(k) => if str_eq(k, "add") || str_eq(k, "create") {
            FileChangeKind::Create
        } else if str_eq(k, "delete") || str_eq(k, "remove") {
            FileChangeKind::Delete
        } else if str_eq(k, "rename") || str_eq(k, "move") {
            FileChangeKind::Rename
        } else {
            FileChangeKind::Modify
        },
        None => FileChangeKind::Modify,
    }
}

/// One command action.
pub open spec fn action_of(a: Json) -> CommandActionView {
    CommandActionView {
        kind: text_or(member_text(a, "type"@), "unknown"@),
        command: member_text(a, "command"@),
        path: member_text(a, "path"@),
        name: member_text(a, "name"@),
        query: member_text(a, "query"@),
        provider_payload: Some(a),
    }
}

/// The actions of a command item.
pub open spec fn actions_of(v: Json) -> Seq<CommandActionView> {
    match member_items(v, "commandActions"@) {
        Some(a) => a.map_values(|x: Json| action_of(x)),
        None => Seq::empty(),
    }
}

fn command_actions(v: &JsonValue) -> (r: Vec<DiscoveredCommandAction>)
    ensures
        actions_view(r@) == actions_of(v@),
{
    let mut out: Vec<DiscoveredCommandAction> = Vec::new();
    match member_items_exec(v, "commandActions") {
        Some(a) => {
            let mut i: usize = 0;
            while i < a.len()
                invariant
                    i <= a.len(),
                    actions_view(out@) =~= values_view(a@).subrange(0, i as int).map_values(
                        |x: Json| action_of(x),
                    ),
                decreases a.len() - i,
            {
                let x = &a[i];
                let action = DiscoveredCommandAction {
                    kind: or_default(member_str(x, "type"), "unknown"),
                    command: own(member_str(x, "command")),
                    path: own(member_str(x, "path")),
                    name: own(member_str(x, "name")),
                    query: own(member_str(x, "query")),
                    provider_payload: Some(json_clone(x)),
                };
                let ghost before = out@;
                out.push(action);
                proof {
                    assert(actions_view(out@) =~= actions_view(before).push(action_of(x@)));
                }
                i = i + 1;
            }
            proof {
                assert(values_view(a@).subrange(0, a@.len() as int) =~= values_view(a@));
            }
        },
        None => {
            proof {
                assert(actions_view(out@) =~= Seq::<CommandActionView>::empty());
            }
        },
    }
    out
}

/// The file changes of the first `n` changes of a file change item: one per change
/// with a path, numbered by its position.
pub open spec fn file_changes_of(v: Json, changes: Seq<Json>, n: nat) -> Seq<HistoryView>
    decreases n,
{
    if n == 0 {
        Seq::empty()
    } else {
        let earlier = file_changes_of(v, changes, (n - 1) as nat);
        let change = changes[n - 1];
        match member_text(change, "path"@) {
            Some(path) => earlier.push(
                HistoryView::FileChange {
                    change_id: text_or(member_text(v, "id"@), "codex-file-change"@) + ":"@ + nat_decimal(
                        (n - 1) as nat,
                    ),
                    path,
                    change_kind: change_kind_of(change),
                    status: file_change_status_of(v),
                    diff: member_text(change, "diff"@),
                    provider_payload: Some(v),
                },
            ),
            None => earlier,
        }
    }
}

/// The history entries of one thread item.
pub open spec fn history_items_of(v: Json) -> Seq<HistoryView> {
    match member_text(v, "type"@) {
        None => Seq::empty(),
        Some(t) => if t == "userMessage"@ {
            match text_content_of(v) {
                Some(c) => seq![HistoryView::UserMessage { message_id: first_str(v, history_message_id_paths()), content: c }],
                None => if has_fallback_content(v) {
                    seq![item_notification_of(v, t)]
                } else {
                    Seq::empty()
                },
            }
        } else if t == "agentMessage"@ {
            match text_content_of(v) {
                Some(c) => seq![
                    HistoryView::AgentMessage {
                        message_id: text_or(first_str(v, history_message_id_paths()), "codex-agent-message"@),
                        content: c,
                    },
                ],
                None => if has_fallback_content(v) {
                    seq![item_notification_of(v, t)]
                } else {
                    Seq::empty()
                },
            }
        } else if t == "commandExecution"@ {
            match command_line_of(v) {
                Some(c) => {
                    let status = member_text(v, "status"@);
                    let exit_code = match member_int(v, "exitCode"@) {
                        Some(n) => Some(n as i32),
                        None => None,
                    };
                    seq![
                        HistoryView::Command {
                            command_id: text_or(member_text(v, "id"@), "codex-command"@),
                            command: c,
                            cwd: member_text(v, "cwd"@),
                            source: member_text(v, "source"@),
                            process_id: member_text(v, "processId"@),
                            duration_ms: duration_of(member_int(v, "durationMs"@)),
                            actions: actions_of(v),
                            output: member_text(v, "aggregatedOutput"@),
                            exit_code,
                            success: match exit_code {
                                Some(code) => code == 0,
                                None => status != Some("failed"@),
                            },
                            provider_payload: Some(v),
                        },
                    ]
                },
                None => seq![item_notification_of(v, t)],
            }
        } else if t == "fileChange"@ {
            let changes = match member_items(v, "changes"@) {
                Some(ch) => file_changes_of(v, ch, ch.len()),
                None => Seq::empty(),
            };
            if changes.len() == 0 {
                seq![item_notification_of(v, t)]
            } else {
                changes
            }
        } else if t == "collabAgentToolCall"@ {
            seq![
                HistoryView::Tool {
                    tool_call_id: text_or(member_text(v, "id"@), "codex-tool"@),
                    name: text_or(member_text(v, "tool"@), "codex_tool"@),
                    title: member_text(v, "tool"@),
                    status: tool_status_of(v),
                    input: Some(v),
                    output: json_get(v, "agentsStates"@),
                    provider_payload: Some(v),
                },
            ]
        } else if t == "mcpToolCall"@ {
            let server_name = match json_get(v, "serverInfo"@) {
                Some(info) => member_text(info, "name"@),
                None => None,
            };
            let name = match first_str(v, history_tool_name_paths()) {
                Some(n) => n,
                None => text_or(server_name, "mcp_tool"@),
            };
            seq![
                HistoryView::Tool {
                    tool_call_id: text_or(member_text(v, "id"@), "codex-mcp-tool"@),
                    name,
                    title: Some(name),
                    status: tool_status_of(v),
                    input: Some(v),
                    output: match json_get(v, "output"@) {
                        Some(o) => Some(o),
                        None => json_get(v, "result"@),
                    },
                    provider_payload: Some(v),
                },
            ]
        } else if t == "plan"@ {
            match plan_text_of(v) {
                Some(c) => seq![
                    HistoryView::Plan {
                        plan_id: text_or(member_text(v, "id"@), "codex-plan"@),
                        title: Some("Implementation plan"@),
                        content: c,
                        provider_payload: Some(v),
                    },
                ],
                None => seq![item_notification_of(v, t)],
            }
        } else if t == "contextCompaction"@ {
            seq![
                HistoryView::NativeNotification {
                    event_id: member_text(v, "id"@),
                    category: "compaction"@,
                    title: "Context compacted"@,
                    detail: None,
                    status: Some("completed"@),
                    provider_payload: Some(v),
                },
            ]
        } else {
            seq![item_notification_of(v, t)]
        }
    }
}

fn message_items(v: &JsonValue, t: &str, items: &mut Vec<DiscoveredSessionHistoryItem>, agent: bool)
    requires
        !agent ==> t@ == "userMessage"@,
        agent ==> t@ == "agentMessage"@ && t@ != "userMessage"@,
        member_text(v@, "type"@) == Some(t@),
    ensures
        history_view(final(items)@) == history_view(old(items)@) + history_items_of(v@),
{
    let ghost start = history_view(items@);
    match text_content(v) {
        Some(content) => {
            if agent {
                push_item(
                    items,
                    DiscoveredSessionHistoryItem::AgentMessage {
                        message_id: or_default(history_message_id_at(v), "codex-agent-message"),
                        content,
                    },
                );
            } else {
                push_item(
                    items,
                    DiscoveredSessionHistoryItem::UserMessage { message_id: own(history_message_id_at(v)), content },
                );
            }
        },
        None => {
            if has_fallback_content_exec(v) {
                push_item(items, item_notification(v, t));
            }
        },
    }
    proof {
        assert(history_view(items@) =~= start + history_items_of(v@));
    }
}

fn command_items(v: &JsonValue, t: &str, items: &mut Vec<DiscoveredSessionHistoryItem>)
    requires
        t@ == "commandExecution"@,
        t@ != "userMessage"@ && t@ != "agentMessage"@,
        member_text(v@, "type"@) == Some(t@),
    ensures
        history_view(final(items)@) == history_view(old(items)@) + history_items_of(v@),
{
    let ghost start = history_view(items@);
    match command_line(v) {
        Some(command) => {
            let status = member_str(v, "status");
            let exit_code: Option<i32> = match member_int_exec(v, "exitCode") {
                Some(n) => Some(n as i32),
                None => None,
            };
            let success = match exit_code {
                Some(code) => code == 0,
                None => match status {
                    Some(s) => !str_eq(s, "failed"),
                    None => true,
                },
            };
            let duration_ms = match member_int_exec(v, "durationMs") {
                Some(n) => if n >= 0 {
                    Some(n as u64)
                } else {
                    None
                },
                None => None,
            };
            push_item(
                items,
                DiscoveredSessionHistoryItem::Command {
                    command_id: or_default(member_str(v, "id"), "codex-command"),
                    command,
                    cwd: own(member_str(v, "cwd")),
                    source: own(member_str(v, "source")),
                    process_id: own(member_str(v, "processId")),
                    duration_ms,
                    actions: command_actions(v),
                    output: own(member_str(v, "aggregatedOutput")),
                    exit_code,
                    success,
                    provider_payload: Some(json_clone(v)),
                },
            );
        },
        None => {
            push_item(items, item_notification(v, t));
        },
    }
    proof {
        assert(history_view(items@) =~= start + history_items_of(v@));
    }
}

fn file_change_items(v: &JsonValue, t: &str, items: &mut Vec<DiscoveredSessionHistoryItem>)
    requires
        t@ == "fileChange"@,
        t@ != "userMessage"@ && t@ != "agentMessage"@ && t@ != "commandExecution"@,
        member_text(v@, "type"@) == Some(t@),
    ensures
        history_view(final(items)@) == history_view(old(items)@) + history_items_of(v@),
{
    let ghost start = history_view(items@);
    let mut pushed = false;
    match member_items_exec(v, "changes") {
        Some(changes) => {
            let ghost cv = values_view(changes@);
            let mut i: usize = 0;
            let id = or_default(member_str(v, "id"), "codex-file-change");
            while i < changes.len()
                invariant
                    i <= changes.len(),
                    cv == values_view(changes@),
                    id@ == text_or(member_text(v@, "id"@), "codex-file-change"@),
                    history_view(items@) == start + file_changes_of(v@, cv, i as nat),
                    pushed == (file_changes_of(v@, cv, i as nat).len() > 0),
                decreases changes.len() - i,
            {
                let change = &changes[i];
                match member_str(change, "path") {
                    Some(path) => {
                        let mut change_id = concat2(id.as_str(), ":");
                        let index = u64_decimal(i as u64);
                        change_id.append(index.as_str());
                        let ghost before = history_view(items@);
                        push_item(
                            items,
                            DiscoveredSessionHistoryItem::FileChange {
                                change_id,
                                path: owned(path),
                                change_kind: change_kind(change),
                                status: file_change_status(v),
                                diff: own(member_str(change, "diff")),
                                provider_payload: Some(json_clone(v)),
                            },
                        );
                        pushed = true;
                        proof {
                            assert(cv[i as int] == change@);
                            assert(history_view(items@) =~= start + file_changes_of(v@, cv, (i + 1) as nat));
                        }
                    },
                    None => {
                        proof {
                            assert(cv[i as int] == change@);
                        }
                    },
                }
                i = i + 1;
            }
        },
        None => {
            proof {
                assert(start + Seq::<HistoryView>::empty() =~= start);
            }
        },
    }
    if !pushed {
        push_item(items, item_notification(v, t));
    }
    proof {
        assert(history_view(items@) =~= start + history_items_of(v@));
    }
}

fn tool_items(v: &JsonValue, t: &str, items: &mut Vec<DiscoveredSessionHistoryItem>)
    requires
        t@ == "collabAgentToolCall"@ || t@ == "mcpToolCall"@,
        t@ != "userMessage"@ && t@ != "agentMessage"@ && t@ != "commandExecution"@ && t@ != "fileChange"@,
        member_text(v@, "type"@) == Some(t@),
    ensures
        history_view(final(items)@) == history_view(old(items)@) + history_items_of(v@),
{
    let ghost start = history_view(items@);
    if str_eq(t, "collabAgentToolCall") {
        push_item(
            items,
            DiscoveredSessionHistoryItem::Tool {
                tool_call_id: or_default(member_str(v, "id"), "codex-tool"),
                name: or_default(member_str(v, "tool"), "codex_tool"),
                title: own(member_str(v, "tool")),
                status: tool_status(v),
                input: Some(json_clone(v)),
                output: match get(v, "agentsStates") {
                    Some(o) => Some(json_clone(o)),
                    None => None,
                },
                provider_payload: Some(json_clone(v)),
            },
        );
    } else {
        let server_name = match get(v, "serverInfo") {
            Some(info) => member_str(info, "name"),
            None => None,
        };
        let name: &str = match history_tool_name_at(v) {
            Some(n) => n,
            None => match server_name {
                Some(s) => s,
                None => "mcp_tool",
            },
        };
        let output = match get(v, "output") {
            Some(o) => Some(json_clone(o)),
            None => match get(v, "result") {
                Some(o) => Some(json_clone(o)),
                None => None,
            },
        };
        push_item(
            items,
            DiscoveredSessionHistoryItem::Tool {
                tool_call_id: or_default(member_str(v, "id"), "codex-mcp-tool"),
                name: owned(name),
                title: Some(owned(name)),
                status: tool_status(v),
                input: Some(json_clone(v)),
                output,
                provider_payload: Some(json_clone(v)),
            },
        );
    }
    proof {
        assert(history_view(items@) =~= start + history_items_of(v@));
    }
}

fn other_items(v: &JsonValue, t: &str, items: &mut Vec<DiscoveredSessionHistoryItem>)
    requires
        !(t@ == "userMessage"@ || t@ == "agentMessage"@ || t@ == "commandExecution"@ || t@ == "fileChange"@
            || t@ == "collabAgentToolCall"@ || t@ == "mcpToolCall"@),
        member_text(v@, "type"@) == Some(t@),
    ensures
        history_view(final(items)@) == history_view(old(items)@) + history_items_of(v@),
{
    let ghost start = history_view(items@);
    if str_eq(t, "plan") {
        match plan_text(v) {
            Some(content) => {
                push_item(
                    items,
                    DiscoveredSessionHistoryItem::Plan {
                        plan_id: or_default(member_str(v, "id"), "codex-plan"),
                        title: Some(owned("Implementation plan")),
                        content,
                        provider_payload: Some(json_clone(v)),
                    },
                );
            },
            None => {
                push_item(items, item_notification(v, t));
            },
        }
    } else if str_eq(t, "contextCompaction") {
        push_item(
            items,
            DiscoveredSessionHistoryItem::NativeNotification {
                event_id: own(member_str(v, "id")),
                category: owned("compaction"),
                title: owned("Context compacted"),
                detail: None,
                status: Some(owned("completed")),
                provider_payload: Some(json_clone(v)),
            },
        );
    } else {
        push_item(items, item_notification(v, t));
    }
    proof {
        assert(history_view(items@) =~= start + history_items_of(v@));
    }
}

/// Appends the history entries of one thread item.
pub fn collect_codex_history_item(v: &JsonValue, items: &mut Vec<DiscoveredSessionHistoryItem>)
    ensures
        history_view(final(items)@) == history_view(old(items)@) + history_items_of(v@),
{
    let t = match member_str(v, "type") {
        Some(t) => t,
        None => {
            proof {
                assert(history_view(items@) + Seq::<HistoryView>::empty() =~= history_view(items@));
            }
            return;
        },
    };
    if str_eq(t, "userMessage") {
        message_items(v, t, items, false);
    } else if str_eq(t, "agentMessage") {
        message_items(v, t, items, true);
    } else if str_eq(t, "commandExecution") {
        command_items(v, t, items);
    } else if str_eq(t, "fileChange") {
        file_change_items(v, t, items);
    } else if str_eq(t, "collabAgentToolCall") || str_eq(t, "mcpToolCall") {
        tool_items(v, t, items);
    } else {
        other_items(v, t, items);
    }
}

// ---------------------------------------------------------------------------
// Walking a response for items
// ---------------------------------------------------------------------------

/// The history entries found in a JSON tree: an object that is a thread item gives its
/// entries; any other object or array gives those of its members, in order.
pub open spec fn tree_items_of(v: Json) -> Seq<HistoryView>
    decreases v, 1nat,
{
    match v {
        Json::Object(e) => {
            let own = history_items_of(v);
            if own.len() > 0 {
                own
            } else {
                members_items_of(e)
            }
        },
        Json::Array(a) => elements_items_of(a),
        _ => Seq::empty(),
    }
}

/// The history entries found in the members of an object.
pub open spec fn members_items_of(e: Seq<(Seq<char>, Json)>) -> Seq<HistoryView>
    decreases e, 0nat,
{
    if e.len() == 0 {
        Seq::empty()
    } else {
        proof {
            assert(decreases_to!(e => e.subrange(0, e.len() - 1)));
            assert(decreases_to!(e => e[e.len() - 1]));
        }
        members_items_of(e.subrange(0, e.len() - 1)) + tree_items_of(e[e.len() - 1].1)
    }
}

/// The history entries found in the elements of an array.
pub open spec fn elements_items_of(a: Seq<Json>) -> Seq<HistoryView>
    decreases a, 0nat,
{
    if a.len() == 0 {
        Seq::empty()
    } else {
        proof {
            assert(decreases_to!(a => a.subrange(0, a.len() - 1)));
        }
        elements_items_of(a.subrange(0, a.len() - 1)) + tree_items_of(a[a.len() - 1])
    }
}

/// Appends the history entries found in a JSON tree.
pub fn collect_codex_history_items(v: &JsonValue, items: &mut Vec<DiscoveredSessionHistoryItem>)
    ensures
        history_view(final(items)@) == history_view(old(items)@) + tree_items_of(v@),
    decreases v,
{
    let ghost start = history_view(items@);
    match v {
        JsonValue::Object(o) => {
            let before_len = items.len();
            assert(start.len() == before_len);
            collect_codex_history_item(v, items);
            assert(history_view(items@).len() == items@.len());
            if items.len() != before_len {
                return;
            }
            proof {
                assert(history_items_of(v@).len() == 0);
                assert(history_view(items@) =~= start);
                crate::json::lemma_object_view(*o);
            }
            let ghost ev = entries_view(o@);
            let mut i: usize = 0;
            proof {
                assert(ev.subrange(0, 0).len() == 0);
                assert(history_view(items@) =~= start + members_items_of(ev.subrange(0, 0)));
            }
            while i < o.len()
                invariant
                    *v == JsonValue::Object(*o),
                    v@ == Json::Object(ev),
                    ev == entries_view(o@),
                    history_items_of(v@).len() == 0,
                    i <= o.len(),
                    history_view(items@) == start + members_items_of(ev.subrange(0, i as int)),
                decreases o.len() - i,
            {
                assert(decreases_to!(*v => (*v)->Object_0));
                assert(decreases_to!(*o => o[i as int]));
                assert(decreases_to!(o[i as int] => o[i as int].1));
                collect_codex_history_items(&o[i].1, items);
                proof {
                    let sub = ev.subrange(0, i + 1);
                    assert(sub.subrange(0, i as int) =~= ev.subrange(0, i as int));
                    assert(sub[i as int].1 == o@[i as int].1@);
                    assert(history_view(items@) =~= start + members_items_of(sub));
                }
                i = i + 1;
            }
            proof {
                assert(ev.subrange(0, o@.len() as int) =~= ev);
            }
        },
        JsonValue::Array(a) => {
            let ghost av = match v@ {
                Json::Array(x) => x,
                _ => Seq::empty(),
            };
            let mut i: usize = 0;
            proof {
                assert(av.subrange(0, 0).len() == 0);
                assert(history_view(items@) =~= start + elements_items_of(av.subrange(0, 0)));
            }
            while i < a.len()
                invariant
                    *v == JsonValue::Array(*a),
                    v@ == Json::Array(av),
                    av.len() == a@.len(),
                    forall|j: int| 0 <= j < a@.len() ==> av[j] == #[trigger] a@[j]@,
                    i <= a.len(),
                    history_view(items@) == start + elements_items_of(av.subrange(0, i as int)),
                decreases a.len() - i,
            {
                assert(decreases_to!(*v => (*v)->Array_0));
                assert(decreases_to!(*a => a[i as int]));
                collect_codex_history_items(&a[i], items);
                proof {
                    let sub = av.subrange(0, i + 1);
                    assert(sub.subrange(0, i as int) =~= av.subrange(0, i as int));
                    assert(sub[i as int] == a@[i as int]@);
                    assert(history_view(items@) =~= start + elements_items_of(sub));
                }
                i = i + 1;
            }
            proof {
                assert(av.subrange(0, a@.len() as int) =~= av);
            }
        },
        _ => {
            proof {
                assert(history_view(items@) =~= start + tree_items_of(v@));
            }
        },
    }
}

/// The history entries of a list of thread items.
pub open spec fn items_history_of(items: Seq<Json>) -> Seq<HistoryView>
    decreases items.len(),
{
    if items.len() == 0 {
        Seq::empty()
    } else {
        items_history_of(items.drop_last()) + history_items_of(items.last())
    }
}

/// The history entries of a list of turns: the items of each turn, in order.
pub open spec fn turns_history_of(turns: Seq<Json>) -> Seq<HistoryView>
    decreases turns.len(),
{
    if turns.len() == 0 {
        Seq::empty()
    } else {
        turns_history_of(turns.drop_last()) + match member_items(turns.last(), "items"@) {
            Some(items) => items_history_of(items),
            None => Seq::empty(),
        }
    }
}

/// The turns of a `thread/read` response, when it lists them.
pub open spec fn turns_of(m: Json) -> Option<Seq<Json>> {
    match json_path(m, seq!["result"@, "thread"@, "turns"@]) {
        Some(x) => json_as_array(x),
        None => None,
    }
}

/// The history of a `thread/read` response: the items of its turns, or else every
/// thread item found anywhere in it.
pub open spec fn thread_history_of(m: Json) -> Seq<HistoryView> {
    match turns_of(m) {
        Some(turns) => turns_history_of(turns),
        None => tree_items_of(m),
    }
}

fn collect_items_list(list: &Vec<JsonValue>, items: &mut Vec<DiscoveredSessionHistoryItem>)
    ensures
        history_view(final(items)@) == history_view(old(items)@) + items_history_of(values_view(list@)),
{
    let ghost start = history_view(items@);
    let ghost lv = values_view(list@);
    let mut i: usize = 0;
    proof {
        assert(lv.subrange(0, 0) =~= Seq::<Json>::empty());
        assert(history_view(items@) =~= start + items_history_of(lv.subrange(0, 0)));
    }
    while i < list.len()
        invariant
            i <= list.len(),
            lv == values_view(list@),
            history_view(items@) == start + items_history_of(lv.subrange(0, i as int)),
        decreases list.len() - i,
    {
        proof {
            assert(lv.subrange(0, i + 1).drop_last() =~= lv.subrange(0, i as int));
            assert(lv.subrange(0, i + 1).last() == list@[i as int]@);
        }
        collect_codex_history_item(&list[i], items);
        proof {
            assert(history_view(items@) =~= start + items_history_of(lv.subrange(0, i + 1)));
        }
        i = i + 1;
    }
    proof {
        assert(lv.subrange(0, list@.len() as int) =~= lv);
    }
}

/// The history of a `thread/read` response.
pub fn codex_history_from_thread_read_response(m: &JsonValue) -> (r: Vec<DiscoveredSessionHistoryItem>)
    ensures
        history_view(r@) == thread_history_of(m@),
{
    let mut items: Vec<DiscoveredSessionHistoryItem> = Vec::new();
    proof {
        assert(history_view(items@) =~= Seq::<HistoryView>::empty());
    }
    let path: [&str; 3] = ["result", "thread", "turns"];
    proof {
        assert(path_view(path@) =~= seq!["result"@, "thread"@, "turns"@]);
    }
    let turns = match at(m, &path) {
        Some(x) => as_array(x),
        None => None,
    };
    match turns {
        Some(turns) => {
            let ghost tv = values_view(turns@);
            let mut i: usize = 0;
            proof {
                assert(tv.subrange(0, 0) =~= Seq::<Json>::empty());
                assert(history_view(items@) =~= turns_history_of(tv.subrange(0, 0)));
            }
            while i < turns.len()
                invariant
                    i <= turns.len(),
                    tv == values_view(turns@),
                    history_view(items@) == turns_history_of(tv.subrange(0, i as int)),
                decreases turns.len() - i,
            {
                proof {
                    assert(tv.subrange(0, i + 1).drop_last() =~= tv.subrange(0, i as int));
                    assert(tv.subrange(0, i + 1).last() == turns@[i as int]@);
                }
                let ghost before = history_view(items@);
                match member_items_exec(&turns[i], "items") {
                    Some(list) => {
                        collect_items_list(list, &mut items);
                    },
                    None => {
                        proof {
                            assert(before + Seq::<HistoryView>::empty() =~= before);
                        }
                    },
                }
                i = i + 1;
            }
            proof {
                assert(tv.subrange(0, turns@.len() as int) =~= tv);
            }
        },
        None => {
            collect_codex_history_items(m, &mut items);
            proof {
                assert(Seq::<HistoryView>::empty() + tree_items_of(m@) =~= tree_items_of(m@));
            }
        },
    }
    items
}

// ---------------------------------------------------------------------------
// Thread list
// ---------------------------------------------------------------------------

/// A thread Codex lists for the workspace.
#[derive(Clone, Debug, PartialEq, Eq)]
pub struct CodexDiscoveredThread {
    pub external_session_id: String,
    pub title: Option<String>,
    pub updated_at: Option<String>,
}

pub struct ThreadView {
    pub external_session_id: Seq<char>,
    pub title: Option<Seq<char>>,
    pub updated_at: Option<Seq<char>>,
}

impl View for CodexDiscoveredThread {
    type V = ThreadView;

    open spec fn view(&self) -> ThreadView {
        ThreadView {
            external_session_id: self.external_session_id@,
            title: opt_s(self.title),
            updated_at: opt_s(self.updated_at),
        }
    }
}

pub open spec fn threads_view(v: Seq<CodexDiscoveredThread>) -> Seq<ThreadView> {
    v.map_values(|t: CodexDiscoveredThread| t@)
}

/// When a thread was last active: a time text, else a number as decimal text.
pub open spec fn updated_at_of(t: Json) -> Option<Seq<char>> {
    match first_str(t, thread_updated_text_paths()) {
        Some(s) => Some(s),
        None => match first_i64(t, thread_updated_number_paths()) {
            Some(n) => Some(int_decimal(n as int)),
            None => None,
        },
    }
}

/// When a thread was last active.
pub fn codex_thread_updated_at(t: &JsonValue) -> (r: Option<String>)
    ensures
        opt_s(r) == updated_at_of(t@),
{
    match thread_updated_text_at(t) {
        Some(s) => Some(owned(s)),
        None => match thread_updated_number_at(t) {
            Some(n) => Some(i64_decimal(n)),
            None => None,
        },
    }
}

/// The thread a list entry describes, when it has an id.
pub open spec fn thread_of(t: Json) -> Option<ThreadView> {
    match first_str(t, thread_list_id_paths()) {
        Some(id) => Some(
            ThreadView {
                external_session_id: id,
                title: first_str(t, thread_list_title_paths()),
                updated_at: updated_at_of(t),
            },
        ),
        None => None,
    }
}

/// The threads of a list, each entry with an id.
pub open spec fn threads_of(a: Seq<Json>) -> Seq<ThreadView>
    decreases a.len(),
{
    if a.len() == 0 {
        Seq::empty()
    } else {
        match thread_of(a.last()) {
            Some(t) => threads_of(a.drop_last()).push(t),
            None => threads_of(a.drop_last()),
        }
    }
}

/// The first of the list locations a `thread/list` response has, as an array.
pub open spec fn thread_array_of(m: Json) -> Option<Seq<Json>> {
    let found = if json_path(m, seq!["result"@, "data"@]) is Some {
        json_path(m, seq!["result"@, "data"@])
    } else if json_path(m, seq!["result"@, "threads"@]) is Some {
        json_path(m, seq!["result"@, "threads"@])
    } else if json_path(m, seq!["result"@, "items"@]) is Some {
        json_path(m, seq!["result"@, "items"@])
    } else {
        json_path(m, seq!["threads"@])
    };
    match found {
        Some(x) => json_as_array(x),
        None => None,
    }
}

/// The threads of a `thread/list` response.
pub open spec fn listed_threads_of(m: Json) -> Seq<ThreadView> {
    match thread_array_of(m) {
        Some(a) => threads_of(a),
        None => Seq::empty(),
    }
}

/// The threads of a `thread/list` response.
pub fn codex_threads_from_list_response(m: &JsonValue) -> (r: Vec<CodexDiscoveredThread>)
    ensures
        threads_view(r@) == listed_threads_of(m@),
{
    let p1: [&str; 2] = ["result", "data"];
    let p2: [&str; 2] = ["result", "threads"];
    let p3: [&str; 2] = ["result", "items"];
    let p4: [&str; 1] = ["threads"];
    proof {
        assert(path_view(p1@) =~= seq!["result"@, "data"@]);
        assert(path_view(p2@) =~= seq!["result"@, "threads"@]);
        assert(path_view(p3@) =~= seq!["result"@, "items"@]);
        assert(path_view(p4@) =~= seq!["threads"@]);
    }
    let found = match at(m, &p1) {
        Some(x) => Some(x),
        None => match at(m, &p2) {
            Some(x) => Some(x),
            None => match at(m, &p3) {
                Some(x) => Some(x),
                None => at(m, &p4),
            },
        },
    };
    let mut out: Vec<CodexDiscoveredThread> = Vec::new();
    proof {
        assert(threads_view(out@) =~= Seq::<ThreadView>::empty());
    }
    let array = match found {
        Some(x) => as_array(x),
        None => None,
    };
    match array {
        Some(a) => {
            let ghost av = values_view(a@);
            let mut i: usize = 0;
            proof {
                assert(av.subrange(0, 0) =~= Seq::<Json>::empty());
            }
            while i < a.len()
                invariant
                    i <= a.len(),
                    av == values_view(a@),
                    threads_view(out@) == threads_of(av.subrange(0, i as int)),
                decreases a.len() - i,
            {
                proof {
                    assert(av.subrange(0, i + 1).drop_last() =~= av.subrange(0, i as int));
                    assert(av.subrange(0, i + 1).last() == a@[i as int]@);
                }
                let t = &a[i];
                match thread_list_id_at(t) {
                    Some(id) => {
                        let thread = CodexDiscoveredThread {
                            external_session_id: owned(id),
                            title: own(thread_list_title_at(t)),
                            updated_at: codex_thread_updated_at(t),
                        };
                        let ghost before = out@;
                        let ghost tv = thread@;
                        out.push(thread);
                        proof {
                            assert(threads_view(out@) =~= threads_view(before).push(tv));
                        }
                    },
                    None => {},
                }
                i = i + 1;
            }
            proof {
                assert(av.subrange(0, a@.len() as int) =~= av);
            }
        },
        None => {},
    }
    out
}

} // verus!
