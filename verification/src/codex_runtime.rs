//! Rules of the Codex runtime: provider command ids and policies, model option texts,
//! turn statuses, and history rebuilt from stored thread items.
use vstd::prelude::*;
use crate::json::{Json, JsonValue, json_get, get, as_str, json_clone};
use crate::codex::text_or;
use crate::codex_history::{DiscoveredSessionHistoryItem, DiscoveredFileChangeStatus, DiscoveredToolStatus,
    HistoryView, history_view, actions_view, CommandActionView};
use crate::codex_questions::member_text;
use crate::events::{opt_s, opt_j};
use crate::model::FileChangeKind;
use crate::provider_commands::{CodexProviderCommand, CodexProviderCommandAvailability,
    CodexProviderCommandCategory, CommandView, find_command, manifest, provider_command,
    lemma_manifest_methods_have_no_dot, lemma_found_method_has_no_dot, ProviderCapabilityDetail,
    ProviderCapabilityStatus, capability_families, category_methods, category_status, provider_capability_details};
use crate::acp::AgentCapabilities;
use crate::codex_options::{AgentCollaborationMode, AgentModelOption, AgentReasoningEffort, ModelView, ModeView,
    agent_reasoning_effort, effort_of, models_view};
use crate::text::{owned, str_eq, concat2, starts_with, seq_starts_with, seq_contains, contains,
    replace_char, replace_char_exec, trim, trim_ws, is_ws, char_is_whitespace, push_char, join_on,
    join_strings, strings_view};

verus! {

/// The slash command id of a provider method: `codex.` and the method with `/` as `.`.
pub open spec fn command_id_of(method: Seq<char>) -> Seq<char> {
    "codex."@ + replace_char(method, '/', '.')
}

/// The slash command id of a provider method.
pub fn command_id_for_method(method: &str) -> (r: String)
    ensures
        r@ == command_id_of(method@),
{
    let replaced = replace_char_exec(method, '/', '.');
    concat2("codex.", replaced.as_str())
}

/// A command id without its `codex.` prefix.
pub open spec fn strip_codex_prefix(id: Seq<char>) -> Seq<char> {
    if seq_starts_with(id, "codex."@) {
        id.subrange(6, id.len() as int)
    } else {
        id
    }
}

/// The provider method a command id names: the id itself (without prefix) when that
/// is a manifest method, else the id with `.` as `/`.
pub open spec fn method_of_command_id(id: Seq<char>) -> Seq<char> {
    let stripped = strip_codex_prefix(id);
    if find_command(manifest(), stripped) is Some {
        stripped
    } else {
        replace_char(stripped, '.', '/')
    }
}

/// The provider method a command id names.
pub fn method_from_command_id(command_id: &str) -> (r: String)
    ensures
        r@ == method_of_command_id(command_id@),
{
    proof {
        reveal_strlit("codex.");
    }
    let stripped: &str = if starts_with(command_id, "codex.") {
        command_id.substring_char(6, command_id.unicode_len())
    } else {
        command_id
    };
    if provider_command(stripped).is_some() {
        owned(stripped)
    } else {
        replace_char_exec(stripped, '.', '/')
    }
}

/// A method's command id leads back to the method, for methods without `.` whose
/// dotted form names no other manifest command.
pub proof fn law_command_id_round_trip(method: Seq<char>)
    requires
        !method.contains('.'),
        find_command(manifest(), replace_char(method, '/', '.')) is Some ==> replace_char(method, '/', '.')
            == method,
    ensures
        method_of_command_id(command_id_of(method)) == method,
{
    reveal_strlit("codex.");
    let id = command_id_of(method);
    let dotted = replace_char(method, '/', '.');
    assert(id.subrange(0, 6) =~= "codex."@);
    assert(id.subrange(6, id.len() as int) =~= dotted);
    assert(strip_codex_prefix(id) == dotted);
    if find_command(manifest(), dotted) is None {
        assert(replace_char(dotted, '.', '/') =~= method) by {
            assert forall|i: int| 0 <= i < method.len() implies replace_char(dotted, '.', '/')[i] == method[i] by {
                if method[i] == '/' {
                } else {
                    assert(method[i] != '.');
                }
            }
        }
    }
}

/// Every manifest method's command id leads back to the method.
pub proof fn law_manifest_command_ids_round_trip(i: int)
    requires
        0 <= i < manifest().len(),
    ensures
        method_of_command_id(command_id_of(manifest()[i].method)) == manifest()[i].method,
{
    let m = manifest()[i].method;
    let dotted = replace_char(m, '/', '.');
    lemma_manifest_methods_have_no_dot(i);
    if find_command(manifest(), dotted) is Some {
        lemma_found_method_has_no_dot(dotted);
        assert(dotted =~= m) by {
            assert forall|k: int| 0 <= k < m.len() implies dotted[k] == m[k] by {
                if m[k] == '/' {
                    assert(dotted[k] == '.');
                    assert(dotted.contains('.'));
                }
            }
        }
    }
    law_command_id_round_trip(m);
}

/// How dangerous a provider command is shown to be.
#[derive(Clone, Copy, Debug, PartialEq, Eq, Structural)]
pub enum SlashCommandDangerLevel {
    Safe,
    Confirm,
    Dangerous,
}

pub open spec fn danger_level_of(a: CodexProviderCommandAvailability) -> SlashCommandDangerLevel {
    match a {
        CodexProviderCommandAvailability::Supported => SlashCommandDangerLevel::Safe,
        CodexProviderCommandAvailability::Guarded | CodexProviderCommandAvailability::Experimental
        | CodexProviderCommandAvailability::PlatformGated => SlashCommandDangerLevel::Confirm,
        _ => SlashCommandDangerLevel::Dangerous,
    }
}

/// How dangerous a provider command is shown to be, by its availability.
pub fn danger_level_for_command(command: &CodexProviderCommand) -> (r: SlashCommandDangerLevel)
    ensures
        r == danger_level_of(command@.availability),
{
    match command.availability {
        CodexProviderCommandAvailability::Supported => SlashCommandDangerLevel::Safe,
        CodexProviderCommandAvailability::Guarded | CodexProviderCommandAvailability::Experimental
        | CodexProviderCommandAvailability::PlatformGated => SlashCommandDangerLevel::Confirm,
        CodexProviderCommandAvailability::Disabled | CodexProviderCommandAvailability::Unsupported =>
            SlashCommandDangerLevel::Dangerous,
    }
}

/// Whether the runner runs a provider command: supported ones always, guarded thread
/// maintenance once confirmed, nothing else.
pub open spec fn execution_allowed(c: CommandView, confirmed: bool) -> bool {
    match c.availability {
        CodexProviderCommandAvailability::Supported => true,
        CodexProviderCommandAvailability::Guarded => confirmed && c.category
            == CodexProviderCommandCategory::ThreadMaintenance,
        _ => false,
    }
}

/// Whether the runner runs a provider command.
pub fn provider_command_execution_allowed(command: &CodexProviderCommand, confirmed: bool) -> (r: bool)
    ensures
        r == execution_allowed(command@, confirmed),
{
    match command.availability {
        CodexProviderCommandAvailability::Supported => true,
        CodexProviderCommandAvailability::Guarded => confirmed && match command.category {
            CodexProviderCommandCategory::ThreadMaintenance => true,
            _ => false,
        },
        _ => false,
    }
}

/// A command the runner shows as safe is one it runs without confirmation, and one it
/// shows as dangerous is one it never runs.
pub proof fn law_danger_level_matches_execution_policy(c: CommandView, confirmed: bool)
    ensures
        danger_level_of(c.availability) == SlashCommandDangerLevel::Safe ==> execution_allowed(c, false),
        danger_level_of(c.availability) == SlashCommandDangerLevel::Dangerous ==> !execution_allowed(c, confirmed),
{
}

/// `value`, or `fallback` when it is blank.
pub open spec fn non_empty_or_spec(value: Seq<char>, fallback: Seq<char>) -> Seq<char> {
    if trim_ws(value).len() == 0 {
        fallback
    } else {
        value
    }
}

/// `value`, or `fallback` when it is blank.
pub fn non_empty_or(value: String, fallback: &str) -> (r: String)
    ensures
        r@ == non_empty_or_spec(value@, fallback@),
{
    if trim(value.as_str()).unicode_len() == 0 {
        owned(fallback)
    } else {
        value
    }
}

/// A model description: nothing when blank, a placeholder for a blank hidden model.
pub open spec fn description_of(value: Seq<char>, hidden: bool) -> Option<Seq<char>> {
    if trim_ws(value).len() == 0 && !hidden {
        None
    } else if hidden && trim_ws(value).len() == 0 {
        Some("Hidden Codex model."@)
    } else {
        Some(value)
    }
}

/// A model description.
pub fn non_empty_description(value: String, hidden: bool) -> (r: Option<String>)
    ensures
        opt_s(r) == description_of(value@, hidden),
{
    let blank = trim(value.as_str()).unicode_len() == 0;
    if blank && !hidden {
        None
    } else if hidden && blank {
        Some(owned("Hidden Codex model."))
    } else {
        Some(value)
    }
}

/// Whether a native turn status means the turn is over.
pub open spec fn terminal_turn_status(status: Seq<char>) -> bool {
    status == "completed"@ || status == "failed"@ || status == "cancelled"@ || status == "canceled"@
        || status == "interrupted"@
}

/// Whether a native turn status means the turn is over.
pub fn is_terminal_native_turn_status(status: &str) -> (r: bool)
    ensures
        r == terminal_turn_status(status@),
{
    str_eq(status, "completed") || str_eq(status, "failed") || str_eq(status, "cancelled") || str_eq(
        status,
        "canceled",
    ) || str_eq(status, "interrupted")
}

/// Whether a runtime error (by its text) says a request's thread is unknown to Codex.
pub open spec fn runtime_thread_not_found(message: Seq<char>, method: Seq<char>) -> bool {
    seq_contains(message, "Codex app-server `"@ + method + "` request"@) && seq_contains(
        message,
        "thread not found:"@,
    )
}

/// Whether a runtime error (by its text) says a request's thread is unknown to Codex.
pub fn is_codex_thread_not_found_error(message: &str, method: &str) -> (r: bool)
    ensures
        r == runtime_thread_not_found(message@, method@),
{
    let mut needle = concat2("Codex app-server `", method);
    needle.append("` request");
    contains(message, needle.as_str()) && contains(message, "thread not found:")
}

// ---------------------------------------------------------------------------
// Whitespace-normalized text
// ---------------------------------------------------------------------------

/// `s.split_whitespace()`: the maximal runs of non-whitespace characters.
pub open spec fn ws_words(s: Seq<char>) -> Seq<Seq<char>>
    decreases s.len(),
{
    if s.len() == 0 {
        Seq::empty()
    } else {
        let w = ws_words(s.drop_last());
        let c = s.last();
        if is_ws(c) {
            w
        } else if s.len() > 1 && !is_ws(s[s.len() - 2]) {
            w.update(w.len() - 1, w.last().push(c))
        } else {
            w.push(seq![c])
        }
    }
}

proof fn lemma_ws_words_nonempty(s: Seq<char>)
    requires
        s.len() > 0,
        !is_ws(s.last()),
    ensures
        ws_words(s).len() > 0,
    decreases s.len(),
{
    if s.len() > 1 && !is_ws(s[s.len() - 2]) {
        assert(s.drop_last().last() == s[s.len() - 2]);
        lemma_ws_words_nonempty(s.drop_last());
    }
}

/// Text with whitespace runs collapsed to single spaces and trimmed, when any text is
/// left.
pub open spec fn normalized_text(s: Seq<char>) -> Option<Seq<char>> {
    let n = join_on(ws_words(s), " "@);
    if n.len() == 0 {
        None
    } else {
        Some(n)
    }
}

/// Text with whitespace runs collapsed to single spaces and trimmed.
pub fn normalized_history_text(text: &str) -> (r: Option<String>)
    ensures
        opt_s(r) == normalized_text(text@),
{
    let n = text.unicode_len();
    let mut words: Vec<String> = Vec::new();
    let mut cur = String::new();
    let mut in_word = false;
    let mut i: usize = 0;
    proof {
        assert(text@.subrange(0, 0) =~= Seq::<char>::empty());
        assert(strings_view(words@) =~= Seq::<Seq<char>>::empty());
    }
    while i < n
        invariant
            n == text@.len(),
            i <= n,
            in_word == (i > 0 && !is_ws(text@[i - 1])),
            in_word ==> strings_view(words@).push(cur@) == ws_words(text@.subrange(0, i as int)),
            !in_word ==> strings_view(words@) == ws_words(text@.subrange(0, i as int)),
        decreases n - i,
    {
        let c = text.get_char(i);
        let ghost pre = text@.subrange(0, i as int);
        proof {
            assert(text@.subrange(0, i + 1).drop_last() =~= pre);
            assert(text@.subrange(0, i + 1).last() == c);
            if i > 0 {
                assert(text@.subrange(0, i + 1)[i - 1] == text@[i - 1]);
            }
        }
        if char_is_whitespace(c) {
            if in_word {
                let ghost before = words@;
                words.push(cur);
                cur = String::new();
                proof {
                    assert(strings_view(words@) =~= strings_view(before).push(strings_view(words@).last()));
                }
            }
            in_word = false;
        } else {
            if in_word {
                push_char(&mut cur, c);
                proof {
                    let w = ws_words(pre);
                    assert(strings_view(words@).push(cur@) =~= w.update(w.len() - 1, w.last().push(c)));
                }
            } else {
                cur = String::new();
                push_char(&mut cur, c);
                proof {
                    assert(cur@ =~= seq![c]);
                }
            }
            in_word = true;
        }
        i = i + 1;
    }
    if in_word {
        let ghost before = words@;
        words.push(cur);
        proof {
            assert(strings_view(words@) =~= strings_view(before).push(strings_view(words@).last()));
        }
    }
    proof {
        assert(text@.subrange(0, n as int) =~= text@);
    }
    let joined = join_strings(&words, " ");
    if joined.as_str().unicode_len() == 0 {
        None
    } else {
        Some(joined)
    }
}

// ---------------------------------------------------------------------------
// History from stored thread items
// ---------------------------------------------------------------------------

/// The text of a stored plan item: its `text`, else its `content`, else empty.
pub open spec fn stored_plan_text(raw: Json) -> Seq<char> {
    match member_text(raw, "text"@) {
        Some(t) => t,
        None => text_or(member_text(raw, "content"@), Seq::empty()),
    }
}

/// The history entry of a stored thread item of the given kind (else the item's own
/// type, else `native`).
pub open spec fn stored_item_of(native_item_id: Seq<char>, kind: Option<Seq<char>>, raw: Json) -> HistoryView {
    let k = match kind {
        Some(k) => k,
        None => text_or(member_text(raw, "type"@), "native"@),
    };
    if k == "agentMessage"@ {
        HistoryView::AgentMessage { message_id: native_item_id, content: text_or(member_text(raw, "text"@), Seq::empty()) }
    } else if k == "plan"@ {
        HistoryView::Plan {
            plan_id: native_item_id,
            title: Some("Codex plan"@),
            content: stored_plan_text(raw),
            provider_payload: Some(raw),
        }
    } else if k == "commandExecution"@ {
        HistoryView::Command {
            command_id: native_item_id,
            command: text_or(member_text(raw, "command"@), "codex command"@),
            cwd: member_text(raw, "cwd"@),
            source: Some("codex"@),
            process_id: None,
            duration_ms: None,
            actions: Seq::empty(),
            output: member_text(raw, "output"@),
            exit_code: None,
            success: true,
            provider_payload: Some(raw),
        }
    } else if k == "fileChange"@ {
        HistoryView::FileChange {
            change_id: native_item_id,
            path: text_or(member_text(raw, "path"@), "Codex file change"@),
            change_kind: FileChangeKind::Modify,
            status: DiscoveredFileChangeStatus::Applied,
            diff: member_text(raw, "diff"@),
            provider_payload: Some(raw),
        }
    } else if k == "mcpToolCall"@ {
        HistoryView::Tool {
            tool_call_id: native_item_id,
            name: text_or(member_text(raw, "name"@), "Codex tool"@),
            title: Some("Codex tool"@),
            status: DiscoveredToolStatus::Completed,
            input: json_get(raw, "arguments"@),
            output: json_get(raw, "result"@),
            provider_payload: Some(raw),
        }
    } else {
        HistoryView::NativeNotification {
            event_id: Some(native_item_id),
            category: "codex_thread_item"@,
            title: "Codex "@ + k,
            detail: None,
            status: None,
            provider_payload: Some(raw),
        }
    }
}

fn member_or(raw: &JsonValue, key: &str, d: &str) -> (r: String)
    ensures
        r@ == text_or(member_text(raw@, key@), d@),
{
    match crate::codex_questions::member_str(raw, key) {
        Some(s) => owned(s),
        None => owned(d),
    }
}

fn member_opt(raw: &JsonValue, key: &str) -> (r: Option<String>)
    ensures
        opt_s(r) == member_text(raw@, key@),
{
    match crate::codex_questions::member_str(raw, key) {
        Some(s) => Some(owned(s)),
        None => None,
    }
}

fn member_clone(raw: &JsonValue, key: &str) -> (r: Option<JsonValue>)
    ensures
        opt_j(r) == json_get(raw@, key@),
{
    match get(raw, key) {
        Some(v) => Some(json_clone(v)),
        None => None,
    }
}

/// The history entry of a stored thread item.
pub fn history_item_from_raw(native_item_id: String, kind: Option<String>, raw: JsonValue) -> (r: DiscoveredSessionHistoryItem)
    ensures
        r@ == stored_item_of(native_item_id@, opt_s(kind), raw@),
{
    proof {
        reveal_strlit("");
        assert(""@ =~= Seq::<char>::empty());
    }
    let k = match kind {
        Some(k) => k,
        None => member_or(&raw, "type", "native"),
    };
    if str_eq(k.as_str(), "agentMessage") {
        DiscoveredSessionHistoryItem::AgentMessage { message_id: native_item_id, content: member_or(&raw, "text", "") }
    } else if str_eq(k.as_str(), "plan") {
        let content = match crate::codex_questions::member_str(&raw, "text") {
            Some(t) => owned(t),
            None => member_or(&raw, "content", ""),
        };
        DiscoveredSessionHistoryItem::Plan {
            plan_id: native_item_id,
            title: Some(owned("Codex plan")),
            content,
            provider_payload: Some(raw),
        }
    } else if str_eq(k.as_str(), "commandExecution") {
        let actions: Vec<crate::codex_history::DiscoveredCommandAction> = Vec::new();
        proof {
            assert(actions_view(actions@) =~= Seq::<CommandActionView>::empty());
        }
        DiscoveredSessionHistoryItem::Command {
            command_id: native_item_id,
            command: member_or(&raw, "command", "codex command"),
            cwd: member_opt(&raw, "cwd"),
            source: Some(owned("codex")),
            process_id: None,
            duration_ms: None,
            actions,
            output: member_opt(&raw, "output"),
            exit_code: None,
            success: true,
            provider_payload: Some(raw),
        }
    } else if str_eq(k.as_str(), "fileChange") {
        DiscoveredSessionHistoryItem::FileChange {
            change_id: native_item_id,
            path: member_or(&raw, "path", "Codex file change"),
            change_kind: FileChangeKind::Modify,
            status: DiscoveredFileChangeStatus::Applied,
            diff: member_opt(&raw, "diff"),
            provider_payload: Some(raw),
        }
    } else if str_eq(k.as_str(), "mcpToolCall") {
        DiscoveredSessionHistoryItem::Tool {
            tool_call_id: native_item_id,
            name: member_or(&raw, "name", "Codex tool"),
            title: Some(owned("Codex tool")),
            status: DiscoveredToolStatus::Completed,
            input: member_clone(&raw, "arguments"),
            output: member_clone(&raw, "result"),
            provider_payload: Some(raw),
        }
    } else {
        DiscoveredSessionHistoryItem::NativeNotification {
            event_id: Some(native_item_id),
            category: owned("codex_thread_item"),
            title: concat2("Codex ", k.as_str()),
            detail: None,
            status: None,
            provider_payload: Some(raw),
        }
    }
}

/// The normalized texts of the plans among some history entries.
pub open spec fn plan_fingerprints(items: Seq<HistoryView>) -> Seq<Seq<char>>
    decreases items.len(),
{
    if items.len() == 0 {
        Seq::empty()
    } else {
        let rest = plan_fingerprints(items.drop_last());
        match items.last() {
            HistoryView::Plan { content, .. } => match normalized_text(content) {
                Some(f) => rest.push(f),
                None => rest,
            },
            _ => rest,
        }
    }
}

/// Whether an entry is an agent message that repeats a plan's text.
pub open spec fn repeats_plan(item: HistoryView, prints: Seq<Seq<char>>) -> bool {
    match item {
        HistoryView::AgentMessage { content, .. } => match normalized_text(content) {
            Some(f) => prints.contains(f),
            None => false,
        },
        _ => false,
    }
}

/// History entries without agent messages that repeat a plan's text (up to
/// whitespace).
pub open spec fn canonical_history(items: Seq<HistoryView>) -> Seq<HistoryView> {
    items.filter(|i: HistoryView| !repeats_plan(i, plan_fingerprints(items)))
}

fn contains_text(v: &Vec<String>, s: &str) -> (r: bool)
    ensures
        r == strings_view(v@).contains(s@),
{
    let mut i: usize = 0;
    while i < v.len()
        invariant
            i <= v.len(),
            forall|j: int| 0 <= j < i ==> strings_view(v@)[j] != s@,
        decreases v.len() - i,
    {
        if str_eq(v[i].as_str(), s) {
            proof {
                assert(strings_view(v@)[i as int] == s@);
            }
            return true;
        }
        i = i + 1;
    }
    false
}

/// Drops the agent messages that repeat a plan's text.
pub fn canonicalize_plan_history_items(items: Vec<DiscoveredSessionHistoryItem>) -> (r: Vec<DiscoveredSessionHistoryItem>)
    ensures
        history_view(r@) == canonical_history(history_view(items@)),
{
    let ghost hv = history_view(items@);
    let mut prints: Vec<String> = Vec::new();
    let mut i: usize = 0;
    proof {
        assert(hv.subrange(0, 0) =~= Seq::<HistoryView>::empty());
        assert(strings_view(prints@) =~= Seq::<Seq<char>>::empty());
    }
    while i < items.len()
        invariant
            i <= items.len(),
            hv == history_view(items@),
            strings_view(prints@) == plan_fingerprints(hv.subrange(0, i as int)),
        decreases items.len() - i,
    {
        proof {
            assert(hv.subrange(0, i + 1).drop_last() =~= hv.subrange(0, i as int));
            assert(hv.subrange(0, i + 1).last() == items@[i as int]@);
        }
        match &items[i] {
            DiscoveredSessionHistoryItem::Plan { content, .. } => {
                match normalized_history_text(content.as_str()) {
                    Some(f) => {
                        let ghost before = prints@;
                        prints.push(f);
                        proof {
                            assert(strings_view(prints@) =~= strings_view(before).push(strings_view(prints@).last()));
                        }
                    },
                    None => {},
                }
            },
            _ => {},
        }
        i = i + 1;
    }
    proof {
        assert(hv.subrange(0, items@.len() as int) =~= hv);
    }
    let ghost fp = plan_fingerprints(hv);
    let mut out: Vec<DiscoveredSessionHistoryItem> = Vec::new();
    let mut rest = items;
    proof {
        assert(history_view(out@) =~= hv.subrange(0, 0).filter(|x: HistoryView| !repeats_plan(x, fp)));
    }
    let total = rest.len();
    let mut k: usize = 0;
    while k < total
        invariant
            total == hv.len(),
            k <= total,
            history_view(rest@) == hv.subrange(k as int, total as int),
            strings_view(prints@) == fp,
            history_view(out@) == hv.subrange(0, k as int).filter(|x: HistoryView| !repeats_plan(x, fp)),
        decreases total - k,
    {
        let ghost rv = history_view(rest@);
        let ghost old_rest = rest@;
        assert(rest@.len() == rv.len());
        let item = rest.remove(0);
        let ghost iv = item@;
        proof {
            assert(old_rest[0] == item);
            assert(rv[0] == iv);
            assert(iv == hv[k as int]);
            assert forall|j: int| 0 <= j < rest@.len() implies #[trigger] history_view(rest@)[j] == hv.subrange(
                k + 1,
                total as int,
            )[j] by {
                assert(rest@[j] == old_rest[j + 1]);
                assert(rv[j + 1] == hv.subrange(k as int, total as int)[j + 1]);
            }
            assert(history_view(rest@) =~= hv.subrange(k + 1, total as int));
            assert(hv.subrange(0, k as int).push(iv) =~= hv.subrange(0, k + 1));
            hv.subrange(0, k as int).lemma_filter_push(iv, |x: HistoryView| !repeats_plan(x, fp));
        }
        let keep = match &item {
            DiscoveredSessionHistoryItem::AgentMessage { content, .. } => match normalized_history_text(
                content.as_str(),
            ) {
                Some(f) => !contains_text(&prints, f.as_str()),
                None => true,
            },
            _ => true,
        };
        if keep {
            let ghost before = out@;
            out.push(item);
            proof {
                assert(history_view(out@) =~= history_view(before).push(iv));
            }
        }
        k = k + 1;
    }
    proof {
        assert(hv.subrange(0, total as int) =~= hv);
    }
    out
}


// ---------------------------------------------------------------------------
// Capabilities
// ---------------------------------------------------------------------------

/// The capability detail for Codex's dynamic client tools, which the runner shows but
/// does not run.
pub open spec fn is_dynamic_tools_detail(d: ProviderCapabilityDetail) -> bool {
    &&& d.key@ == "dynamic_tools"@
    &&& d.status == ProviderCapabilityStatus::Unsupported
    &&& strings_view(d.methods@) == seq!["item/tool/call"@]
    &&& crate::events::opt_s(d.reason) == Some("Dynamic client tools are visible but not executed by Agenter yet."@)
}

/// What the runner tells its users Codex can do: everything, with one detail per
/// provider command family and one for dynamic client tools.
pub fn codex_capabilities() -> (r: AgentCapabilities)
    ensures
        r.streaming && r.session_resume && r.session_history && r.approvals && r.file_changes,
        r.command_execution && r.plan_updates && r.interrupt && r.model_selection && r.reasoning_effort,
        r.collaboration_modes && r.tool_user_input && r.mcp_elicitation,
        r.provider_details@.len() == capability_families().len() + 1,
        forall|i: int|
            0 <= i < capability_families().len() ==> {
                let (key, category) = #[trigger] capability_families()[i];
                &&& r.provider_details@[i].key@ == key
                &&& strings_view(r.provider_details@[i].methods@) == category_methods(category)
                &&& r.provider_details@[i].status == category_status(category)
                &&& r.provider_details@[i].reason is None
            },
        is_dynamic_tools_detail(r.provider_details@[capability_families().len() as int]),
{
    let mut provider_details = provider_capability_details();
    let ghost before = provider_details@;
    let mut methods: Vec<String> = Vec::new();
    methods.push(owned("item/tool/call"));
    proof {
        assert(strings_view(methods@) =~= seq!["item/tool/call"@]);
    }
    provider_details.push(
        ProviderCapabilityDetail {
            key: owned("dynamic_tools"),
            status: ProviderCapabilityStatus::Unsupported,
            methods,
            reason: Some(owned("Dynamic client tools are visible but not executed by Agenter yet.")),
        },
    );
    proof {
        assert forall|i: int| 0 <= i < capability_families().len() implies provider_details@[i] == before[i] by {}
    }
    AgentCapabilities {
        streaming: true,
        session_resume: true,
        session_history: true,
        approvals: true,
        file_changes: true,
        command_execution: true,
        plan_updates: true,
        interrupt: true,
        model_selection: true,
        reasoning_effort: true,
        collaboration_modes: true,
        tool_user_input: true,
        mcp_elicitation: true,
        provider_details,
    }
}


/// The Codex provider as the runner registers it.
#[derive(Clone, Debug, PartialEq, Eq)]
pub struct CodexRunnerRegistration {
    pub provider_id: String,
    pub capabilities: AgentCapabilities,
}

/// The registration of the Codex provider: the id `codex`, with Codex's capabilities.
pub fn codex_runner_registration() -> (r: CodexRunnerRegistration)
    ensures
        r.provider_id@ == "codex"@,
        r.capabilities.session_resume && r.capabilities.interrupt,
        r.capabilities.provider_details@.len() == capability_families().len() + 1,
        is_dynamic_tools_detail(r.capabilities.provider_details@[capability_families().len() as int]),
{
    CodexRunnerRegistration { provider_id: owned("codex"), capabilities: codex_capabilities() }
}


// ---------------------------------------------------------------------------
// Model and mode lists
// ---------------------------------------------------------------------------

/// A model as `model/list` describes it (absent fields read as empty).
#[derive(Clone, Debug, PartialEq, Eq)]
pub struct CodexModel {
    pub model: String,
    pub display_name: String,
    pub description: String,
    pub hidden: bool,
    pub is_default: bool,
    pub default_reasoning_effort: Option<String>,
    pub supported_reasoning_efforts: Vec<String>,
    pub input_modalities: Vec<String>,
}

pub struct CodexModelView {
    pub model: Seq<char>,
    pub display_name: Seq<char>,
    pub description: Seq<char>,
    pub hidden: bool,
    pub is_default: bool,
    pub default_reasoning_effort: Option<Seq<char>>,
    pub supported_reasoning_efforts: Seq<Seq<char>>,
    pub input_modalities: Seq<Seq<char>>,
}

impl View for CodexModel {
    type V = CodexModelView;

    open spec fn view(&self) -> CodexModelView {
        CodexModelView {
            model: self.model@,
            display_name: self.display_name@,
            description: self.description@,
            hidden: self.hidden,
            is_default: self.is_default,
            default_reasoning_effort: opt_s(self.default_reasoning_effort),
            supported_reasoning_efforts: strings_view(self.supported_reasoning_efforts@),
            input_modalities: strings_view(self.input_modalities@),
        }
    }
}

/// A collaboration mode as `collaborationMode/list` describes it.
#[derive(Clone, Debug, PartialEq, Eq)]
pub struct CodexCollaborationModeMask {
    pub name: String,
    pub mode: Option<String>,
    pub model: Option<String>,
    pub reasoning_effort: Option<String>,
}

/// The efforts among some wire words, in order, skipping unknown words.
pub open spec fn efforts_among(words: Seq<Seq<char>>) -> Seq<AgentReasoningEffort>
    decreases words.len(),
{
    if words.len() == 0 {
        Seq::empty()
    } else {
        efforts_among(words.drop_last()) + match effort_of(words.last()) {
            Some(e) => seq![e],
            None => Seq::empty(),
        }
    }
}

/// The option a listed model offers, unless its model name is blank: named by the model,
/// shown by its display name (else the model), with its description, default and
/// efforts.
pub open spec fn model_option_of(m: CodexModelView) -> Option<ModelView> {
    if trim_ws(m.model).len() == 0 {
        None
    } else {
        Some(
            ModelView {
                id: m.model,
                display_name: non_empty_or_spec(m.display_name, m.model),
                description: description_of(m.description, m.hidden),
                is_default: m.is_default,
                default_reasoning_effort: match m.default_reasoning_effort {
                    Some(w) => effort_of(w),
                    None => None,
                },
                supported_reasoning_efforts: efforts_among(m.supported_reasoning_efforts),
                input_modalities: m.input_modalities,
            },
        )
    }
}

/// The options of the listed models, in order.
pub open spec fn model_options_of(ms: Seq<CodexModelView>) -> Seq<ModelView>
    decreases ms.len(),
{
    if ms.len() == 0 {
        Seq::empty()
    } else {
        model_options_of(ms.drop_last()) + match model_option_of(ms.last()) {
            Some(o) => seq![o],
            None => Seq::empty(),
        }
    }
}

/// The mode a listed collaboration mode offers: its id is its mode unless that is
/// missing or blank, else its name; its label its name (else `Custom`).
pub open spec fn mode_option_of(name: Seq<char>, mode: Option<Seq<char>>, model: Option<Seq<char>>, effort: Option<Seq<char>>) -> ModeView {
    ModeView {
        id: match mode {
            Some(m) => if trim_ws(m).len() > 0 {
                m
            } else {
                name
            },
            None => name,
        },
        label: non_empty_or_spec(name, "Custom"@),
        model,
        reasoning_effort: match effort {
            Some(w) => effort_of(w),
            None => None,
        },
    }
}

fn efforts(words: &Vec<String>) -> (r: Vec<AgentReasoningEffort>)
    ensures
        r@ == efforts_among(strings_view(words@)),
{
    let ghost w = strings_view(words@);
    let mut out: Vec<AgentReasoningEffort> = Vec::new();
    let mut i: usize = 0;
    proof {
        assert(w.subrange(0, 0) =~= Seq::<Seq<char>>::empty());
    }
    while i < words.len()
        invariant
            w == strings_view(words@),
            i <= words.len(),
            out@ == efforts_among(w.subrange(0, i as int)),
        decreases words.len() - i,
    {
        let ghost before = out@;
        assert(w.subrange(0, i + 1).drop_last() =~= w.subrange(0, i as int));
        assert(w.subrange(0, i + 1).last() == words@[i as int]@);
        match agent_reasoning_effort(words[i].as_str()) {
            Some(e) => {
                out.push(e);
                proof {
                    assert(out@ =~= before + seq![e]);
                }
            },
            None => {
                proof {
                    assert(out@ =~= before + Seq::<AgentReasoningEffort>::empty());
                }
            },
        }
        i = i + 1;
    }
    proof {
        assert(w.subrange(0, w.len() as int) =~= w);
    }
    out
}

/// The option a listed model offers (see `model_option_of`).
pub fn agent_model_option_from_codex(model: CodexModel) -> (r: Option<AgentModelOption>)
    ensures
        match r {
            Some(o) => model_option_of(model@) == Some(o@),
            None => model_option_of(model@) is None,
        },
{
    if trim(model.model.as_str()).unicode_len() == 0 {
        return None;
    }
    let supported_reasoning_efforts = efforts(&model.supported_reasoning_efforts);
    let default_reasoning_effort = match &model.default_reasoning_effort {
        Some(w) => agent_reasoning_effort(w.as_str()),
        None => None,
    };
    let CodexModel { model: name, display_name, description, hidden, is_default, default_reasoning_effort: _, supported_reasoning_efforts: _, input_modalities } = model;
    let display_name = non_empty_or(display_name, name.as_str());
    Some(
        AgentModelOption {
            id: name,
            display_name,
            description: non_empty_description(description, hidden),
            is_default,
            default_reasoning_effort,
            supported_reasoning_efforts,
            input_modalities,
        },
    )
}

/// The options of the listed models, in order, skipping those with a blank model name.
pub fn agent_model_options_from_codex(models: Vec<CodexModel>) -> (r: Vec<AgentModelOption>)
    ensures
        models_view(r@) == model_options_of(models@.map_values(|m: CodexModel| m@)),
{
    let ghost all = models@.map_values(|m: CodexModel| m@);
    let mut out: Vec<AgentModelOption> = Vec::new();
    let mut rest = models;
    let ghost mut n: int = 0;
    proof {
        assert(all.subrange(0, 0) =~= Seq::<CodexModelView>::empty());
        assert(models_view(out@) =~= Seq::<ModelView>::empty());
    }
    while rest.len() > 0
        invariant
            0 <= n <= all.len(),
            all.len() == n + rest@.len(),
            forall|j: int| 0 <= j < rest@.len() ==> #[trigger] rest@[j]@ == all[n + j],
            models_view(out@) == model_options_of(all.subrange(0, n)),
        decreases rest.len(),
    {
        let ghost rest_before = rest@;
        let ghost before = models_view(out@);
        let m = rest.remove(0);
        proof {
            assert(rest_before[0]@ == all[n + 0]);
            assert forall|j: int| 0 <= j < rest@.len() implies #[trigger] rest@[j]@ == all[n + 1 + j] by {
                assert(rest@[j] == rest_before[j + 1]);
                assert(rest_before[j + 1]@ == all[n + (j + 1)]);
            }
            assert(all.subrange(0, n + 1).drop_last() =~= all.subrange(0, n));
            assert(all.subrange(0, n + 1).last() == m@);
        }
        match agent_model_option_from_codex(m) {
            Some(o) => {
                let ghost ov = o@;
                out.push(o);
                proof {
                    assert(models_view(out@) =~= before + seq![ov]);
                }
            },
            None => {
                proof {
                    assert(models_view(out@) =~= before + Seq::<ModelView>::empty());
                }
            },
        }
        proof {
            n = n + 1;
        }
    }
    proof {
        assert(all.subrange(0, all.len() as int) =~= all);
    }
    out
}

/// The mode a listed collaboration mode offers (see `mode_option_of`).
pub fn agent_collaboration_mode_from_codex(mask: CodexCollaborationModeMask) -> (r: AgentCollaborationMode)
    ensures
        r@ == mode_option_of(mask.name@, opt_s(mask.mode), opt_s(mask.model), opt_s(mask.reasoning_effort)),
{
    let CodexCollaborationModeMask { name, mode, model, reasoning_effort } = mask;
    let id = match mode {
        Some(m) => if trim(m.as_str()).unicode_len() > 0 {
            m
        } else {
            owned(name.as_str())
        },
        None => owned(name.as_str()),
    };
    let effort = match &reasoning_effort {
        Some(w) => agent_reasoning_effort(w.as_str()),
        None => None,
    };
    AgentCollaborationMode { id, label: non_empty_or(name, "Custom"), model, reasoning_effort: effort }
}

} // verus!

verus! {

/// Without confirmation the runner runs only supported commands: nothing guarded,
/// experimental, gated, disabled or unsupported.
pub proof fn law_unconfirmed_execution_needs_support(c: CommandView)
    ensures
        execution_allowed(c, false) <==> c.availability == CodexProviderCommandAvailability::Supported,
        execution_allowed(c, true) <==> (c.availability == CodexProviderCommandAvailability::Supported || (c.availability
            == CodexProviderCommandAvailability::Guarded && c.category == CodexProviderCommandCategory::ThreadMaintenance)),
{
}

} // verus!
