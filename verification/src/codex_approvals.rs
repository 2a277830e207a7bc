//! Approval requests from Codex: which requests ask for approval, how they are shown,
//! and the replies sent back for each decision.
use vstd::prelude::*;
use crate::json::{Json, JsonValue, json_get, json_as_array, json_as_object, json_text, first_str, get,
    as_array, as_object, entries_view, json_clone, json_to_text, jstr, obj1, obj2, at, path_view};
use crate::codex::{text_or, jsonrpc_method, jsonrpc_method_spec};
use crate::codex_questions::{strings_among, items_at, member_text, member_str, params_of};
use crate::codex_rpc::is_server_request;
use crate::events::{ApprovalKind, ApprovalRequestEvent, EventView, NormalizedEvent, opt_s, opt_j};
use crate::message_paths::{command_details_at, command_details_paths, permission_details_at,
    permission_details_paths, approval_item_hint_at, approval_item_hint_paths};
use crate::model::{ApprovalDecision, DecisionView, SessionId};
use crate::codex_mapper::{ApprovalOption, canonical_defaults_view};
use crate::text::{owned, str_eq, concat2, concat3, join_on, join_strings, strings_view, trim, trim_ws,
    sorted_distinct, sort_dedup};

verus! {

/// Which Codex approval request a request is; replies differ between them.
#[derive(Clone, Copy, Debug, PartialEq, Eq, Structural)]
pub enum CodexApprovalKind {
    Command,
    FileChange,
    Permissions,
    /// The older `execCommandApproval` request.
    ExecCommandApproval,
    /// The older `applyPatchApproval` request.
    ApplyPatchApproval,
}

/// The approval kinds of an approval request method.
pub open spec fn approval_kinds_of(method: Seq<char>) -> Option<(ApprovalKind, CodexApprovalKind)> {
    if method == "item/commandExecution/requestApproval"@ {
        Some((ApprovalKind::Command, CodexApprovalKind::Command))
    } else if method == "item/fileChange/requestApproval"@ {
        Some((ApprovalKind::FileChange, CodexApprovalKind::FileChange))
    } else if method == "item/permissions/requestApproval"@ {
        Some((ApprovalKind::ProviderSpecific, CodexApprovalKind::Permissions))
    } else if method == "execCommandApproval"@ {
        Some((ApprovalKind::Command, CodexApprovalKind::ExecCommandApproval))
    } else if method == "applyPatchApproval"@ {
        Some((ApprovalKind::FileChange, CodexApprovalKind::ApplyPatchApproval))
    } else {
        None
    }
}

fn approval_kinds(method: &str) -> (r: Option<(ApprovalKind, CodexApprovalKind)>)
    ensures
        r == approval_kinds_of(method@),
{
    if str_eq(method, "item/commandExecution/requestApproval") {
        Some((ApprovalKind::Command, CodexApprovalKind::Command))
    } else if str_eq(method, "item/fileChange/requestApproval") {
        Some((ApprovalKind::FileChange, CodexApprovalKind::FileChange))
    } else if str_eq(method, "item/permissions/requestApproval") {
        Some((ApprovalKind::ProviderSpecific, CodexApprovalKind::Permissions))
    } else if str_eq(method, "execCommandApproval") {
        Some((ApprovalKind::Command, CodexApprovalKind::ExecCommandApproval))
    } else if str_eq(method, "applyPatchApproval") {
        Some((ApprovalKind::FileChange, CodexApprovalKind::ApplyPatchApproval))
    } else {
        None
    }
}

/// The title of an approval.
pub open spec fn approval_title_of(kind: ApprovalKind, ck: CodexApprovalKind) -> Seq<char> {
    match ck {
        CodexApprovalKind::ExecCommandApproval => "Approve Codex command"@,
        CodexApprovalKind::ApplyPatchApproval => "Approve Codex file change"@,
        _ => match kind {
            ApprovalKind::Command => "Approve Codex command"@,
            ApprovalKind::FileChange => "Approve Codex file change"@,
            _ => "Approve Codex permission"@,
        },
    }
}

fn approval_title(kind: ApprovalKind, ck: CodexApprovalKind) -> (r: &'static str)
    ensures
        r@ == approval_title_of(kind, ck),
{
    match ck {
        CodexApprovalKind::ExecCommandApproval => "Approve Codex command",
        CodexApprovalKind::ApplyPatchApproval => "Approve Codex file change",
        _ => match kind {
            ApprovalKind::Command => "Approve Codex command",
            ApprovalKind::FileChange => "Approve Codex file change",
            _ => "Approve Codex permission",
        },
    }
}

/// `head` and `tail` separated by a blank line; either alone; or nothing.
pub open spec fn join_sparse(head: Option<Seq<char>>, tail: Option<Seq<char>>) -> Option<Seq<char>> {
    match (head, tail) {
        (Some(h), Some(t)) => Some(h + "\n\n"@ + t),
        (Some(h), None) => Some(h),
        (None, Some(t)) => Some(t),
        (None, None) => None,
    }
}

fn join_sparse_exec(head: Option<String>, tail: Option<String>) -> (r: Option<String>)
    ensures
        opt_s(r) == join_sparse(opt_s(head), opt_s(tail)),
{
    match (head, tail) {
        (Some(h), Some(t)) => {
            let mut r = h;
            r.append("\n\n");
            r.append(t.as_str());
            Some(r)
        },
        (Some(h), None) => Some(h),
        (None, Some(t)) => Some(t),
        (None, None) => None,
    }
}

/// The hint naming the item an approval is linked to.
pub open spec fn item_hint_of(params: Json) -> Option<Seq<char>> {
    match first_str(params, approval_item_hint_paths()) {
        Some(id) => Some("Codex is waiting on approval linked to `"@ + id + "`."@),
        None => None,
    }
}

fn item_hint(params: &JsonValue) -> (r: Option<String>)
    ensures
        opt_s(r) == item_hint_of(params@),
{
    match approval_item_hint_at(params) {
        Some(id) => Some(concat3("Codex is waiting on approval linked to `", id, "`.")),
        None => None,
    }
}

/// Each path as a bullet line.
pub open spec fn bullets(paths: Seq<Seq<char>>) -> Seq<char> {
    join_on(paths.map_values(|p: Seq<char>| "• "@ + p), "\n"@)
}

fn bullets_exec(paths: &Vec<String>) -> (r: String)
    ensures
        r@ == bullets(strings_view(paths@)),
{
    let mut lines: Vec<String> = Vec::new();
    let mut i: usize = 0;
    while i < paths.len()
        invariant
            i <= paths.len(),
            strings_view(lines@) =~= strings_view(paths@).subrange(0, i as int).map_values(
                |p: Seq<char>| "• "@ + p,
            ),
        decreases paths.len() - i,
    {
        let ghost before = lines@;
        lines.push(concat2("• ", paths[i].as_str()));
        proof {
            assert(strings_view(lines@) =~= strings_view(before).push("• "@ + paths@[i as int]@));
        }
        i = i + 1;
    }
    proof {
        assert(strings_view(paths@).subrange(0, paths@.len() as int) =~= strings_view(paths@));
    }
    join_strings(&lines, "\n")
}

/// What the caller knows about an approval from the items seen before it: how a
/// command approval is presented, and for a file change its presentation and the
/// details shown above its file list.
pub struct ApprovalPresentationInputs {
    pub command_presentation: Option<JsonValue>,
    pub file_change_presentation: Option<JsonValue>,
    pub file_change_prelude: Option<String>,
}

/// The file list shown for a file change approval: the presentation's paths, else
/// the item hint.
pub open spec fn file_change_body_of(presentation: Option<Json>, params: Json) -> Option<Seq<char>> {
    let paths = match presentation {
        Some(p) => match json_get(p, "paths"@) {
            Some(a) => json_as_array(a),
            None => None,
        },
        None => None,
    };
    match paths {
        Some(items) => if items.len() > 0 {
            Some("Files:\n"@ + bullets(strings_among(items)))
        } else {
            item_hint_of(params)
        },
        None => item_hint_of(params),
    }
}

/// The presentation and details of an approval of the current protocol.
pub open spec fn synthesized_details_of(
    kind: ApprovalKind,
    params: Json,
    m: Json,
    command_presentation: Option<Json>,
    file_change_presentation: Option<Json>,
    prelude: Option<Seq<char>>,
) -> (Option<Json>, Option<Seq<char>>) {
    match kind {
        ApprovalKind::FileChange => (
            file_change_presentation,
            match join_sparse(prelude, file_change_body_of(file_change_presentation, params)) {
                Some(d) => Some(d),
                None => Some("Codex proposes file edits."@),
            },
        ),
        ApprovalKind::Command => (
            command_presentation,
            Some(text_or(first_str(m, command_details_paths()), "Approve this shell command."@)),
        ),
        _ => (
            None,
            match first_str(m, permission_details_paths()) {
                Some(d) => Some(d),
                None => item_hint_of(params),
            },
        ),
    }
}

/// The details of an older command approval: the command line, its directory and the
/// reason.
pub open spec fn exec_details_of(params: Json) -> Option<Seq<char>> {
    let cmdline = join_on(strings_among(items_at(params, seq!["command"@])), " "@);
    let t = trim_ws(cmdline);
    let cwd_part = match member_text(params, "cwd"@) {
        Some(c) => "\ncwd: "@ + c,
        None => Seq::empty(),
    };
    let reason_part = match member_text(params, "reason"@) {
        Some(r) => if r.len() > 0 {
            "\n\n"@ + r
        } else {
            Seq::empty()
        },
        None => Seq::empty(),
    };
    if t.len() == 0 {
        Some("Approve this shell command."@)
    } else {
        Some(t + cwd_part + reason_part)
    }
}

/// The keys of the `fileChanges` object, when it is one.
pub open spec fn file_change_keys(params: Json) -> Seq<Seq<char>> {
    match json_get(params, "fileChanges"@) {
        Some(o) => match json_as_object(o) {
            Some(e) => e.map_values(|x: (Seq<char>, Json)| x.0),
            None => Seq::empty(),
        },
        None => Seq::empty(),
    }
}

/// The details of an older patch approval: the changed paths, sorted and without
/// repeats, and the reason.
pub open spec fn patch_details_of(params: Json) -> Option<Seq<char>> {
    let paths = sorted_distinct(file_change_keys(params));
    let head = if paths.len() > 0 {
        Some("Paths:\n"@ + bullets(paths))
    } else {
        None
    };
    let tail = match member_text(params, "reason"@) {
        Some(r) => if r.len() > 0 {
            Some("Reason: "@ + r)
        } else {
            None
        },
        None => None,
    };
    match join_sparse(head, tail) {
        Some(d) => Some(d),
        None => Some("Codex proposes file edits."@),
    }
}

fn exec_details(params: &JsonValue) -> (r: Option<String>)
    ensures
        opt_s(r) == exec_details_of(params@),
{
    let path: [&str; 1] = ["command"];
    proof {
        assert(path_view(path@) =~= seq!["command"@]);
    }
    let argv = match at(params, &path) {
        Some(a) => match as_array(a) {
            Some(items) => crate::codex_questions::strings_among_exec(items),
            None => {
                let v = Vec::new();
                proof {
                    assert(strings_view(v@) =~= strings_among(Seq::<Json>::empty()));
                }
                v
            },
        },
        None => {
            let v = Vec::new();
            proof {
                assert(strings_view(v@) =~= strings_among(Seq::<Json>::empty()));
            }
            v
        },
    };
    let cmdline = join_strings(&argv, " ");
    let t = trim(cmdline.as_str());
    if t.unicode_len() == 0 {
        return Some(owned("Approve this shell command."));
    }
    let mut blob = owned(t);
    match member_str(params, "cwd") {
        Some(c) => {
            blob.append("\ncwd: ");
            blob.append(c);
        },
        None => {},
    }
    match member_str(params, "reason") {
        Some(r) => {
            if r.unicode_len() > 0 {
                blob.append("\n\n");
                blob.append(r);
            }
        },
        None => {},
    }
    Some(blob)
}

fn patch_details(params: &JsonValue) -> (r: Option<String>)
    ensures
        opt_s(r) == patch_details_of(params@),
{
    let mut keys: Vec<String> = Vec::new();
    match get(params, "fileChanges") {
        Some(o) => match as_object(o) {
            Some(entries) => {
                let mut i: usize = 0;
                while i < entries.len()
                    invariant
                        i <= entries.len(),
                        strings_view(keys@) =~= entries_view(entries@).subrange(0, i as int).map_values(
                            |x: (Seq<char>, Json)| x.0,
                        ),
                    decreases entries.len() - i,
                {
                    let ghost before = keys@;
                    keys.push(entries[i].0.clone());
                    proof {
                        assert(strings_view(keys@) =~= strings_view(before).push(entries@[i as int].0@));
                    }
                    i = i + 1;
                }
                proof {
                    assert(entries_view(entries@).subrange(0, entries@.len() as int) =~= entries_view(
                        entries@,
                    ));
                }
            },
            None => {
                proof {
                    assert(strings_view(keys@) =~= Seq::<Seq<char>>::empty());
                }
            },
        },
        None => {
            proof {
                assert(strings_view(keys@) =~= Seq::<Seq<char>>::empty());
            }
        },
    }
    let paths = sort_dedup(&keys);
    let head = if paths.len() > 0 {
        let b = bullets_exec(&paths);
        Some(concat2("Paths:\n", b.as_str()))
    } else {
        None
    };
    let tail = match member_str(params, "reason") {
        Some(r) => if r.unicode_len() > 0 {
            Some(concat2("Reason: ", r))
        } else {
            None
        },
        None => None,
    };
    match join_sparse_exec(head, tail) {
        Some(d) => Some(d),
        None => Some(owned("Codex proposes file edits.")),
    }
}

fn clone_opt_json(o: &Option<JsonValue>) -> (r: Option<JsonValue>)
    ensures
        opt_j(r) == opt_j(*o),
{
    match o {
        Some(v) => Some(json_clone(v)),
        None => None,
    }
}

fn synthesized_details(
    kind: ApprovalKind,
    params: &JsonValue,
    m: &JsonValue,
    inputs: &ApprovalPresentationInputs,
) -> (r: (Option<JsonValue>, Option<String>))
    ensures
        (opt_j(r.0), opt_s(r.1)) == synthesized_details_of(
            kind,
            params@,
            m@,
            opt_j(inputs.command_presentation),
            opt_j(inputs.file_change_presentation),
            opt_s(inputs.file_change_prelude),
        ),
{
    match kind {
        ApprovalKind::FileChange => {
            let presentation = clone_opt_json(&inputs.file_change_presentation);
            let paths = match &presentation {
                Some(p) => match get(p, "paths") {
                    Some(a) => as_array(a),
                    None => None,
                },
                None => None,
            };
            let body = match paths {
                Some(items) => if items.len() > 0 {
                    let strs = crate::codex_questions::strings_among_exec(items);
                    let b = bullets_exec(&strs);
                    Some(concat2("Files:\n", b.as_str()))
                } else {
                    item_hint(params)
                },
                None => item_hint(params),
            };
            let prelude = match &inputs.file_change_prelude {
                Some(p) => Some(p.clone()),
                None => None,
            };
            let details = match join_sparse_exec(prelude, body) {
                Some(d) => Some(d),
                None => Some(owned("Codex proposes file edits.")),
            };
            (presentation, details)
        },
        ApprovalKind::Command => {
            let details = match command_details_at(m) {
                Some(d) => owned(d),
                None => owned("Approve this shell command."),
            };
            (clone_opt_json(&inputs.command_presentation), Some(details))
        },
        _ => {
            let details = match permission_details_at(m) {
                Some(d) => Some(owned(d)),
                None => item_hint(params),
            };
            (None, details)
        },
    }
}

/// The approval event of an approval request with an id, under the id `approval_id`
/// the runner gives it, with Codex's request id and the approval's kind.
pub open spec fn approval_request_of(
    sid: SessionId,
    m: Json,
    approval_id: u128,
    command_presentation: Option<Json>,
    file_change_presentation: Option<Json>,
    prelude: Option<Seq<char>>,
) -> Option<(Json, CodexApprovalKind, EventView)> {
    match jsonrpc_method_spec(m) {
        Some(method) => match approval_kinds_of(method) {
            Some((kind, ck)) => match json_get(m, "id"@) {
                Some(id) => {
                    let params = params_of(m);
                    let pd = match ck {
                        CodexApprovalKind::ExecCommandApproval => (None, exec_details_of(params)),
                        CodexApprovalKind::ApplyPatchApproval => (None, patch_details_of(params)),
                        _ => synthesized_details_of(
                            kind,
                            params,
                            m,
                            command_presentation,
                            file_change_presentation,
                            prelude,
                        ),
                    };
                    Some(
                        (
                            id,
                            ck,
                            EventView::ApprovalRequested {
                                session_id: sid,
                                approval_id,
                                kind,
                                title: approval_title_of(kind, ck),
                                details: pd.1,
                                presentation: pd.0,
                                subject: pd.1,
                                native_request_id: Some(json_text(id)),
                                native_blocking: true,
                                options: canonical_defaults_view(),
                                provider_payload: Some(m),
                            },
                        ),
                    )
                },
                None => None,
            },
            None => None,
        },
        None => None,
    }
}

/// The approval event of an approval request Codex sent, with Codex's request id and
/// the approval's kind; `approval_id` is the id the runner gives the approval.
pub fn normalize_codex_approval_request(
    sid: SessionId,
    m: &JsonValue,
    approval_id: u128,
    inputs: &ApprovalPresentationInputs,
) -> (r: Option<(u128, JsonValue, CodexApprovalKind, NormalizedEvent)>)
    ensures
        match r {
            Some((aid, id, ck, event)) => aid == approval_id && approval_request_of(
                sid,
                m@,
                approval_id,
                opt_j(inputs.command_presentation),
                opt_j(inputs.file_change_presentation),
                opt_s(inputs.file_change_prelude),
            ) == Some((id@, ck, event@)),
            None => approval_request_of(
                sid,
                m@,
                approval_id,
                opt_j(inputs.command_presentation),
                opt_j(inputs.file_change_presentation),
                opt_s(inputs.file_change_prelude),
            ) is None,
        },
{
    let method = match jsonrpc_method(m) {
        Some(method) => method,
        None => return None,
    };
    let (kind, ck) = match approval_kinds(method) {
        Some(k) => k,
        None => return None,
    };
    let id = match get(m, "id") {
        Some(id) => id,
        None => return None,
    };
    let null = JsonValue::Null;
    let params = match get(m, "params") {
        Some(p) => p,
        None => &null,
    };
    let (presentation, details) = match ck {
        CodexApprovalKind::ExecCommandApproval => (None, exec_details(params)),
        CodexApprovalKind::ApplyPatchApproval => (None, patch_details(params)),
        _ => synthesized_details(kind, params, m, inputs),
    };
    let subject = match &details {
        Some(d) => Some(d.clone()),
        None => None,
    };
    let event = NormalizedEvent::ApprovalRequested(ApprovalRequestEvent {
        session_id: sid,
        approval_id,
        kind,
        title: owned(approval_title(kind, ck)),
        details,
        presentation,
        subject,
        native_request_id: Some(json_to_text(id)),
        native_blocking: true,
        options: ApprovalOption::canonical_defaults(),
        provider_payload: Some(json_clone(m)),
    });
    Some((approval_id, json_clone(id), ck, event))
}

// ---------------------------------------------------------------------------
// Replies
// ---------------------------------------------------------------------------

/// The review decision word of the older approval requests.
pub open spec fn review_decision_wire(d: DecisionView) -> Seq<char> {
    match d {
        DecisionView::Accept => "approved"@,
        DecisionView::AcceptForSession => "approved_for_session"@,
        DecisionView::Decline => "denied"@,
        DecisionView::Cancel => "abort"@,
        DecisionView::ProviderSpecific(_) => "denied"@,
    }
}

/// The permission grant sent for every permission decision but a provider-specific
/// one.
pub open spec fn default_permission_grant() -> Json {
    Json::Object(
        seq![
            ("permissions"@, Json::Object(seq![("fileSystem"@, Json::Null), ("network"@, Json::Null)])),
            ("scope"@, Json::Str("turn"@)),
        ],
    )
}

/// The result sent back for a decision on an approval of the given kind.
pub open spec fn approval_response_of(ck: CodexApprovalKind, d: DecisionView) -> Json {
    if ck == CodexApprovalKind::Permissions {
        match d {
            DecisionView::ProviderSpecific(p) => p,
            _ => default_permission_grant(),
        }
    } else if ck == CodexApprovalKind::ExecCommandApproval || ck == CodexApprovalKind::ApplyPatchApproval {
        Json::Object(seq![("decision"@, Json::Str(review_decision_wire(d)))])
    } else {
        match d {
            DecisionView::Accept => Json::Object(seq![("decision"@, Json::Str("accept"@))]),
            DecisionView::AcceptForSession => Json::Object(seq![("decision"@, Json::Str("acceptForSession"@))]),
            DecisionView::Decline => Json::Object(seq![("decision"@, Json::Str("decline"@))]),
            DecisionView::Cancel => Json::Object(seq![("decision"@, Json::Str("cancel"@))]),
            DecisionView::ProviderSpecific(p) => p,
        }
    }
}

fn review_decision(d: &ApprovalDecision) -> (r: &'static str)
    ensures
        r@ == review_decision_wire(d@),
{
    match d {
        ApprovalDecision::Accept => "approved",
        ApprovalDecision::AcceptForSession => "approved_for_session",
        ApprovalDecision::Decline => "denied",
        ApprovalDecision::Cancel => "abort",
        ApprovalDecision::ProviderSpecific { .. } => "denied",
    }
}

/// The result sent back for a decision on an approval of the given kind.
pub fn approval_response_for_decision(ck: CodexApprovalKind, decision: ApprovalDecision) -> (r: JsonValue)
    ensures
        r@ == approval_response_of(ck, decision@),
{
    if ck == CodexApprovalKind::Permissions {
        return match decision {
            ApprovalDecision::ProviderSpecific { payload } => payload,
            _ => obj2(
                "permissions",
                obj2("fileSystem", JsonValue::Null, "network", JsonValue::Null),
                "scope",
                jstr("turn"),
            ),
        };
    }
    if ck == CodexApprovalKind::ExecCommandApproval || ck == CodexApprovalKind::ApplyPatchApproval {
        return obj1("decision", jstr(review_decision(&decision)));
    }
    match decision {
        ApprovalDecision::Accept => obj1("decision", jstr("accept")),
        ApprovalDecision::AcceptForSession => obj1("decision", jstr("acceptForSession")),
        ApprovalDecision::Decline => obj1("decision", jstr("decline")),
        ApprovalDecision::Cancel => obj1("decision", jstr("cancel")),
        ApprovalDecision::ProviderSpecific { payload } => payload,
    }
}

/// The response message `{"id", "result"}`.
pub open spec fn response_envelope(id: Json, result: Json) -> Json {
    Json::Object(seq![("id"@, id), ("result"@, result)])
}

/// The response to an approval request.
pub fn approval_response_message(native_request_id: JsonValue, ck: CodexApprovalKind, decision: ApprovalDecision) -> (r: JsonValue)
    ensures
        r@ == response_envelope(native_request_id@, approval_response_of(ck, decision@)),
{
    obj2("id", native_request_id, "result", approval_response_for_decision(ck, decision))
}

/// The error message `{"id", "error": {"code", "message"}}`, with `data` when given.
pub open spec fn error_envelope(id: Json, code: i64, message: Seq<char>, data: Option<Json>) -> Json {
    Json::Object(seq![("id"@, id), ("error"@, error_object(code, message, data))])
}

/// The `error` member of an error message.
pub open spec fn error_object(code: i64, message: Seq<char>, data: Option<Json>) -> Json {
    if data is Some {
        Json::Object(seq![("code"@, Json::Int(code)), ("data"@, data.unwrap()), ("message"@, Json::Str(message))])
    } else {
        Json::Object(seq![("code"@, Json::Int(code)), ("message"@, Json::Str(message))])
    }
}

/// An application error answering a request Codex sent.
pub fn application_error_response(
    native_request_id: JsonValue,
    code: i64,
    message: &str,
    data: Option<JsonValue>,
) -> (r: JsonValue)
    ensures
        r@ == error_envelope(native_request_id@, code, message@, opt_j(data)),
{
    match data {
        Some(d) => {
            let ghost dd = d@;
            let error = crate::json::obj3("code", JsonValue::Int(code), "data", d, "message", jstr(message));
            let r = obj2("id", native_request_id, "error", error);
            r
        },
        None => {
            let error = obj2("code", JsonValue::Int(code), "message", jstr(message));
            obj2("id", native_request_id, "error", error)
        },
    }
}

/// The refusal of a request method the runner does not serve.
pub fn unsupported_request_response(native_request_id: JsonValue, method: &str) -> (r: JsonValue)
    ensures
        r@ == error_envelope(
            native_request_id@,
            -32601i64,
            "unsupported Codex server request method: "@ + method@,
            None,
        ),
{
    application_error_response(
        native_request_id,
        -32601,
        concat2("unsupported Codex server request method: ", method).as_str(),
        None,
    )
}

/// A request Codex sent, with its id and method, when the message is one.
pub open spec fn unsupported_request_of(m: Json) -> Option<(Json, Seq<char>)> {
    if !is_server_request(m) {
        None
    } else {
        match (json_get(m, "id"@), jsonrpc_method_spec(m)) {
            (Some(id), Some(method)) => Some((id, method)),
            _ => None,
        }
    }
}

/// A request Codex sent, with its id and method, when the message is one.
pub fn unsupported_codex_server_request(m: &JsonValue) -> (r: Option<(JsonValue, &str)>)
    ensures
        match r {
            Some((id, method)) => unsupported_request_of(m@) == Some((id@, method@)),
            None => unsupported_request_of(m@) is None,
        },
{
    if !crate::codex_rpc::codex_rpc_is_codex_server_to_client_request(m) {
        return None;
    }
    let id = match get(m, "id") {
        Some(id) => json_clone(id),
        None => return None,
    };
    match jsonrpc_method(m) {
        Some(method) => Some((id, method)),
        None => None,
    }
}

} // verus!

verus! {

/// The reply to an older approval request (`execCommandApproval`, `applyPatchApproval`)
/// names the decision in review words, one per decision: approved, approved for the
/// session, denied, aborted.
pub proof fn law_legacy_replies_use_review_words(ck: CodexApprovalKind)
    requires
        ck == CodexApprovalKind::ExecCommandApproval || ck == CodexApprovalKind::ApplyPatchApproval,
    ensures
        approval_response_of(ck, DecisionView::Accept) == Json::Object(seq![("decision"@, Json::Str("approved"@))]),
        approval_response_of(ck, DecisionView::AcceptForSession) == Json::Object(
            seq![("decision"@, Json::Str("approved_for_session"@))],
        ),
        approval_response_of(ck, DecisionView::Decline) == Json::Object(seq![("decision"@, Json::Str("denied"@))]),
        approval_response_of(ck, DecisionView::Cancel) == Json::Object(seq![("decision"@, Json::Str("abort"@))]),
        forall|p: Json|
            #[trigger] approval_response_of(ck, DecisionView::ProviderSpecific(p)) == Json::Object(
                seq![("decision"@, Json::Str("denied"@))],
            ),
{
}

/// The reply to a current command or file change approval names the decision in the
/// current words: accept, accept for the session, decline, cancel.
pub proof fn law_current_replies_use_decision_words(ck: CodexApprovalKind)
    requires
        ck == CodexApprovalKind::Command || ck == CodexApprovalKind::FileChange,
    ensures
        approval_response_of(ck, DecisionView::Accept) == Json::Object(seq![("decision"@, Json::Str("accept"@))]),
        approval_response_of(ck, DecisionView::AcceptForSession) == Json::Object(
            seq![("decision"@, Json::Str("acceptForSession"@))],
        ),
        approval_response_of(ck, DecisionView::Decline) == Json::Object(seq![("decision"@, Json::Str("decline"@))]),
        approval_response_of(ck, DecisionView::Cancel) == Json::Object(seq![("decision"@, Json::Str("cancel"@))]),
        forall|p: Json| #[trigger] approval_response_of(ck, DecisionView::ProviderSpecific(p)) == p,
{
}

/// A permission request is answered with the provider's own payload when the decision
/// carries one, and otherwise with a grant of no file system and no network access for
/// the turn.
pub proof fn law_permission_replies(d: DecisionView)
    ensures
        approval_response_of(CodexApprovalKind::Permissions, d) == match d {
            DecisionView::ProviderSpecific(p) => p,
            _ => Json::Object(
                seq![
                    ("permissions"@, Json::Object(seq![("fileSystem"@, Json::Null), ("network"@, Json::Null)])),
                    ("scope"@, Json::Str("turn"@)),
                ],
            ),
        },
{
}

/// Different decisions give different replies to an approval request of any kind but
/// a permission request (where every decision but a provider's own grants the turn's
/// permissions).
pub proof fn law_distinct_decisions_give_distinct_replies(ck: CodexApprovalKind, d1: DecisionView, d2: DecisionView)
    requires
        ck != CodexApprovalKind::Permissions,
        !(d1 is ProviderSpecific),
        !(d2 is ProviderSpecific),
        d1 != d2,
    ensures
        approval_response_of(ck, d1) != approval_response_of(ck, d2),
{
    reveal_strlit("approved");
    reveal_strlit("approved_for_session");
    reveal_strlit("denied");
    reveal_strlit("abort");
    reveal_strlit("accept");
    reveal_strlit("acceptForSession");
    reveal_strlit("decline");
    reveal_strlit("cancel");
    let w1 = approval_response_of(ck, d1);
    let w2 = approval_response_of(ck, d2);
    if w1 == w2 {
        let s1 = json_get(w1, "decision"@);
        assert(s1 == json_get(w2, "decision"@));
        assert("approved"@.len() != "approved_for_session"@.len());
        assert("approved"@[0] != "denied"@[0]);
        assert("approved"@[0] == "abort"@[0] && "approved"@[1] != "abort"@[1]);
        assert("approved_for_session"@.len() != "denied"@.len());
        assert("approved_for_session"@.len() != "abort"@.len());
        assert("denied"@.len() != "abort"@.len());
        assert("accept"@.len() != "acceptForSession"@.len());
        assert("accept"@[0] != "decline"@[0]);
        assert("accept"@[0] != "cancel"@[0]);
        assert("acceptForSession"@.len() != "decline"@.len());
        assert("acceptForSession"@.len() != "cancel"@.len());
        assert("decline"@[0] != "cancel"@[0]);
    }
}

} // verus!

verus! {

/// Each approval request method is read as the approval it asks for: command
/// execution as a command approval, a file change as a file change approval, a
/// permission request as a provider-specific permission approval, and the older
/// `execCommandApproval` and `applyPatchApproval` as command and file change approvals
/// answered in review words; no other method is an approval request.
pub proof fn law_approval_methods_name_their_kinds(method: Seq<char>)
    ensures
        method == "item/commandExecution/requestApproval"@ ==> approval_kinds_of(method) == Some(
            (ApprovalKind::Command, CodexApprovalKind::Command),
        ),
        method == "item/fileChange/requestApproval"@ ==> approval_kinds_of(method) == Some(
            (ApprovalKind::FileChange, CodexApprovalKind::FileChange),
        ),
        method == "item/permissions/requestApproval"@ ==> approval_kinds_of(method) == Some(
            (ApprovalKind::ProviderSpecific, CodexApprovalKind::Permissions),
        ),
        method == "execCommandApproval"@ ==> approval_kinds_of(method) == Some(
            (ApprovalKind::Command, CodexApprovalKind::ExecCommandApproval),
        ),
        method == "applyPatchApproval"@ ==> approval_kinds_of(method) == Some(
            (ApprovalKind::FileChange, CodexApprovalKind::ApplyPatchApproval),
        ),
        (method != "item/commandExecution/requestApproval"@ && method != "item/fileChange/requestApproval"@ && method
            != "item/permissions/requestApproval"@ && method != "execCommandApproval"@ && method
            != "applyPatchApproval"@) ==> approval_kinds_of(method) is None,
{
    reveal_strlit("item/commandExecution/requestApproval");
    reveal_strlit("item/fileChange/requestApproval");
    reveal_strlit("item/permissions/requestApproval");
    reveal_strlit("execCommandApproval");
    reveal_strlit("applyPatchApproval");
    assert("item/commandExecution/requestApproval"@.len() != "item/fileChange/requestApproval"@.len());
    assert("item/commandExecution/requestApproval"@.len() != "item/permissions/requestApproval"@.len());
    assert("item/commandExecution/requestApproval"@.len() != "execCommandApproval"@.len());
    assert("item/commandExecution/requestApproval"@.len() != "applyPatchApproval"@.len());
    assert("item/fileChange/requestApproval"@.len() != "item/permissions/requestApproval"@.len());
    assert("item/fileChange/requestApproval"@.len() != "execCommandApproval"@.len());
    assert("item/fileChange/requestApproval"@.len() != "applyPatchApproval"@.len());
    assert("item/permissions/requestApproval"@.len() != "execCommandApproval"@.len());
    assert("item/permissions/requestApproval"@.len() != "applyPatchApproval"@.len());
    assert("execCommandApproval"@.len() != "applyPatchApproval"@.len());
}

} // verus!
