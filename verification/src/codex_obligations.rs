//! Replies to the requests Codex makes of the user (approvals, questions, unsupported
//! requests), and the detail texts and stable ids the obligations carry.
use vstd::prelude::*;
use crate::json::{Json, JsonValue, json_get, json_path, json_as_bool, json_text, get, at, as_bool, json_clone,
    obj1, obj2, obj3, jstr, json_to_text, path_view};
use crate::codec::{RequestId, request_id_json};
use crate::codex_approvals::{response_envelope, error_envelope};
use crate::codex_questions::{AgentQuestionAnswer, answers_view};
use crate::events::{opt_s, opt_j};
use crate::id_map::NAMESPACE_URL;
use crate::model::{ApprovalDecision, DecisionView, SessionId};
use crate::outside::{new_v5, uuid_v5, uuid_text, uuid_to_text};
use crate::text::{str_eq, concat2, join_on, join_strings, strings_view};

verus! {

/// The `decision` member of a provider-specific payload, else the payload itself.
pub open spec fn payload_decision(p: Json) -> Json {
    match json_get(p, "decision"@) {
        Some(d) => d,
        None => p,
    }
}

/// The decision word of the current approval requests.
pub open spec fn simple_decision_of(d: DecisionView) -> Json {
    match d {
        DecisionView::ProviderSpecific(p) => payload_decision(p),
        DecisionView::Accept => Json::Str("accept"@),
        DecisionView::AcceptForSession => Json::Str("acceptForSession"@),
        DecisionView::Decline => Json::Str("decline"@),
        DecisionView::Cancel => Json::Str("cancel"@),
    }
}

/// The review decision word of the older approval requests.
pub open spec fn legacy_decision_of(d: DecisionView) -> Json {
    match d {
        DecisionView::ProviderSpecific(p) => payload_decision(p),
        DecisionView::Accept => Json::Str("approved"@),
        DecisionView::AcceptForSession => Json::Str("approved_for_session"@),
        DecisionView::Decline => Json::Str("denied"@),
        DecisionView::Cancel => Json::Str("abort"@),
    }
}

fn payload_decision_exec(p: &JsonValue) -> (r: JsonValue)
    ensures
        r@ == payload_decision(p@),
{
    match get(p, "decision") {
        Some(d) => json_clone(d),
        None => json_clone(p),
    }
}

/// The decision of a command approval.
pub fn command_decision_payload(d: &ApprovalDecision) -> (r: JsonValue)
    ensures
        r@ == simple_decision_of(d@),
{
    simple_decision_payload(d)
}

/// The decision of a file change approval.
pub fn simple_decision_payload(d: &ApprovalDecision) -> (r: JsonValue)
    ensures
        r@ == simple_decision_of(d@),
{
    match d {
        ApprovalDecision::ProviderSpecific { payload } => payload_decision_exec(payload),
        ApprovalDecision::Accept => jstr("accept"),
        ApprovalDecision::AcceptForSession => jstr("acceptForSession"),
        ApprovalDecision::Decline => jstr("decline"),
        ApprovalDecision::Cancel => jstr("cancel"),
    }
}

/// The decision of an older approval request.
pub fn legacy_review_decision_payload(d: &ApprovalDecision) -> (r: JsonValue)
    ensures
        r@ == legacy_decision_of(d@),
{
    match d {
        ApprovalDecision::ProviderSpecific { payload } => payload_decision_exec(payload),
        ApprovalDecision::Accept => jstr("approved"),
        ApprovalDecision::AcceptForSession => jstr("approved_for_session"),
        ApprovalDecision::Decline => jstr("denied"),
        ApprovalDecision::Cancel => jstr("abort"),
    }
}

/// The permissions a permission request asked for, or `{}`.
pub open spec fn requested_permissions(original: Option<Json>) -> Json {
    match original {
        Some(raw) => match json_path(raw, seq!["params"@, "permissions"@]) {
            Some(p) => p,
            None => Json::Object(Seq::empty()),
        },
        None => Json::Object(Seq::empty()),
    }
}

/// The grant of a permission request: the provider's own payload; the requested
/// permissions for the turn or the session on acceptance; none on refusal.
pub open spec fn permission_payload_of(d: DecisionView, original: Option<Json>) -> Json {
    match d {
        DecisionView::ProviderSpecific(p) => p,
        DecisionView::Accept | DecisionView::AcceptForSession => Json::Object(
            seq![
                ("permissions"@, requested_permissions(original)),
                (
                    "scope"@,
                    Json::Str(
                        if d is AcceptForSession {
                            "session"@
                        } else {
                            "turn"@
                        },
                    ),
                ),
                ("strictAutoReview"@, Json::Bool(false)),
            ],
        ),
        _ => Json::Object(
            seq![
                ("permissions"@, Json::Object(Seq::empty())),
                ("scope"@, Json::Str("turn"@)),
                ("strictAutoReview"@, Json::Bool(false)),
            ],
        ),
    }
}

fn empty_object() -> (r: JsonValue)
    ensures
        r@ == Json::Object(Seq::empty()),
{
    let entries: Vec<(String, JsonValue)> = Vec::new();
    proof {
        crate::json::lemma_object_view(entries);
        assert(crate::json::entries_view(entries@) =~= Seq::<(Seq<char>, Json)>::empty());
    }
    JsonValue::Object(entries)
}

/// The grant of a permission request.
pub fn permission_response_payload(d: &ApprovalDecision, original: Option<&JsonValue>) -> (r: JsonValue)
    ensures
        r@ == permission_payload_of(
            d@,
            match original {
                Some(o) => Some(o@),
                None => None,
            },
        ),
{
    match d {
        ApprovalDecision::ProviderSpecific { payload } => json_clone(payload),
        ApprovalDecision::Accept | ApprovalDecision::AcceptForSession => {
            let path: [&str; 2] = ["params", "permissions"];
            proof {
                assert(path_view(path@) =~= seq!["params"@, "permissions"@]);
            }
            let permissions = match original {
                Some(raw) => match at(raw, &path) {
                    Some(p) => json_clone(p),
                    None => empty_object(),
                },
                None => empty_object(),
            };
            let scope = match d {
                ApprovalDecision::AcceptForSession => "session",
                _ => "turn",
            };
            obj3("permissions", permissions, "scope", jstr(scope), "strictAutoReview", JsonValue::Bool(false))
        },
        _ => obj3("permissions", empty_object(), "scope", jstr("turn"), "strictAutoReview", JsonValue::Bool(false)),
    }
}

/// The result of an approval, by the request's method.
pub open spec fn approval_result_of(method: Seq<char>, d: DecisionView, original: Option<Json>) -> Json {
    if method == "item/commandExecution/requestApproval"@ {
        Json::Object(seq![("decision"@, simple_decision_of(d))])
    } else if method == "item/fileChange/requestApproval"@ {
        Json::Object(seq![("decision"@, simple_decision_of(d))])
    } else if method == "item/permissions/requestApproval"@ {
        permission_payload_of(d, original)
    } else if method == "ApplyPatchApproval"@ || method == "ExecCommandApproval"@ {
        Json::Object(seq![("decision"@, legacy_decision_of(d))])
    } else {
        match d {
            DecisionView::ProviderSpecific(p) => p,
            _ => Json::Object(seq![("decision"@, Json::Str("decline"@))]),
        }
    }
}

/// The response to an approval request.
pub fn codex_approval_response(
    request_id: &RequestId,
    method: &str,
    decision: &ApprovalDecision,
    original: Option<&JsonValue>,
) -> (r: JsonValue)
    ensures
        r@ == response_envelope(
            request_id_json(request_id@),
            approval_result_of(
                method@,
                decision@,
                match original {
                    Some(o) => Some(o@),
                    None => None,
                },
            ),
        ),
{
    let result = if str_eq(method, "item/commandExecution/requestApproval") {
        obj1("decision", command_decision_payload(decision))
    } else if str_eq(method, "item/fileChange/requestApproval") {
        obj1("decision", simple_decision_payload(decision))
    } else if str_eq(method, "item/permissions/requestApproval") {
        permission_response_payload(decision, original)
    } else if str_eq(method, "ApplyPatchApproval") || str_eq(method, "ExecCommandApproval") {
        obj1("decision", legacy_review_decision_payload(decision))
    } else {
        match decision {
            ApprovalDecision::ProviderSpecific { payload } => json_clone(payload),
            _ => obj1("decision", jstr("decline")),
        }
    };
    obj2("id", request_id.to_json(), "result", result)
}

/// The response to a tool input question.
pub fn codex_tool_user_input_response(request_id: &RequestId, answer: &AgentQuestionAnswer) -> (r: JsonValue)
    ensures
        r@ == response_envelope(
            request_id_json(request_id@),
            crate::codex_questions::question_response_of(
                crate::codex_questions::CodexQuestionKind::ToolUserInput,
                answers_view(answer.answers@),
            ),
        ),
{
    obj2(
        "id",
        request_id.to_json(),
        "result",
        crate::codex_questions::question_response_for_answer(
            crate::codex_questions::CodexQuestionKind::ToolUserInput,
            answer,
        ),
    )
}

/// An MCP elicitation action the protocol knows: `accept`, `cancel`, else `decline`.
pub open spec fn elicitation_action(action: Seq<char>) -> Seq<char> {
    if action == "accept"@ {
        "accept"@
    } else if action == "cancel"@ {
        "cancel"@
    } else {
        "decline"@
    }
}

pub open spec fn opt_or_null(o: Option<Json>) -> Json {
    match o {
        Some(v) => v,
        None => Json::Null,
    }
}

/// The response to an MCP elicitation.
pub fn codex_mcp_elicitation_response(
    request_id: &RequestId,
    action: &str,
    content: Option<JsonValue>,
    meta: Option<JsonValue>,
) -> (r: JsonValue)
    ensures
        r@ == response_envelope(
            request_id_json(request_id@),
            Json::Object(
                seq![
                    ("_meta"@, opt_or_null(opt_j(meta))),
                    ("action"@, Json::Str(elicitation_action(action@))),
                    ("content"@, opt_or_null(opt_j(content))),
                ],
            ),
        ),
{
    let action: &str = if str_eq(action, "accept") {
        "accept"
    } else if str_eq(action, "cancel") {
        "cancel"
    } else {
        "decline"
    };
    let content = match content {
        Some(c) => c,
        None => JsonValue::Null,
    };
    let meta = match meta {
        Some(m) => m,
        None => JsonValue::Null,
    };
    obj2("id", request_id.to_json(), "result", obj3("_meta", meta, "action", jstr(action), "content", content))
}

/// The result telling Codex a dynamic tool call did not run.
pub open spec fn unsupported_tool_result(message: Seq<char>) -> Json {
    Json::Object(
        seq![
            (
                "contentItems"@,
                Json::Array(seq![Json::Object(seq![("text"@, Json::Str(message)), ("type"@, Json::Str("inputText"@))])]),
            ),
            ("success"@, Json::Bool(false)),
        ],
    )
}

/// The result telling Codex a dynamic tool call did not run.
pub fn codex_unsupported_response(request_id: &RequestId, message: String) -> (r: JsonValue)
    ensures
        r@ == response_envelope(request_id_json(request_id@), unsupported_tool_result(message@)),
{
    let item = obj2("text", JsonValue::Str(message), "type", jstr("inputText"));
    let ghost iv = item@;
    let mut items = Vec::new();
    items.push(item);
    let array = JsonValue::Array(items);
    proof {
        match array@ {
            Json::Array(x) => {
                assert(x =~= seq![iv]);
            },
            _ => {},
        }
    }
    obj2("id", request_id.to_json(), "result", obj2("contentItems", array, "success", JsonValue::Bool(false)))
}

/// The error telling Codex a request method is not served.
pub fn codex_unsupported_error_response(request_id: &RequestId, message: String) -> (r: JsonValue)
    ensures
        r@ == error_envelope(request_id_json(request_id@), -32601i64, message@, None),
{
    crate::codex_approvals::application_error_response(request_id.to_json(), -32601, message.as_str(), None)
}

// ---------------------------------------------------------------------------
// Details and ids
// ---------------------------------------------------------------------------

/// `details` with `label: value` added when the value is present and not empty.
pub open spec fn labeled(details: Seq<Seq<char>>, label: Seq<char>, value: Option<Seq<char>>) -> Seq<Seq<char>> {
    match value {
        Some(v) => if v.len() > 0 {
            details.push(label + ": "@ + v)
        } else {
            details
        },
        None => details,
    }
}

/// Adds `label: value` when the value is present and not empty.
pub fn push_labeled(details: &mut Vec<String>, label: &str, value: Option<&str>)
    ensures
        strings_view(final(details)@) == labeled(
            strings_view(old(details)@),
            label@,
            crate::json::opt_str(value),
        ),
{
    match value {
        Some(v) => {
            if v.unicode_len() > 0 {
                let ghost before = details@;
                let mut line = concat2(label, ": ");
                line.append(v);
                details.push(line);
                proof {
                    assert(strings_view(details@) =~= strings_view(before).push(label@ + ": "@ + v@));
                }
            }
        },
        None => {},
    }
}

/// `details` with `label: value` (the value as JSON text) added when it is not null.
pub open spec fn labeled_json(details: Seq<Seq<char>>, label: Seq<char>, value: Option<Json>) -> Seq<Seq<char>> {
    match value {
        Some(v) => if v is Null {
            details
        } else {
            details.push(label + ": "@ + json_text(v))
        },
        None => details,
    }
}

/// Adds `label: value` (as JSON text) when the value is present and not null.
pub fn push_json(details: &mut Vec<String>, label: &str, value: Option<&JsonValue>)
    ensures
        strings_view(final(details)@) == labeled_json(
            strings_view(old(details)@),
            label@,
            match value {
                Some(v) => Some(v@),
                None => None,
            },
        ),
{
    match value {
        Some(v) => match v {
            JsonValue::Null => {},
            _ => {
                let ghost before = details@;
                let mut line = concat2(label, ": ");
                let text = json_to_text(v);
                line.append(text.as_str());
                details.push(line);
                proof {
                    assert(strings_view(details@) =~= strings_view(before).push(label@ + ": "@ + json_text(v@)));
                }
            },
        },
        None => {},
    }
}

/// The detail lines joined by newlines, when there are any.
pub open spec fn joined_details(details: Seq<Seq<char>>) -> Option<Seq<char>> {
    if details.len() == 0 {
        None
    } else {
        Some(join_on(details, "\n"@))
    }
}

/// The detail lines joined by newlines, when there are any.
pub fn join_details(details: Vec<String>) -> (r: Option<String>)
    ensures
        opt_s(r) == joined_details(strings_view(details@)),
{
    if details.len() == 0 {
        None
    } else {
        Some(join_strings(&details, "\n"))
    }
}

/// A scalar as text: a non-empty string as is, a number or boolean as JSON text.
pub open spec fn value_text(v: Json) -> Option<Seq<char>> {
    match v {
        Json::Str(s) => if s.len() > 0 {
            Some(s)
        } else {
            None
        },
        Json::Int(_) | Json::UInt(_) | Json::Float(_) | Json::Bool(_) => Some(json_text(v)),
        _ => None,
    }
}

/// A scalar as text.
pub fn value_to_string(v: &JsonValue) -> (r: Option<String>)
    ensures
        opt_s(r) == value_text(v@),
{
    match v {
        JsonValue::Str(s) => if s.as_str().unicode_len() > 0 {
            Some(s.clone())
        } else {
            None
        },
        JsonValue::Int(_) | JsonValue::UInt(_) | JsonValue::Float(_) | JsonValue::Bool(_) => Some(json_to_text(v)),
        _ => None,
    }
}

/// Whether a request blocks Codex until answered: its `blocking` (at the top, else in
/// `params`) when that is present, else yes.
pub open spec fn blocking_of(raw: Json) -> bool {
    let b = match json_get(raw, "blocking"@) {
        Some(x) => Some(x),
        None => json_path(raw, seq!["params"@, "blocking"@]),
    };
    match b {
        Some(x) => match json_as_bool(x) {
            Some(v) => v,
            None => true,
        },
        None => true,
    }
}

/// Whether a request blocks Codex until answered.
pub fn native_blocking(raw: &JsonValue) -> (r: bool)
    ensures
        r == blocking_of(raw@),
{
    let path: [&str; 2] = ["params", "blocking"];
    proof {
        assert(path_view(path@) =~= seq!["params"@, "blocking"@]);
    }
    let b = match get(raw, "blocking") {
        Some(x) => Some(x),
        None => at(raw, &path),
    };
    match b {
        Some(x) => match as_bool(x) {
            Some(v) => v,
            None => true,
        },
        None => true,
    }
}

/// The stable id of an obligation: the name-based UUID of
/// `agenter:codex:obligation:{session}:{kind}:{key}` in the URL namespace.
pub open spec fn obligation_uuid(session: SessionId, kind: Seq<char>, key: Seq<char>) -> u128 {
    uuid_v5(NAMESPACE_URL, "agenter:codex:obligation:"@ + uuid_text(session.0) + ":"@ + kind + ":"@ + key)
}

/// The stable id of an obligation.
pub fn stable_uuid(session: SessionId, kind: &str, key: &str) -> (r: u128)
    ensures
        r == obligation_uuid(session, kind@, key@),
{
    let session_text = uuid_to_text(session.0);
    let mut name = concat2("agenter:codex:obligation:", session_text.as_str());
    name.append(":");
    name.append(kind);
    name.append(":");
    name.append(key);
    new_v5(NAMESPACE_URL, name.as_str())
}

} // verus!

verus! {

/// The decision words of the older approval requests, one per decision.
pub proof fn law_legacy_decision_words()
    ensures
        legacy_decision_of(DecisionView::Accept) == Json::Str("approved"@),
        legacy_decision_of(DecisionView::AcceptForSession) == Json::Str("approved_for_session"@),
        legacy_decision_of(DecisionView::Decline) == Json::Str("denied"@),
        legacy_decision_of(DecisionView::Cancel) == Json::Str("abort"@),
        simple_decision_of(DecisionView::Accept) == Json::Str("accept"@),
        simple_decision_of(DecisionView::AcceptForSession) == Json::Str("acceptForSession"@),
        simple_decision_of(DecisionView::Decline) == Json::Str("decline"@),
        simple_decision_of(DecisionView::Cancel) == Json::Str("cancel"@),
{
}

} // verus!
