//! The runner's obligations for the requests Codex makes of it: each server request
//! becomes an approval, a question, or a reported unsupported request with the reply
//! Codex is owed.
use vstd::prelude::*;
use crate::json::{Json, JsonValue, json_get, json_path, json_as_str, json_as_array, values_view, get, at,
    as_str, as_array, json_clone, obj1, path_view};
use crate::codec::{RequestIdView, CodexServerRequestFrame, request_id_text, request_id_json,
    CODEX_APP_SERVER_PROTOCOL};
use crate::codex_approvals::{response_envelope, error_envelope};
use crate::codex_obligations::{labeled, labeled_json, joined_details, value_text, blocking_of, obligation_uuid,
    push_labeled, push_json, join_details, value_to_string, native_blocking, stable_uuid, unsupported_tool_result,
    codex_unsupported_response, codex_unsupported_error_response};
use crate::codex_questions::{AgentQuestionChoice, AgentQuestionField, ChoiceView, FieldView, choices_view,
    fields_view, member_text, member_bool, items_at, items_at_exec, strings_among, strings_among_exec};
use crate::events::{ApprovalKind, opt_s, opt_j};
use crate::id_map::{CodexIdMap, session_namespace, codex_turn_uuid, codex_item_uuid};
use crate::model::{NativeRef, NativeRefView, SessionId, TurnId, ItemId, ProviderNotificationSeverity};
use crate::universal::ProviderNotification;
use crate::text::{owned, str_eq, concat2, concat3, join_on, join_strings, strings_view, nat_decimal, u64_decimal};

verus! {

// ---------------------------------------------------------------------------
// Approval options
// ---------------------------------------------------------------------------

/// What choosing an approval option does.
#[derive(Clone, Copy, Debug, PartialEq, Eq, Structural)]
pub enum ApprovalOptionKind {
    ApproveOnce,
    ApproveAlways,
    Deny,
    CancelTurn,
    PersistApprovalRule,
}

/// One answer the user may give to an approval.
#[derive(Debug, PartialEq)]
pub struct ApprovalOption {
    pub option_id: String,
    pub kind: ApprovalOptionKind,
    pub label: String,
    pub description: Option<String>,
    pub scope: Option<String>,
    pub native_option_id: Option<String>,
}

pub struct OptionView {
    pub option_id: Seq<char>,
    pub kind: ApprovalOptionKind,
    pub label: Seq<char>,
    pub description: Option<Seq<char>>,
    pub scope: Option<Seq<char>>,
    pub native_option_id: Option<Seq<char>>,
}

impl View for ApprovalOption {
    type V = OptionView;

    open spec fn view(&self) -> OptionView {
        OptionView {
            option_id: self.option_id@,
            kind: self.kind,
            label: self.label@,
            description: opt_s(self.description),
            scope: opt_s(self.scope),
            native_option_id: opt_s(self.native_option_id),
        }
    }
}

pub open spec fn options_view(v: Seq<ApprovalOption>) -> Seq<OptionView> {
    v.map_values(|o: ApprovalOption| o@)
}

pub open spec fn approve_once_view() -> OptionView {
    OptionView {
        option_id: "approve_once"@,
        kind: ApprovalOptionKind::ApproveOnce,
        label: "Approve once"@,
        description: None,
        scope: Some("once"@),
        native_option_id: None,
    }
}

pub open spec fn approve_always_view() -> OptionView {
    OptionView {
        option_id: "approve_always"@,
        kind: ApprovalOptionKind::ApproveAlways,
        label: "Approve for session"@,
        description: None,
        scope: Some("session"@),
        native_option_id: None,
    }
}

pub open spec fn deny_view() -> OptionView {
    OptionView {
        option_id: "deny"@,
        kind: ApprovalOptionKind::Deny,
        label: "Deny"@,
        description: None,
        scope: None,
        native_option_id: None,
    }
}

pub open spec fn cancel_turn_view() -> OptionView {
    OptionView {
        option_id: "cancel_turn"@,
        kind: ApprovalOptionKind::CancelTurn,
        label: "Cancel turn"@,
        description: None,
        scope: None,
        native_option_id: None,
    }
}

/// Approve once, approve for the session, deny, cancel the turn.
pub open spec fn canonical_defaults_view() -> Seq<OptionView> {
    seq![approve_once_view(), approve_always_view(), deny_view(), cancel_turn_view()]
}

/// The option that applies Codex's proposed exec policy amendment.
pub open spec fn execpolicy_option_view() -> OptionView {
    OptionView {
        option_id: "accept_with_execpolicy_amendment"@,
        kind: ApprovalOptionKind::PersistApprovalRule,
        label: "Approve and remember command policy"@,
        description: Some("Apply Codex's proposed exec policy amendment."@),
        scope: Some("policy"@),
        native_option_id: Some("acceptWithExecpolicyAmendment"@),
    }
}

/// The option that applies one of Codex's proposed network policy amendments.
pub open spec fn network_option_view() -> OptionView {
    OptionView {
        option_id: "apply_network_policy_amendment"@,
        kind: ApprovalOptionKind::PersistApprovalRule,
        label: "Apply network policy"@,
        description: Some("Apply one of Codex's proposed network policy amendments."@),
        scope: Some("policy"@),
        native_option_id: Some("applyNetworkPolicyAmendment"@),
    }
}

fn option(
    option_id: &str,
    kind: ApprovalOptionKind,
    label: &str,
    description: Option<&str>,
    scope: Option<&str>,
    native_option_id: Option<&str>,
) -> (r: ApprovalOption)
    ensures
        r@ == (OptionView {
            option_id: option_id@,
            kind,
            label: label@,
            description: crate::json::opt_str(description),
            scope: crate::json::opt_str(scope),
            native_option_id: crate::json::opt_str(native_option_id),
        }),
{
    ApprovalOption {
        option_id: owned(option_id),
        kind,
        label: owned(label),
        description: match description {
            Some(d) => Some(owned(d)),
            None => None,
        },
        scope: match scope {
            Some(s) => Some(owned(s)),
            None => None,
        },
        native_option_id: match native_option_id {
            Some(n) => Some(owned(n)),
            None => None,
        },
    }
}

impl ApprovalOption {
    pub fn approve_once() -> (r: Self)
        ensures
            r@ == approve_once_view(),
    {
        option("approve_once", ApprovalOptionKind::ApproveOnce, "Approve once", None, Some("once"), None)
    }

    pub fn approve_always() -> (r: Self)
        ensures
            r@ == approve_always_view(),
    {
        option("approve_always", ApprovalOptionKind::ApproveAlways, "Approve for session", None, Some("session"), None)
    }

    pub fn deny() -> (r: Self)
        ensures
            r@ == deny_view(),
    {
        option("deny", ApprovalOptionKind::Deny, "Deny", None, None, None)
    }

    pub fn cancel_turn() -> (r: Self)
        ensures
            r@ == cancel_turn_view(),
    {
        option("cancel_turn", ApprovalOptionKind::CancelTurn, "Cancel turn", None, None, None)
    }

    pub fn canonical_defaults() -> (r: Vec<Self>)
        ensures
            options_view(r@) == canonical_defaults_view(),
    {
        let mut v = Vec::new();
        v.push(Self::approve_once());
        v.push(Self::approve_always());
        v.push(Self::deny());
        v.push(Self::cancel_turn());
        proof {
            assert(options_view(v@) =~= canonical_defaults_view());
        }
        v
    }
}

/// The name of a decision Codex offers: the decision itself when it is a string, else
/// its `type`.
pub open spec fn decision_name(d: Json) -> Option<Seq<char>> {
    match json_as_str(d) {
        Some(s) => Some(s),
        None => member_text(d, "type"@),
    }
}

/// The option for a decision Codex offers, when the runner knows the decision.
pub open spec fn decision_option(name: Seq<char>) -> Option<OptionView> {
    if name == "accept"@ {
        Some(approve_once_view())
    } else if name == "acceptForSession"@ {
        Some(approve_always_view())
    } else if name == "decline"@ {
        Some(deny_view())
    } else if name == "cancel"@ {
        Some(cancel_turn_view())
    } else {
        None
    }
}

/// The options for the decisions Codex offers, in order, unknown ones left out.
pub open spec fn native_decision_options(items: Seq<Json>) -> Seq<OptionView>
    decreases items.len(),
{
    if items.len() == 0 {
        Seq::empty()
    } else {
        let prev = native_decision_options(items.drop_last());
        match decision_name(items.last()) {
            Some(n) => match decision_option(n) {
                Some(o) => prev.push(o),
                None => prev,
            },
            None => prev,
        }
    }
}

/// The options of a command approval: those of the decisions Codex offers (the
/// canonical ones when it offers none the runner knows), then one for a proposed exec
/// policy amendment and one for proposed network policy amendments.
pub open spec fn command_options_of(raw: Json) -> Seq<OptionView> {
    let offered = native_decision_options(items_at(raw, seq!["params"@, "availableDecisions"@]));
    let base = if offered.len() == 0 {
        canonical_defaults_view()
    } else {
        offered
    };
    let with_exec = if json_path(raw, seq!["params"@, "proposedExecpolicyAmendment"@]) is Some {
        base.push(execpolicy_option_view())
    } else {
        base
    };
    if items_at(raw, seq!["params"@, "proposedNetworkPolicyAmendments"@]).len() > 0 {
        with_exec.push(network_option_view())
    } else {
        with_exec
    }
}

fn decision_option_exec(d: &JsonValue) -> (r: Option<ApprovalOption>)
    ensures
        match r {
            Some(o) => match decision_name(d@) {
                Some(n) => decision_option(n) == Some(o@),
                None => false,
            },
            None => match decision_name(d@) {
                Some(n) => decision_option(n) is None,
                None => true,
            },
        },
{
    let name = match as_str(d) {
        Some(s) => Some(s),
        None => crate::codex_questions::member_str(d, "type"),
    };
    match name {
        Some(n) => {
            if str_eq(n, "accept") {
                Some(ApprovalOption::approve_once())
            } else if str_eq(n, "acceptForSession") {
                Some(ApprovalOption::approve_always())
            } else if str_eq(n, "decline") {
                Some(ApprovalOption::deny())
            } else if str_eq(n, "cancel") {
                Some(ApprovalOption::cancel_turn())
            } else {
                None
            }
        },
        None => None,
    }
}

/// The options of a command approval.
pub fn command_options(raw: &JsonValue) -> (r: Vec<ApprovalOption>)
    ensures
        options_view(r@) == command_options_of(raw@),
{
    let decisions_path: [&str; 2] = ["params", "availableDecisions"];
    let exec_path: [&str; 2] = ["params", "proposedExecpolicyAmendment"];
    let network_path: [&str; 2] = ["params", "proposedNetworkPolicyAmendments"];
    proof {
        assert(path_view(decisions_path@) =~= seq!["params"@, "availableDecisions"@]);
        assert(path_view(exec_path@) =~= seq!["params"@, "proposedExecpolicyAmendment"@]);
        assert(path_view(network_path@) =~= seq!["params"@, "proposedNetworkPolicyAmendments"@]);
    }
    let mut options: Vec<ApprovalOption> = Vec::new();
    let ghost offered = items_at(raw@, seq!["params"@, "availableDecisions"@]);
    match items_at_exec(raw, &decisions_path) {
        Some(ds) => {
            let ghost dv = values_view(ds@);
            let mut i: usize = 0;
            proof {
                assert(dv.subrange(0, 0) =~= Seq::<Json>::empty());
                assert(options_view(options@) =~= Seq::<OptionView>::empty());
            }
            while i < ds.len()
                invariant
                    i <= ds.len(),
                    dv == values_view(ds@),
                    options_view(options@) == native_decision_options(dv.subrange(0, i as int)),
                decreases ds.len() - i,
            {
                proof {
                    assert(dv.subrange(0, i + 1).drop_last() =~= dv.subrange(0, i as int));
                    assert(dv.subrange(0, i + 1).last() == ds@[i as int]@);
                }
                match decision_option_exec(&ds[i]) {
                    Some(o) => {
                        let ghost before = options@;
                        let ghost ov = o@;
                        options.push(o);
                        proof {
                            assert(options_view(options@) =~= options_view(before).push(ov));
                        }
                    },
                    None => {},
                }
                i = i + 1;
            }
            proof {
                assert(dv.subrange(0, ds@.len() as int) =~= dv);
            }
        },
        None => {
            proof {
                assert(options_view(options@) =~= Seq::<OptionView>::empty());
                assert(offered =~= Seq::<Json>::empty());
            }
        },
    }
    if options.len() == 0 {
        options = ApprovalOption::canonical_defaults();
    }
    if at(raw, &exec_path).is_some() {
        let ghost before = options@;
        let o = option(
            "accept_with_execpolicy_amendment",
            ApprovalOptionKind::PersistApprovalRule,
            "Approve and remember command policy",
            Some("Apply Codex's proposed exec policy amendment."),
            Some("policy"),
            Some("acceptWithExecpolicyAmendment"),
        );
        let ghost ov = o@;
        options.push(o);
        proof {
            assert(ov == execpolicy_option_view());
            assert(options_view(options@) =~= options_view(before).push(ov));
        }
    }
    let has_network = match items_at_exec(raw, &network_path) {
        Some(a) => a.len() > 0,
        None => false,
    };
    if has_network {
        let ghost before = options@;
        let o = option(
            "apply_network_policy_amendment",
            ApprovalOptionKind::PersistApprovalRule,
            "Apply network policy",
            Some("Apply one of Codex's proposed network policy amendments."),
            Some("policy"),
            Some("applyNetworkPolicyAmendment"),
        );
        let ghost ov = o@;
        options.push(o);
        proof {
            assert(ov == network_option_view());
            assert(options_view(options@) =~= options_view(before).push(ov));
        }
    }
    options
}

// ---------------------------------------------------------------------------
// Obligations
// ---------------------------------------------------------------------------

/// An approval the user owes Codex.
#[derive(Debug, PartialEq)]
pub struct ApprovalRequest {
    pub approval_id: u128,
    pub session_id: SessionId,
    pub turn_id: Option<TurnId>,
    pub item_id: Option<ItemId>,
    pub kind: ApprovalKind,
    pub title: String,
    pub details: Option<String>,
    pub options: Vec<ApprovalOption>,
    pub subject: Option<String>,
    pub native_request_id: Option<String>,
    pub native_blocking: bool,
    pub native: Option<NativeRef>,
}

pub struct ApprovalView {
    pub approval_id: u128,
    pub session_id: SessionId,
    pub turn_id: Option<TurnId>,
    pub item_id: Option<ItemId>,
    pub kind: ApprovalKind,
    pub title: Seq<char>,
    pub details: Option<Seq<char>>,
    pub options: Seq<OptionView>,
    pub subject: Option<Seq<char>>,
    pub native_request_id: Option<Seq<char>>,
    pub native_blocking: bool,
    pub native: Option<NativeRefView>,
}

impl View for ApprovalRequest {
    type V = ApprovalView;

    open spec fn view(&self) -> ApprovalView {
        ApprovalView {
            approval_id: self.approval_id,
            session_id: self.session_id,
            turn_id: self.turn_id,
            item_id: self.item_id,
            kind: self.kind,
            title: self.title@,
            details: opt_s(self.details),
            options: options_view(self.options@),
            subject: opt_s(self.subject),
            native_request_id: opt_s(self.native_request_id),
            native_blocking: self.native_blocking,
            native: match self.native {
                Some(n) => Some(n@),
                None => None,
            },
        }
    }
}

/// A question the user owes Codex.
#[derive(Debug, PartialEq)]
pub struct QuestionState {
    pub question_id: u128,
    pub session_id: SessionId,
    pub turn_id: Option<TurnId>,
    pub title: String,
    pub description: Option<String>,
    pub fields: Vec<AgentQuestionField>,
    pub native_request_id: Option<String>,
    pub native_blocking: bool,
    pub native: Option<NativeRef>,
}

pub struct QuestionView {
    pub question_id: u128,
    pub session_id: SessionId,
    pub turn_id: Option<TurnId>,
    pub title: Seq<char>,
    pub description: Option<Seq<char>>,
    pub fields: Seq<FieldView>,
    pub native_request_id: Option<Seq<char>>,
    pub native_blocking: bool,
    pub native: Option<NativeRefView>,
}

impl View for QuestionState {
    type V = QuestionView;

    open spec fn view(&self) -> QuestionView {
        QuestionView {
            question_id: self.question_id,
            session_id: self.session_id,
            turn_id: self.turn_id,
            title: self.title@,
            description: opt_s(self.description),
            fields: fields_view(self.fields@),
            native_request_id: opt_s(self.native_request_id),
            native_blocking: self.native_blocking,
            native: match self.native {
                Some(n) => Some(n@),
                None => None,
            },
        }
    }
}

/// What a Codex server request becomes.
#[derive(Debug, PartialEq)]
pub enum CodexServerRequestOutput {
    ApprovalRequested(ApprovalRequest),
    QuestionRequested(QuestionState),
    NativeUnsupported { title: String, detail: String, native: NativeRef, response: JsonValue },
}

pub enum OutputView {
    Approval(ApprovalView),
    Question(QuestionView),
    Unsupported { title: Seq<char>, detail: Seq<char>, native: NativeRefView, response: Json },
}

impl View for CodexServerRequestOutput {
    type V = OutputView;

    open spec fn view(&self) -> OutputView {
        match self {
            CodexServerRequestOutput::ApprovalRequested(a) => OutputView::Approval(a@),
            CodexServerRequestOutput::QuestionRequested(q) => OutputView::Question(q@),
            CodexServerRequestOutput::NativeUnsupported { title, detail, native, response } => OutputView::Unsupported {
                title: title@,
                detail: detail@,
                native: native@,
                response: response@,
            },
        }
    }
}

// ---------------------------------------------------------------------------
// Request parameters
// ---------------------------------------------------------------------------

/// A member of the request's `params`.
pub open spec fn param(raw: Json, key: Seq<char>) -> Option<Json> {
    json_path(raw, seq!["params"@, key])
}

/// A member of the request's `params` as text (see [`value_text`]).
pub open spec fn param_text(raw: Json, key: Seq<char>) -> Option<Seq<char>> {
    match param(raw, key) {
        Some(v) => value_text(v),
        None => None,
    }
}

/// The first of two optional texts that is present, else a fallback.
pub open spec fn first_text(a: Option<Seq<char>>, b: Option<Seq<char>>, fallback: Seq<char>) -> Seq<char> {
    match a {
        Some(x) => x,
        None => match b {
            Some(y) => y,
            None => fallback,
        },
    }
}

/// The universal turn of the request's thread and turn, when it names both.
pub open spec fn turn_of(namespace: u128, raw: Json) -> Option<TurnId> {
    match (param_text(raw, "threadId"@), param_text(raw, "turnId"@)) {
        (Some(t), Some(u)) => Some(TurnId(codex_turn_uuid(namespace, t, u))),
        _ => None,
    }
}

/// The universal item of the request's thread and item, when it names both.
pub open spec fn item_of(namespace: u128, raw: Json) -> Option<ItemId> {
    match (param_text(raw, "threadId"@), param_text(raw, "itemId"@)) {
        (Some(t), Some(i)) => Some(ItemId(codex_item_uuid(namespace, t, i))),
        _ => None,
    }
}

/// The native reference of a server request.
pub open spec fn server_native(method: Seq<char>, id: RequestIdView, raw: Json) -> NativeRefView {
    NativeRefView {
        protocol: CODEX_APP_SERVER_PROTOCOL@,
        method: Some(method),
        kind: Some("server_request"@),
        native_id: Some(request_id_text(id)),
        summary: None,
        hash: None,
        pointer: None,
        raw_payload: Some(raw),
    }
}

fn param_exec<'a>(raw: &'a JsonValue, key: &str) -> (r: Option<&'a JsonValue>)
    ensures
        crate::json::opt_json(r) == param(raw@, key@),
{
    let path: [&str; 2] = ["params", key];
    proof {
        assert(path_view(path@) =~= seq!["params"@, key@]);
    }
    at(raw, &path)
}

fn param_text_exec(raw: &JsonValue, key: &str) -> (r: Option<String>)
    ensures
        opt_s(r) == param_text(raw@, key@),
{
    match param_exec(raw, key) {
        Some(v) => value_to_string(v),
        None => None,
    }
}

fn turn_exec(id_map: &mut CodexIdMap, raw: &JsonValue) -> (r: Option<TurnId>)
    requires
        old(id_map).wf(),
    ensures
        final(id_map).wf(),
        final(id_map)@.namespace == old(id_map)@.namespace,
        r == turn_of(old(id_map)@.namespace, raw@),
{
    let thread = match param_text_exec(raw, "threadId") {
        Some(t) => t,
        None => return None,
    };
    let turn = match param_text_exec(raw, "turnId") {
        Some(t) => t,
        None => return None,
    };
    Some(id_map.turn_id(thread.as_str(), turn.as_str()))
}

fn item_exec(id_map: &mut CodexIdMap, raw: &JsonValue) -> (r: Option<ItemId>)
    requires
        old(id_map).wf(),
    ensures
        final(id_map).wf(),
        final(id_map)@.namespace == old(id_map)@.namespace,
        r == item_of(old(id_map)@.namespace, raw@),
{
    let thread = match param_text_exec(raw, "threadId") {
        Some(t) => t,
        None => return None,
    };
    let item = match param_text_exec(raw, "itemId") {
        Some(t) => t,
        None => return None,
    };
    Some(id_map.item_id(thread.as_str(), item.as_str()))
}

/// The native reference of a server request.
pub fn native_ref_for_server_request(request: &CodexServerRequestFrame) -> (r: NativeRef)
    ensures
        r@ == server_native(request.method@, request.request_id@, request.raw_payload@),
{
    NativeRef {
        protocol: owned(CODEX_APP_SERVER_PROTOCOL),
        method: Some(request.method.clone()),
        kind: Some(owned("server_request")),
        native_id: Some(request.request_id.to_text()),
        summary: None,
        hash: None,
        pointer: None,
        raw_payload: Some(json_clone(&request.raw_payload)),
    }
}

// ---------------------------------------------------------------------------
// Approvals
// ---------------------------------------------------------------------------

/// The approval of `item/commandExecution/requestApproval`: keyed by the approval id,
/// else the item id, else the request id; titled by the command.
pub open spec fn command_approval_of(session: SessionId, ns: u128, method: Seq<char>, id: RequestIdView, raw: Json) -> ApprovalView {
    let key = first_text(param_text(raw, "approvalId"@), param_text(raw, "itemId"@), request_id_text(id));
    let command = param_text(raw, "command"@);
    let cwd = param_text(raw, "cwd"@);
    let d = labeled(labeled(labeled(Seq::empty(), "Command"@, command), "Cwd"@, cwd), "Reason"@, param_text(raw, "reason"@));
    let d = labeled_json(d, "Additional permissions"@, param(raw, "additionalPermissions"@));
    let d = labeled_json(d, "Proposed exec policy amendment"@, param(raw, "proposedExecpolicyAmendment"@));
    let d = labeled_json(d, "Proposed network policy amendments"@, param(raw, "proposedNetworkPolicyAmendments"@));
    ApprovalView {
        approval_id: obligation_uuid(session, "codex-command"@, key),
        session_id: session,
        turn_id: turn_of(ns, raw),
        item_id: item_of(ns, raw),
        kind: ApprovalKind::Command,
        title: first_text(command, None, "Approve Codex command"@),
        details: joined_details(d),
        options: command_options_of(raw),
        subject: cwd,
        native_request_id: Some(request_id_text(id)),
        native_blocking: blocking_of(raw),
        native: Some(server_native(method, id, raw)),
    }
}

/// The approval of `item/fileChange/requestApproval`, keyed by the item id, else the
/// request id.
pub open spec fn file_change_approval_of(session: SessionId, ns: u128, method: Seq<char>, id: RequestIdView, raw: Json) -> ApprovalView {
    let key = first_text(param_text(raw, "itemId"@), None, request_id_text(id));
    let d = labeled(labeled(Seq::empty(), "Reason"@, param_text(raw, "reason"@)), "Grant root"@, param_text(raw, "grantRoot"@));
    ApprovalView {
        approval_id: obligation_uuid(session, "codex-file-change"@, key),
        session_id: session,
        turn_id: turn_of(ns, raw),
        item_id: item_of(ns, raw),
        kind: ApprovalKind::FileChange,
        title: "Approve Codex file changes"@,
        details: joined_details(d),
        options: canonical_defaults_view(),
        subject: param_text(raw, "grantRoot"@),
        native_request_id: Some(request_id_text(id)),
        native_blocking: blocking_of(raw),
        native: Some(server_native(method, id, raw)),
    }
}

/// The approval of `item/permissions/requestApproval`, keyed by the item id, else the
/// request id.
pub open spec fn permission_approval_of(session: SessionId, ns: u128, method: Seq<char>, id: RequestIdView, raw: Json) -> ApprovalView {
    let key = first_text(param_text(raw, "itemId"@), None, request_id_text(id));
    let cwd = param_text(raw, "cwd"@);
    let d = labeled(labeled(Seq::empty(), "Cwd"@, cwd), "Reason"@, param_text(raw, "reason"@));
    let d = labeled_json(d, "Requested permissions"@, param(raw, "permissions"@));
    ApprovalView {
        approval_id: obligation_uuid(session, "codex-permission"@, key),
        session_id: session,
        turn_id: turn_of(ns, raw),
        item_id: item_of(ns, raw),
        kind: ApprovalKind::Permission,
        title: "Approve Codex permission request"@,
        details: joined_details(d),
        options: canonical_defaults_view(),
        subject: cwd,
        native_request_id: Some(request_id_text(id)),
        native_blocking: blocking_of(raw),
        native: Some(server_native(method, id, raw)),
    }
}

/// The approval of an older `ApplyPatchApproval`, keyed by the call id, else the
/// request id; it names no turn or item.
pub open spec fn legacy_file_change_approval_of(session: SessionId, method: Seq<char>, id: RequestIdView, raw: Json) -> ApprovalView {
    let key = first_text(param_text(raw, "callId"@), None, request_id_text(id));
    let d = labeled(labeled(Seq::empty(), "Reason"@, param_text(raw, "reason"@)), "Grant root"@, param_text(raw, "grantRoot"@));
    let d = labeled_json(d, "File changes"@, param(raw, "fileChanges"@));
    ApprovalView {
        approval_id: obligation_uuid(session, "codex-legacy-patch"@, key),
        session_id: session,
        turn_id: None,
        item_id: None,
        kind: ApprovalKind::FileChange,
        title: "Approve legacy Codex patch"@,
        details: joined_details(d),
        options: canonical_defaults_view(),
        subject: param_text(raw, "grantRoot"@),
        native_request_id: Some(request_id_text(id)),
        native_blocking: blocking_of(raw),
        native: Some(server_native(method, id, raw)),
    }
}

/// The command line of an older command approval: the string parts of its `command`
/// array joined by spaces.
pub open spec fn legacy_command_line(raw: Json) -> Option<Seq<char>> {
    match param(raw, "command"@) {
        Some(v) => match json_as_array(v) {
            Some(items) => Some(join_on(strings_among(items), " "@)),
            None => None,
        },
        None => None,
    }
}

/// The approval of an older `ExecCommandApproval`, keyed by the approval id, else the
/// call id, else the request id; it names no turn or item.
pub open spec fn legacy_command_approval_of(session: SessionId, method: Seq<char>, id: RequestIdView, raw: Json) -> ApprovalView {
    let key = first_text(
        param_text(raw, "approvalId"@),
        param_text(raw, "callId"@),
        request_id_text(id),
    );
    let command = legacy_command_line(raw);
    let cwd = param_text(raw, "cwd"@);
    let d = labeled(labeled(labeled(Seq::empty(), "Command"@, command), "Cwd"@, cwd), "Reason"@, param_text(raw, "reason"@));
    let d = labeled_json(d, "Parsed command"@, param(raw, "parsedCmd"@));
    ApprovalView {
        approval_id: obligation_uuid(session, "codex-legacy-command"@, key),
        session_id: session,
        turn_id: None,
        item_id: None,
        kind: ApprovalKind::Command,
        title: first_text(command, None, "Approve legacy Codex command"@),
        details: joined_details(d),
        options: canonical_defaults_view(),
        subject: cwd,
        native_request_id: Some(request_id_text(id)),
        native_blocking: blocking_of(raw),
        native: Some(server_native(method, id, raw)),
    }
}

fn as_deref(o: &Option<String>) -> (r: Option<&str>)
    ensures
        crate::json::opt_str(r) == opt_s(*o),
{
    match o {
        Some(s) => Some(s.as_str()),
        None => None,
    }
}

fn text_or_exec(o: Option<String>, fallback: &str) -> (r: String)
    ensures
        r@ == first_text(opt_s(o), None, fallback@),
{
    match o {
        Some(s) => s,
        None => owned(fallback),
    }
}

fn approval(
    session: SessionId,
    key_kind: &str,
    key: &str,
    turn_id: Option<TurnId>,
    item_id: Option<ItemId>,
    kind: ApprovalKind,
    title: String,
    details: Vec<String>,
    options: Vec<ApprovalOption>,
    subject: Option<String>,
    request: &CodexServerRequestFrame,
) -> (r: ApprovalRequest)
    ensures
        r@ == (ApprovalView {
            approval_id: obligation_uuid(session, key_kind@, key@),
            session_id: session,
            turn_id,
            item_id,
            kind,
            title: title@,
            details: joined_details(strings_view(details@)),
            options: options_view(options@),
            subject: opt_s(subject),
            native_request_id: Some(request_id_text(request.request_id@)),
            native_blocking: blocking_of(request.raw_payload@),
            native: Some(server_native(request.method@, request.request_id@, request.raw_payload@)),
        }),
{
    let native = native_ref_for_server_request(request);
    ApprovalRequest {
        approval_id: stable_uuid(session, key_kind, key),
        session_id: session,
        turn_id,
        item_id,
        kind,
        title,
        details: join_details(details),
        options,
        subject,
        native_request_id: Some(request.request_id.to_text()),
        native_blocking: native_blocking(&request.raw_payload),
        native: Some(native),
    }
}

fn command_approval(session: SessionId, id_map: &mut CodexIdMap, request: &CodexServerRequestFrame) -> (r: ApprovalRequest)
    requires
        old(id_map).wf(),
    ensures
        final(id_map).wf(),
        final(id_map)@.namespace == old(id_map)@.namespace,
        r@ == command_approval_of(
            session,
            old(id_map)@.namespace,
            request.method@,
            request.request_id@,
            request.raw_payload@,
        ),
{
    let raw = &request.raw_payload;
    let turn_id = turn_exec(id_map, raw);
    let item_id = item_exec(id_map, raw);
    let key = match param_text_exec(raw, "approvalId") {
        Some(k) => k,
        None => match param_text_exec(raw, "itemId") {
            Some(k) => k,
            None => request.request_id.to_text(),
        },
    };
    let command = param_text_exec(raw, "command");
    let cwd = param_text_exec(raw, "cwd");
    let reason = param_text_exec(raw, "reason");
    let mut details: Vec<String> = Vec::new();
    proof {
        assert(strings_view(details@) =~= Seq::<Seq<char>>::empty());
    }
    push_labeled(&mut details, "Command", as_deref(&command));
    push_labeled(&mut details, "Cwd", as_deref(&cwd));
    push_labeled(&mut details, "Reason", as_deref(&reason));
    push_json(&mut details, "Additional permissions", param_exec(raw, "additionalPermissions"));
    push_json(&mut details, "Proposed exec policy amendment", param_exec(raw, "proposedExecpolicyAmendment"));
    push_json(&mut details, "Proposed network policy amendments", param_exec(raw, "proposedNetworkPolicyAmendments"));
    let options = command_options(raw);
    let title = text_or_exec(command, "Approve Codex command");
    approval(session, "codex-command", key.as_str(), turn_id, item_id, ApprovalKind::Command, title, details, options, cwd, request)
}

fn file_change_approval(session: SessionId, id_map: &mut CodexIdMap, request: &CodexServerRequestFrame) -> (r: ApprovalRequest)
    requires
        old(id_map).wf(),
    ensures
        final(id_map).wf(),
        final(id_map)@.namespace == old(id_map)@.namespace,
        r@ == file_change_approval_of(
            session,
            old(id_map)@.namespace,
            request.method@,
            request.request_id@,
            request.raw_payload@,
        ),
{
    let raw = &request.raw_payload;
    let key = match param_text_exec(raw, "itemId") {
        Some(k) => k,
        None => request.request_id.to_text(),
    };
    let turn_id = turn_exec(id_map, raw);
    let item_id = item_exec(id_map, raw);
    let reason = param_text_exec(raw, "reason");
    let grant_root = param_text_exec(raw, "grantRoot");
    let mut details: Vec<String> = Vec::new();
    proof {
        assert(strings_view(details@) =~= Seq::<Seq<char>>::empty());
    }
    push_labeled(&mut details, "Reason", as_deref(&reason));
    push_labeled(&mut details, "Grant root", as_deref(&grant_root));
    approval(
        session,
        "codex-file-change",
        key.as_str(),
        turn_id,
        item_id,
        ApprovalKind::FileChange,
        owned("Approve Codex file changes"),
        details,
        ApprovalOption::canonical_defaults(),
        grant_root,
        request,
    )
}

fn permission_approval(session: SessionId, id_map: &mut CodexIdMap, request: &CodexServerRequestFrame) -> (r: ApprovalRequest)
    requires
        old(id_map).wf(),
    ensures
        final(id_map).wf(),
        final(id_map)@.namespace == old(id_map)@.namespace,
        r@ == permission_approval_of(
            session,
            old(id_map)@.namespace,
            request.method@,
            request.request_id@,
            request.raw_payload@,
        ),
{
    let raw = &request.raw_payload;
    let key = match param_text_exec(raw, "itemId") {
        Some(k) => k,
        None => request.request_id.to_text(),
    };
    let turn_id = turn_exec(id_map, raw);
    let item_id = item_exec(id_map, raw);
    let cwd = param_text_exec(raw, "cwd");
    let reason = param_text_exec(raw, "reason");
    let mut details: Vec<String> = Vec::new();
    proof {
        assert(strings_view(details@) =~= Seq::<Seq<char>>::empty());
    }
    push_labeled(&mut details, "Cwd", as_deref(&cwd));
    push_labeled(&mut details, "Reason", as_deref(&reason));
    push_json(&mut details, "Requested permissions", param_exec(raw, "permissions"));
    approval(
        session,
        "codex-permission",
        key.as_str(),
        turn_id,
        item_id,
        ApprovalKind::Permission,
        owned("Approve Codex permission request"),
        details,
        ApprovalOption::canonical_defaults(),
        cwd,
        request,
    )
}

fn legacy_file_change_approval(session: SessionId, request: &CodexServerRequestFrame) -> (r: ApprovalRequest)
    ensures
        r@ == legacy_file_change_approval_of(session, request.method@, request.request_id@, request.raw_payload@),
{
    let raw = &request.raw_payload;
    let key = match param_text_exec(raw, "callId") {
        Some(k) => k,
        None => request.request_id.to_text(),
    };
    let reason = param_text_exec(raw, "reason");
    let grant_root = param_text_exec(raw, "grantRoot");
    let mut details: Vec<String> = Vec::new();
    proof {
        assert(strings_view(details@) =~= Seq::<Seq<char>>::empty());
    }
    push_labeled(&mut details, "Reason", as_deref(&reason));
    push_labeled(&mut details, "Grant root", as_deref(&grant_root));
    push_json(&mut details, "File changes", param_exec(raw, "fileChanges"));
    approval(
        session,
        "codex-legacy-patch",
        key.as_str(),
        None,
        None,
        ApprovalKind::FileChange,
        owned("Approve legacy Codex patch"),
        details,
        ApprovalOption::canonical_defaults(),
        grant_root,
        request,
    )
}

fn legacy_command_line_exec(raw: &JsonValue) -> (r: Option<String>)
    ensures
        opt_s(r) == legacy_command_line(raw@),
{
    match param_exec(raw, "command") {
        Some(v) => match as_array(v) {
            Some(items) => {
                let parts = strings_among_exec(items);
                Some(join_strings(&parts, " "))
            },
            None => None,
        },
        None => None,
    }
}

fn legacy_command_approval(session: SessionId, request: &CodexServerRequestFrame) -> (r: ApprovalRequest)
    ensures
        r@ == legacy_command_approval_of(session, request.method@, request.request_id@, request.raw_payload@),
{
    let raw = &request.raw_payload;
    let key = match param_text_exec(raw, "approvalId") {
        Some(k) => k,
        None => match param_text_exec(raw, "callId") {
            Some(k) => k,
            None => request.request_id.to_text(),
        },
    };
    let command = legacy_command_line_exec(raw);
    let cwd = param_text_exec(raw, "cwd");
    let reason = param_text_exec(raw, "reason");
    let mut details: Vec<String> = Vec::new();
    proof {
        assert(strings_view(details@) =~= Seq::<Seq<char>>::empty());
    }
    push_labeled(&mut details, "Command", as_deref(&command));
    push_labeled(&mut details, "Cwd", as_deref(&cwd));
    push_labeled(&mut details, "Reason", as_deref(&reason));
    push_json(&mut details, "Parsed command", param_exec(raw, "parsedCmd"));
    let title = text_or_exec(command, "Approve legacy Codex command");
    approval(
        session,
        "codex-legacy-command",
        key.as_str(),
        None,
        None,
        ApprovalKind::Command,
        title,
        details,
        ApprovalOption::canonical_defaults(),
        cwd,
        request,
    )
}

// ---------------------------------------------------------------------------
// Questions
// ---------------------------------------------------------------------------

/// A member of an object as text (see [`value_text`]).
pub open spec fn member_value_text(q: Json, key: Seq<char>) -> Option<Seq<char>> {
    match json_get(q, key) {
        Some(v) => value_text(v),
        None => None,
    }
}

/// The choice for the option at `index` of a tool question: its label as value and
/// label, else the index as value and `Option {index + 1}` as label.
pub open spec fn tool_choice_of(option: Json, index: nat) -> ChoiceView {
    ChoiceView {
        value: match member_text(option, "label"@) {
            Some(l) => l,
            None => nat_decimal(index),
        },
        label: match member_text(option, "label"@) {
            Some(l) => l,
            None => "Option "@ + nat_decimal(index + 1),
        },
        description: member_text(option, "description"@),
    }
}

pub open spec fn tool_choices_of(options: Seq<Json>) -> Seq<ChoiceView> {
    Seq::new(options.len(), |i: int| tool_choice_of(options[i], i as nat))
}

/// The field of one tool question, when it has an id; it keeps the question as its
/// schema.
pub open spec fn tool_question_field_of(q: Json) -> Option<FieldView> {
    match member_value_text(q, "id"@) {
        Some(id) => {
            let choices = tool_choices_of(items_at(q, seq!["options"@]));
            Some(
                FieldView {
                    id,
                    label: first_text(member_value_text(q, "header"@), None, "Input"@),
                    prompt: member_value_text(q, "question"@),
                    kind: if choices.len() == 0 {
                        "text"@
                    } else {
                        "choice"@
                    },
                    required: member_bool(q, "isOther"@) != Some(true),
                    secret: member_bool(q, "isSecret"@) == Some(true),
                    choices,
                    default_answers: Seq::empty(),
                    schema: Some(q),
                },
            )
        },
        None => None,
    }
}

/// The fields of the tool questions that have an id, in order.
pub open spec fn tool_question_fields_of(items: Seq<Json>) -> Seq<FieldView>
    decreases items.len(),
{
    if items.len() == 0 {
        Seq::empty()
    } else {
        let prev = tool_question_fields_of(items.drop_last());
        match tool_question_field_of(items.last()) {
            Some(f) => prev.push(f),
            None => prev,
        }
    }
}

/// The question of `item/tool/requestUserInput`, keyed by the request id and item id.
pub open spec fn tool_input_question_of(session: SessionId, ns: u128, method: Seq<char>, id: RequestIdView, raw: Json) -> QuestionView {
    let key = request_id_text(id) + ":"@ + first_text(param_text(raw, "itemId"@), None, ""@);
    QuestionView {
        question_id: obligation_uuid(session, "codex-tool-input"@, key),
        session_id: session,
        turn_id: turn_of(ns, raw),
        title: "Codex needs input"@,
        description: None,
        fields: tool_question_fields_of(items_at(raw, seq!["params"@, "questions"@])),
        native_request_id: Some(request_id_text(id)),
        native_blocking: blocking_of(raw),
        native: Some(server_native(method, id, raw)),
    }
}

pub open spec fn plain_choice_view(value: Seq<char>, label: Seq<char>) -> ChoiceView {
    ChoiceView { value, label, description: None }
}

/// The field choosing how to answer an MCP elicitation.
pub open spec fn mcp_action_field(message: Option<Seq<char>>) -> FieldView {
    FieldView {
        id: "action"@,
        label: "Action"@,
        prompt: message,
        kind: "choice"@,
        required: true,
        secret: false,
        choices: seq![
            plain_choice_view("accept"@, "Accept"@),
            plain_choice_view("decline"@, "Decline"@),
            plain_choice_view("cancel"@, "Cancel"@),
        ],
        default_answers: Seq::empty(),
        schema: None,
    }
}

/// The fields of an MCP elicitation: the action; the URL to open when there is one; the
/// response, with the requested schema, when one is requested.
pub open spec fn mcp_fields_of(raw: Json) -> Seq<FieldView> {
    let message = param_text(raw, "message"@);
    let fields = seq![mcp_action_field(message)];
    let fields = match param_text(raw, "url"@) {
        Some(url) => fields.push(
            FieldView {
                id: "url"@,
                label: "URL"@,
                prompt: Some(url),
                kind: "url"@,
                required: false,
                secret: false,
                choices: Seq::empty(),
                default_answers: Seq::empty(),
                schema: match param(raw, "elicitationId"@) {
                    Some(e) => Some(Json::Object(seq![("elicitationId"@, e)])),
                    None => None,
                },
            },
        ),
        None => fields,
    };
    match param(raw, "requestedSchema"@) {
        Some(schema) => fields.push(
            FieldView {
                id: "content"@,
                label: "Response"@,
                prompt: message,
                kind: "object"@,
                required: false,
                secret: false,
                choices: Seq::empty(),
                default_answers: Seq::empty(),
                schema: Some(schema),
            },
        ),
        None => fields,
    }
}

/// The question of `mcpServer/elicitation/request`, keyed by the server and request id.
pub open spec fn mcp_question_of(session: SessionId, ns: u128, method: Seq<char>, id: RequestIdView, raw: Json) -> QuestionView {
    let server = first_text(param_text(raw, "serverName"@), None, "MCP server"@);
    let key = server + ":"@ + request_id_text(id);
    QuestionView {
        question_id: obligation_uuid(session, "codex-mcp-elicitation"@, key),
        session_id: session,
        turn_id: turn_of(ns, raw),
        title: server + " requests input"@,
        description: param_text(raw, "message"@),
        fields: mcp_fields_of(raw),
        native_request_id: Some(request_id_text(id)),
        native_blocking: blocking_of(raw),
        native: Some(server_native(method, id, raw)),
    }
}

fn member_value_text_exec(q: &JsonValue, key: &str) -> (r: Option<String>)
    ensures
        opt_s(r) == member_value_text(q@, key@),
{
    match get(q, key) {
        Some(v) => value_to_string(v),
        None => None,
    }
}

fn str_member(v: &JsonValue, key: &str) -> (r: Option<String>)
    ensures
        opt_s(r) == member_text(v@, key@),
{
    match crate::codex_questions::member_str(v, key) {
        Some(s) => Some(owned(s)),
        None => None,
    }
}

fn tool_choice(option: &JsonValue, index: usize) -> (r: AgentQuestionChoice)
    requires
        index < usize::MAX,
    ensures
        r@ == tool_choice_of(option@, index as nat),
{
    let value = match str_member(option, "label") {
        Some(l) => l,
        None => u64_decimal(index as u64),
    };
    let label = match str_member(option, "label") {
        Some(l) => l,
        None => {
            let n = u64_decimal((index + 1) as u64);
            concat2("Option ", n.as_str())
        },
    };
    AgentQuestionChoice { value, label, description: str_member(option, "description") }
}

fn tool_question_field(q: &JsonValue) -> (r: Option<AgentQuestionField>)
    ensures
        match r {
            Some(f) => tool_question_field_of(q@) == Some(f@),
            None => tool_question_field_of(q@) is None,
        },
{
    let id = match member_value_text_exec(q, "id") {
        Some(id) => id,
        None => return None,
    };
    let options_path: [&str; 1] = ["options"];
    proof {
        assert(path_view(options_path@) =~= seq!["options"@]);
    }
    let mut choices: Vec<AgentQuestionChoice> = Vec::new();
    let ghost ov = items_at(q@, seq!["options"@]);
    match items_at_exec(q, &options_path) {
        Some(os) => {
            let mut i: usize = 0;
            while i < os.len()
                invariant
                    i <= os.len(),
                    ov == values_view(os@),
                    choices_view(choices@) =~= tool_choices_of(ov).subrange(0, i as int),
                decreases os.len() - i,
            {
                let c = tool_choice(&os[i], i);
                let ghost before = choices@;
                let ghost cv = c@;
                choices.push(c);
                proof {
                    assert(choices_view(choices@) =~= choices_view(before).push(cv));
                }
                i = i + 1;
            }
            proof {
                assert(tool_choices_of(ov).subrange(0, os@.len() as int) =~= tool_choices_of(ov));
            }
        },
        None => {
            proof {
                assert(ov =~= Seq::<Json>::empty());
                assert(choices_view(choices@) =~= tool_choices_of(ov));
            }
        },
    }
    let kind = if choices.len() == 0 {
        owned("text")
    } else {
        owned("choice")
    };
    let is_other = crate::codex_questions::member_bool_exec(q, "isOther");
    let is_secret = crate::codex_questions::member_bool_exec(q, "isSecret");
    let defaults: Vec<String> = Vec::new();
    proof {
        assert(strings_view(defaults@) =~= Seq::<Seq<char>>::empty());
    }
    Some(AgentQuestionField {
        id,
        label: text_or_exec(member_value_text_exec(q, "header"), "Input"),
        prompt: member_value_text_exec(q, "question"),
        kind,
        required: match is_other {
            Some(b) => !b,
            None => true,
        },
        secret: match is_secret {
            Some(b) => b,
            None => false,
        },
        choices,
        default_answers: defaults,
        schema: Some(json_clone(q)),
    })
}

fn tool_input_question(session: SessionId, id_map: &mut CodexIdMap, request: &CodexServerRequestFrame) -> (r: QuestionState)
    requires
        old(id_map).wf(),
    ensures
        final(id_map).wf(),
        final(id_map)@.namespace == old(id_map)@.namespace,
        r@ == tool_input_question_of(
            session,
            old(id_map)@.namespace,
            request.method@,
            request.request_id@,
            request.raw_payload@,
        ),
{
    let raw = &request.raw_payload;
    let item = text_or_exec(param_text_exec(raw, "itemId"), "");
    let id_text = request.request_id.to_text();
    let key = concat3(id_text.as_str(), ":", item.as_str());
    let questions_path: [&str; 2] = ["params", "questions"];
    proof {
        assert(path_view(questions_path@) =~= seq!["params"@, "questions"@]);
    }
    let mut fields: Vec<AgentQuestionField> = Vec::new();
    let ghost qv = items_at(raw@, seq!["params"@, "questions"@]);
    match items_at_exec(raw, &questions_path) {
        Some(qs) => {
            let mut i: usize = 0;
            proof {
                assert(qv.subrange(0, 0) =~= Seq::<Json>::empty());
                assert(fields_view(fields@) =~= Seq::<FieldView>::empty());
            }
            while i < qs.len()
                invariant
                    i <= qs.len(),
                    qv == values_view(qs@),
                    fields_view(fields@) == tool_question_fields_of(qv.subrange(0, i as int)),
                decreases qs.len() - i,
            {
                proof {
                    assert(qv.subrange(0, i + 1).drop_last() =~= qv.subrange(0, i as int));
                    assert(qv.subrange(0, i + 1).last() == qs@[i as int]@);
                }
                match tool_question_field(&qs[i]) {
                    Some(f) => {
                        let ghost before = fields@;
                        let ghost fv = f@;
                        fields.push(f);
                        proof {
                            assert(fields_view(fields@) =~= fields_view(before).push(fv));
                        }
                    },
                    None => {},
                }
                i = i + 1;
            }
            proof {
                assert(qv.subrange(0, qs@.len() as int) =~= qv);
            }
        },
        None => {
            proof {
                assert(qv =~= Seq::<Json>::empty());
                assert(fields_view(fields@) =~= tool_question_fields_of(qv));
            }
        },
    }
    let turn_id = turn_exec(id_map, raw);
    QuestionState {
        question_id: stable_uuid(session, "codex-tool-input", key.as_str()),
        session_id: session,
        turn_id,
        title: owned("Codex needs input"),
        description: None,
        fields,
        native_request_id: Some(id_text),
        native_blocking: native_blocking(raw),
        native: Some(native_ref_for_server_request(request)),
    }
}

fn choice(value: &str, label: &str) -> (r: AgentQuestionChoice)
    ensures
        r@ == plain_choice_view(value@, label@),
{
    AgentQuestionChoice { value: owned(value), label: owned(label), description: None }
}

fn plain_field(id: &str, label: &str, prompt: Option<String>, kind: &str, required: bool, schema: Option<JsonValue>) -> (r: AgentQuestionField)
    ensures
        r@ == (FieldView {
            id: id@,
            label: label@,
            prompt: opt_s(prompt),
            kind: kind@,
            required,
            secret: false,
            choices: Seq::empty(),
            default_answers: Seq::empty(),
            schema: opt_j(schema),
        }),
{
    let choices: Vec<AgentQuestionChoice> = Vec::new();
    let defaults: Vec<String> = Vec::new();
    proof {
        assert(choices_view(choices@) =~= Seq::<ChoiceView>::empty());
        assert(strings_view(defaults@) =~= Seq::<Seq<char>>::empty());
    }
    AgentQuestionField {
        id: owned(id),
        label: owned(label),
        prompt,
        kind: owned(kind),
        required,
        secret: false,
        choices,
        default_answers: defaults,
        schema,
    }
}

fn mcp_fields(raw: &JsonValue) -> (r: Vec<AgentQuestionField>)
    ensures
        fields_view(r@) == mcp_fields_of(raw@),
{
    let message = param_text_exec(raw, "message");
    let mut choices: Vec<AgentQuestionChoice> = Vec::new();
    choices.push(choice("accept", "Accept"));
    choices.push(choice("decline", "Decline"));
    choices.push(choice("cancel", "Cancel"));
    let defaults: Vec<String> = Vec::new();
    proof {
        assert(choices_view(choices@) =~= seq![
            plain_choice_view("accept"@, "Accept"@),
            plain_choice_view("decline"@, "Decline"@),
            plain_choice_view("cancel"@, "Cancel"@),
        ]);
        assert(strings_view(defaults@) =~= Seq::<Seq<char>>::empty());
    }
    let action = AgentQuestionField {
        id: owned("action"),
        label: owned("Action"),
        prompt: match &message {
            Some(m) => Some(m.clone()),
            None => None,
        },
        kind: owned("choice"),
        required: true,
        secret: false,
        choices,
        default_answers: defaults,
        schema: None,
    };
    let mut fields: Vec<AgentQuestionField> = Vec::new();
    fields.push(action);
    proof {
        assert(fields_view(fields@) =~= seq![mcp_action_field(param_text(raw@, "message"@))]);
    }
    match param_text_exec(raw, "url") {
        Some(url) => {
            let schema = match param_exec(raw, "elicitationId") {
                Some(e) => Some(obj1("elicitationId", json_clone(e))),
                None => None,
            };
            let f = plain_field("url", "URL", Some(url), "url", false, schema);
            let ghost before = fields@;
            let ghost fv = f@;
            fields.push(f);
            proof {
                assert(fields_view(fields@) =~= fields_view(before).push(fv));
            }
        },
        None => {},
    }
    match param_exec(raw, "requestedSchema") {
        Some(schema) => {
            let f = plain_field("content", "Response", message, "object", false, Some(json_clone(schema)));
            let ghost before = fields@;
            let ghost fv = f@;
            fields.push(f);
            proof {
                assert(fields_view(fields@) =~= fields_view(before).push(fv));
            }
        },
        None => {},
    }
    fields
}

fn mcp_question(session: SessionId, id_map: &mut CodexIdMap, request: &CodexServerRequestFrame) -> (r: QuestionState)
    requires
        old(id_map).wf(),
    ensures
        final(id_map).wf(),
        final(id_map)@.namespace == old(id_map)@.namespace,
        r@ == mcp_question_of(
            session,
            old(id_map)@.namespace,
            request.method@,
            request.request_id@,
            request.raw_payload@,
        ),
{
    let raw = &request.raw_payload;
    let server = text_or_exec(param_text_exec(raw, "serverName"), "MCP server");
    let id_text = request.request_id.to_text();
    let key = concat3(server.as_str(), ":", id_text.as_str());
    let title = concat2(server.as_str(), " requests input");
    let fields = mcp_fields(raw);
    let turn_id = turn_exec(id_map, raw);
    QuestionState {
        question_id: stable_uuid(session, "codex-mcp-elicitation", key.as_str()),
        session_id: session,
        turn_id,
        title,
        description: param_text_exec(raw, "message"),
        fields,
        native_request_id: Some(id_text),
        native_blocking: native_blocking(raw),
        native: Some(native_ref_for_server_request(request)),
    }
}

// ---------------------------------------------------------------------------
// Unsupported requests
// ---------------------------------------------------------------------------

/// A request the runner cannot serve: reported with its title and detail, and answered
/// (a dynamic tool call with a failed tool result, anything else with a JSON-RPC
/// "method not found" error) with a message that names the request id.
pub open spec fn unsupported_of(method: Seq<char>, id: RequestIdView, raw: Json, title: Seq<char>, detail: Seq<char>) -> OutputView {
    let message = detail + " Native request id: "@ + request_id_text(id) + "."@;
    OutputView::Unsupported {
        title,
        detail,
        native: server_native(method, id, raw),
        response: if method == "item/tool/call"@ {
            response_envelope(request_id_json(id), unsupported_tool_result(message))
        } else {
            error_envelope(request_id_json(id), -32601i64, message, None)
        },
    }
}

/// What a server request becomes, by its method.
pub open spec fn server_request_output(session: SessionId, method: Seq<char>, id: RequestIdView, raw: Json) -> OutputView {
    let ns = session_namespace(session.0);
    if method == "item/commandExecution/requestApproval"@ {
        OutputView::Approval(command_approval_of(session, ns, method, id, raw))
    } else if method == "item/fileChange/requestApproval"@ {
        OutputView::Approval(file_change_approval_of(session, ns, method, id, raw))
    } else if method == "item/permissions/requestApproval"@ {
        OutputView::Approval(permission_approval_of(session, ns, method, id, raw))
    } else if method == "ApplyPatchApproval"@ {
        OutputView::Approval(legacy_file_change_approval_of(session, method, id, raw))
    } else if method == "ExecCommandApproval"@ {
        OutputView::Approval(legacy_command_approval_of(session, method, id, raw))
    } else if method == "item/tool/requestUserInput"@ {
        OutputView::Question(tool_input_question_of(session, ns, method, id, raw))
    } else if method == "mcpServer/elicitation/request"@ {
        OutputView::Question(mcp_question_of(session, ns, method, id, raw))
    } else if method == "account/chatgptAuthTokens/refresh"@ {
        unsupported_of(
            method,
            id,
            raw,
            "Codex account token refresh required"@,
            "Agenter does not manage Codex ChatGPT auth tokens yet."@,
        )
    } else if method == "item/tool/call"@ {
        unsupported_of(
            method,
            id,
            raw,
            "Codex dynamic tool call is unsupported"@,
            "Agenter has no client-tool contract for Codex dynamic tool calls yet."@,
        )
    } else {
        unsupported_of(
            method,
            id,
            raw,
            "Unsupported Codex server request"@,
            "Agenter has no mapper for this Codex app-server request."@,
        )
    }
}

fn unsupported(request: &CodexServerRequestFrame, title: &str, detail: &str) -> (r: CodexServerRequestOutput)
    ensures
        r@ == unsupported_of(request.method@, request.request_id@, request.raw_payload@, title@, detail@),
{
    let id_text = request.request_id.to_text();
    let mut message = concat3(detail, " Native request id: ", id_text.as_str());
    message.append(".");
    let response = if str_eq(request.method.as_str(), "item/tool/call") {
        codex_unsupported_response(&request.request_id, message)
    } else {
        codex_unsupported_error_response(&request.request_id, message)
    };
    CodexServerRequestOutput::NativeUnsupported {
        title: owned(title),
        detail: owned(detail),
        native: native_ref_for_server_request(request),
        response,
    }
}

/// Maps the server requests of one session to the obligations they create; the ids
/// it gives are stable for the session.
#[derive(Debug)]
pub struct CodexObligationMapper {
    session_id: SessionId,
    id_map: CodexIdMap,
}

impl CodexObligationMapper {
    pub closed spec fn wf(&self) -> bool {
        &&& self.id_map.wf()
        &&& self.id_map@.namespace == session_namespace(self.session_id.0)
    }

    /// The session whose requests the mapper maps.
    pub closed spec fn session(&self) -> SessionId {
        self.session_id
    }

    pub fn new(session_id: SessionId) -> (r: Self)
        ensures
            r.wf(),
            r.session() == session_id,
    {
        CodexObligationMapper { session_id, id_map: CodexIdMap::for_session(session_id) }
    }

    /// The approval, question or unsupported request a server request becomes.
    pub fn map_server_request(&mut self, request: &CodexServerRequestFrame) -> (r: CodexServerRequestOutput)
        requires
            old(self).wf(),
        ensures
            final(self).wf(),
            final(self).session() == old(self).session(),
            r@ == server_request_output(
                old(self).session(),
                request.method@,
                request.request_id@,
                request.raw_payload@,
            ),
    {
        let session = self.session_id;
        let method = request.method.as_str();
        if str_eq(method, "item/commandExecution/requestApproval") {
            CodexServerRequestOutput::ApprovalRequested(command_approval(session, &mut self.id_map, request))
        } else if str_eq(method, "item/fileChange/requestApproval") {
            CodexServerRequestOutput::ApprovalRequested(file_change_approval(session, &mut self.id_map, request))
        } else if str_eq(method, "item/permissions/requestApproval") {
            CodexServerRequestOutput::ApprovalRequested(permission_approval(session, &mut self.id_map, request))
        } else if str_eq(method, "ApplyPatchApproval") {
            CodexServerRequestOutput::ApprovalRequested(legacy_file_change_approval(session, request))
        } else if str_eq(method, "ExecCommandApproval") {
            CodexServerRequestOutput::ApprovalRequested(legacy_command_approval(session, request))
        } else if str_eq(method, "item/tool/requestUserInput") {
            CodexServerRequestOutput::QuestionRequested(tool_input_question(session, &mut self.id_map, request))
        } else if str_eq(method, "mcpServer/elicitation/request") {
            CodexServerRequestOutput::QuestionRequested(mcp_question(session, &mut self.id_map, request))
        } else if str_eq(method, "account/chatgptAuthTokens/refresh") {
            unsupported(
                request,
                "Codex account token refresh required",
                "Agenter does not manage Codex ChatGPT auth tokens yet.",
            )
        } else if str_eq(method, "item/tool/call") {
            unsupported(
                request,
                "Codex dynamic tool call is unsupported",
                "Agenter has no client-tool contract for Codex dynamic tool calls yet.",
            )
        } else {
            unsupported(
                request,
                "Unsupported Codex server request",
                "Agenter has no mapper for this Codex app-server request.",
            )
        }
    }
}

/// The warning shown for an unsupported request: its title and detail, about its method.
pub fn unsupported_notification(output: &CodexServerRequestOutput) -> (r: Option<ProviderNotification>)
    ensures
        match output@ {
            OutputView::Unsupported { title, detail, native, response } => match r {
                Some(n) => {
                    &&& n.category@ == "codex_unsupported_server_request"@
                    &&& n.title@ == title
                    &&& opt_s(n.detail) == Some(detail)
                    &&& opt_s(n.status) == Some("unsupported"@)
                    &&& n.severity == Some(ProviderNotificationSeverity::Warning)
                    &&& opt_s(n.subject) == native.method
                },
                None => false,
            },
            _ => r is None,
        },
{
    match output {
        CodexServerRequestOutput::NativeUnsupported { title, detail, native, .. } => Some(ProviderNotification {
            category: owned("codex_unsupported_server_request"),
            title: title.clone(),
            detail: Some(detail.clone()),
            status: Some(owned("unsupported")),
            severity: Some(ProviderNotificationSeverity::Warning),
            subject: match &native.method {
                Some(m) => Some(m.clone()),
                None => None,
            },
        }),
        _ => None,
    }
}

/// Approval ids are keyed by what Codex names, not by the request that carries it: a
/// command approval that names an approval id or item id gets the same approval id
/// whichever request id it arrives under (a redelivered request is the same approval).
pub proof fn law_command_approval_id_ignores_request_id(
    session: SessionId,
    id1: RequestIdView,
    id2: RequestIdView,
    raw: Json,
)
    requires
        param_text(raw, "approvalId"@) is Some || param_text(raw, "itemId"@) is Some,
    ensures
        server_request_output(session, "item/commandExecution/requestApproval"@, id1, raw) matches OutputView::Approval(a1)
            && server_request_output(session, "item/commandExecution/requestApproval"@, id2, raw) matches OutputView::Approval(a2)
            && a1.approval_id == a2.approval_id,
{
}

} // verus!

verus! {

/// Each decision Codex offers becomes the option of the same meaning: `accept` approves
/// once, `acceptForSession` approves for the session, `decline` denies, `cancel`
/// cancels the turn; any other decision gives no option.
pub proof fn law_offered_decisions_keep_their_meaning(name: Seq<char>)
    ensures
        name == "accept"@ ==> (decision_option(name) matches Some(o) && o.kind == ApprovalOptionKind::ApproveOnce
            && o.scope == Some("once"@)),
        name == "acceptForSession"@ ==> (decision_option(name) matches Some(o) && o.kind
            == ApprovalOptionKind::ApproveAlways && o.scope == Some("session"@)),
        name == "decline"@ ==> (decision_option(name) matches Some(o) && o.kind == ApprovalOptionKind::Deny),
        name == "cancel"@ ==> (decision_option(name) matches Some(o) && o.kind == ApprovalOptionKind::CancelTurn),
        (name != "accept"@ && name != "acceptForSession"@ && name != "decline"@ && name != "cancel"@)
            ==> decision_option(name) is None,
{
    reveal_strlit("accept");
    reveal_strlit("acceptForSession");
    reveal_strlit("decline");
    reveal_strlit("cancel");
    assert("accept"@.len() != "acceptForSession"@.len() && "accept"@[0] != "decline"@[0]);
    assert("accept"@[0] != "cancel"@[0] && "acceptForSession"@.len() != "decline"@.len());
    assert("acceptForSession"@.len() != "cancel"@.len() && "decline"@[0] != "cancel"@[0]);
}

} // verus!
