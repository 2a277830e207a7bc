//! Classification of Codex JSON-RPC traffic: request ids, requests versus responses,
//! the thread a message belongs to, and the texts of provider errors.
use vstd::prelude::*;
use crate::json::{Json, JsonValue, json_get, json_as_str, json_as_i64, json_text, opt_str, get, as_str,
    as_i64, json_to_text, first_str};
use crate::message_paths::{codex_thread_id_at, codex_thread_id_paths, message_thread_id_at,
    message_thread_id_paths, message_turn_id_at, message_turn_id_paths};
use crate::codex::{jsonrpc_method, jsonrpc_method_spec, text_or};
use crate::events::opt_s;
use crate::text::{str_eq, owned, concat2, concat3, int_decimal, nat_decimal, i64_decimal, trim,
    trim_ws, parse_i64, parse_i64_exec, seq_contains, contains};

verus! {

/// The id of a JSON-RPC request the runner sent to Codex.
#[derive(Debug, Clone, PartialEq, Eq)]
pub enum CodexRequestId {
    Integer(i64),
    String(String),
}

pub enum CodexRequestIdView {
    Integer(i64),
    String(Seq<char>),
}

impl View for CodexRequestId {
    type V = CodexRequestIdView;

    open spec fn view(&self) -> CodexRequestIdView {
        match self {
            CodexRequestId::Integer(i) => CodexRequestIdView::Integer(*i),
            CodexRequestId::String(s) => CodexRequestIdView::String(s@),
        }
    }
}

/// The JSON value of a request id.
pub open spec fn request_id_value(id: CodexRequestIdView) -> Json {
    match id {
        CodexRequestIdView::Integer(i) => Json::Int(i),
        CodexRequestIdView::String(s) => Json::Str(s),
    }
}

impl CodexRequestId {
    /// The id as it is written in a request.
    pub fn as_value(&self) -> (r: JsonValue)
        ensures
            r@ == request_id_value(self@),
    {
        match self {
            CodexRequestId::Integer(i) => JsonValue::Int(*i),
            CodexRequestId::String(s) => JsonValue::Str(s.clone()),
        }
    }

    /// A numeric id.
    pub fn numeric(value: i64) -> (r: Self)
        ensures
            r@ == CodexRequestIdView::Integer(value),
    {
        CodexRequestId::Integer(value)
    }
}

/// Whether a value is a JSON number.
pub open spec fn is_number(v: Json) -> bool {
    v is Int || v is UInt || v is Float
}

/// A request id read back from a JSON value: an integer number or a string.
pub open spec fn request_id_from_value(v: Json) -> Option<CodexRequestIdView> {
    match v {
        Json::Str(s) => Some(CodexRequestIdView::String(s)),
        _ => if is_number(v) {
            match json_as_i64(v) {
                Some(i) => Some(CodexRequestIdView::Integer(i)),
                None => None,
            }
        } else {
            None
        },
    }
}

pub open spec fn opt_request_id(r: Option<CodexRequestId>) -> Option<CodexRequestIdView> {
    match r {
        Some(x) => Some(x@),
        None => None,
    }
}

/// A request id read back from a JSON value: an integer number or a string.
pub fn codex_request_id_from_value(id: &JsonValue) -> (r: Option<CodexRequestId>)
    ensures
        opt_request_id(r) == request_id_from_value(id@),
{
    match id {
        JsonValue::Str(s) => Some(CodexRequestId::String(s.clone())),
        JsonValue::Int(_) | JsonValue::UInt(_) | JsonValue::Float(_) => match as_i64(id) {
            Some(i) => Some(CodexRequestId::numeric(i)),
            None => None,
        },
        _ => None,
    }
}

/// Whether a message has the member `key`.
pub open spec fn has_member(m: Json, key: Seq<char>) -> bool {
    json_get(m, key) is Some
}

/// An inbound request from Codex: a method and an id, and neither result nor error.
pub open spec fn is_server_request(m: Json) -> bool {
    jsonrpc_method_spec(m) is Some && has_member(m, "id"@) && !has_member(m, "result"@) && !has_member(m, "error"@)
}

/// An inbound response from Codex: an id, and a result or an error.
pub open spec fn is_server_response(m: Json) -> bool {
    has_member(m, "id"@) && (has_member(m, "result"@) || has_member(m, "error"@))
}

/// Whether a message is a request Codex sends to the runner.
pub fn codex_rpc_is_codex_server_to_client_request(m: &JsonValue) -> (r: bool)
    ensures
        r == is_server_request(m@),
{
    jsonrpc_method(m).is_some() && get(m, "id").is_some() && get(m, "result").is_none() && get(
        m,
        "error",
    ).is_none()
}

/// Whether a message is a response from Codex.
pub fn codex_rpc_is_codex_server_to_client_response(m: &JsonValue) -> (r: bool)
    ensures
        r == is_server_response(m@),
{
    get(m, "id").is_some() && (get(m, "result").is_some() || get(m, "error").is_some())
}

/// How a received message is classified in the wire log.
pub open spec fn wire_classification(m: Json) -> Seq<char> {
    if is_server_request(m) {
        "server_request_received"@
    } else if is_server_response(m) {
        "server_response_received"@
    } else if jsonrpc_method_spec(m) is Some {
        "server_notification_received"@
    } else {
        "unknown_received"@
    }
}

/// How a received message is classified in the wire log.
pub fn codex_wire_classification(m: &JsonValue) -> (r: &'static str)
    ensures
        r@ == wire_classification(m@),
{
    if codex_rpc_is_codex_server_to_client_request(m) {
        "server_request_received"
    } else if codex_rpc_is_codex_server_to_client_response(m) {
        "server_response_received"
    } else if jsonrpc_method(m).is_some() {
        "server_notification_received"
    } else {
        "unknown_received"
    }
}

/// The id of a message as shown in logs: a string id as is, anything else as JSON text.
pub open spec fn request_id_summary(m: Json) -> Seq<char> {
    match json_get(m, "id"@) {
        Some(Json::Str(s)) => s,
        Some(id) => json_text(id),
        None => "<missing id>"@,
    }
}

/// The id of a message as shown in logs.
pub fn codex_jsonrpc_request_id_summary(m: &JsonValue) -> (r: String)
    ensures
        r@ == request_id_summary(m@),
{
    match get(m, "id") {
        Some(id) => match as_str(id) {
            Some(s) => owned(s),
            None => json_to_text(id),
        },
        None => owned("<missing id>"),
    }
}

/// The text of a JSON number, as `Number::to_string` writes it.
pub open spec fn number_text(v: Json) -> Seq<char> {
    match v {
        Json::Int(i) => int_decimal(i as int),
        Json::UInt(u) => nat_decimal(u as nat),
        Json::Float(t) => t,
        _ => Seq::empty(),
    }
}

/// Whether a JSON id names the request with id `expected`: numbers by value or by
/// text, strings by their trimmed text or the integer they spell.
pub open spec fn request_ids_equal(id: Option<Json>, expected: CodexRequestIdView) -> bool {
    match id {
        Some(v) => if is_number(v) {
            match expected {
                CodexRequestIdView::Integer(value) => json_as_i64(v) == Some(value),
                CodexRequestIdView::String(value) => number_text(v) == value,
            }
        } else {
            match v {
                Json::Str(s) => match expected {
                    CodexRequestIdView::Integer(value) => parse_i64(trim_ws(s)) == Some(value)
                        || trim_ws(s) == int_decimal(value as int),
                    CodexRequestIdView::String(value) => trim_ws(s) == value,
                },
                _ => false,
            }
        },
        None => false,
    }
}

pub open spec fn opt_value(o: Option<&JsonValue>) -> Option<Json> {
    match o {
        Some(v) => Some(v@),
        None => None,
    }
}

/// Whether a JSON id names the request with id `expected`.
pub fn codex_jsonrpc_request_ids_equal(id: Option<&JsonValue>, expected: &CodexRequestId) -> (r: bool)
    ensures
        r == request_ids_equal(opt_value(id), expected@),
{
    let id = match id {
        Some(v) => v,
        None => return false,
    };
    match id {
        JsonValue::Int(_) | JsonValue::UInt(_) | JsonValue::Float(_) => match expected {
            CodexRequestId::Integer(value) => match as_i64(id) {
                Some(n) => n == *value,
                None => false,
            },
            CodexRequestId::String(value) => {
                let t = json_to_text(id);
                str_eq(t.as_str(), value.as_str())
            },
        },
        JsonValue::Str(s) => {
            let t = trim(s.as_str());
            match expected {
                CodexRequestId::Integer(value) => {
                    let parsed = parse_i64_exec(t);
                    let by_value = match parsed {
                        Some(n) => n == *value,
                        None => false,
                    };
                    if by_value {
                        true
                    } else {
                        let d = i64_decimal(*value);
                        str_eq(t, d.as_str())
                    }
                },
                CodexRequestId::String(value) => str_eq(t, value.as_str()),
            }
        },
        _ => false,
    }
}

/// Whether a message is the response to the request with id `pending`.
pub open spec fn is_response_to(m: Json, pending: CodexRequestIdView) -> bool {
    request_ids_equal(json_get(m, "id"@), pending) && (has_member(m, "result"@) || has_member(m, "error"@))
}

/// Whether a message is the response to the request with id `pending`.
pub fn codex_rpc_is_response_matching_request(m: &JsonValue, pending: &CodexRequestId) -> (r: bool)
    ensures
        r == is_response_to(m@, pending@),
{
    codex_jsonrpc_request_ids_equal(get(m, "id"), pending) && (get(m, "result").is_some() || get(
        m,
        "error",
    ).is_some())
}

// ---------------------------------------------------------------------------
// Thread and turn scope
// ---------------------------------------------------------------------------

/// The Codex thread and turn the runner's current turn runs in, as far as observed.
#[derive(Clone, Debug, Default, PartialEq, Eq)]
pub struct CodexTurnScope {
    pub thread_id: Option<String>,
    pub turn_id: Option<String>,
}

pub struct TurnScopeView {
    pub thread_id: Option<Seq<char>>,
    pub turn_id: Option<Seq<char>>,
}

impl View for CodexTurnScope {
    type V = TurnScopeView;

    open spec fn view(&self) -> TurnScopeView {
        TurnScopeView { thread_id: opt_s(self.thread_id), turn_id: opt_s(self.turn_id) }
    }
}

/// The thread a message names, for the scope check.
pub open spec fn message_thread_id_of(m: Json) -> Option<Seq<char>> {
    first_str(m, message_thread_id_paths())
}

/// The turn a message names.
pub open spec fn message_turn_id_of(m: Json) -> Option<Seq<char>> {
    first_str(m, message_turn_id_paths())
}

/// The thread id Codex reports in a start or resume response, or in a notification.
pub open spec fn codex_thread_id_of(m: Json) -> Option<Seq<char>> {
    first_str(m, codex_thread_id_paths())
}

/// The thread a message names, for the scope check.
pub fn message_thread_id(m: &JsonValue) -> (r: Option<&str>)
    ensures
        opt_str(r) == message_thread_id_of(m@),
{
    message_thread_id_at(m)
}

/// The turn a message names.
pub fn message_turn_id(m: &JsonValue) -> (r: Option<&str>)
    ensures
        opt_str(r) == message_turn_id_of(m@),
{
    message_turn_id_at(m)
}

/// The thread id Codex reports in a start or resume response, or in a notification.
pub fn codex_thread_id(m: &JsonValue) -> (r: Option<&str>)
    ensures
        opt_str(r) == codex_thread_id_of(m@),
{
    codex_thread_id_at(m)
}

/// The turn id a message names.
pub fn codex_turn_id(m: &JsonValue) -> (r: Option<&str>)
    ensures
        opt_str(r) == message_turn_id_of(m@),
{
    message_turn_id_at(m)
}

/// The scope after observing a message: a missing thread or turn id is filled in from
/// it; a known one is kept.
pub open spec fn observed_scope(s: TurnScopeView, m: Json) -> TurnScopeView {
    TurnScopeView {
        thread_id: if s.thread_id is None {
            codex_thread_id_of(m)
        } else {
            s.thread_id
        },
        turn_id: if s.turn_id is None {
            message_turn_id_of(m)
        } else {
            s.turn_id
        },
    }
}

/// Whether a message belongs to the scope: it does unless both it and the scope name
/// a thread and the two differ.
pub open spec fn belongs_to_scope(m: Json, s: TurnScopeView) -> bool {
    match (s.thread_id, message_thread_id_of(m)) {
        (Some(expected), Some(actual)) => actual == expected,
        _ => true,
    }
}

fn own_opt_str(o: Option<&str>) -> (r: Option<String>)
    ensures
        opt_s(r) == opt_str(o),
{
    match o {
        Some(s) => Some(owned(s)),
        None => None,
    }
}

impl CodexTurnScope {
    /// Fills in a missing thread or turn id from a message.
    pub fn observe(&mut self, m: &JsonValue)
        ensures
            final(self)@ == observed_scope(old(self)@, m@),
    {
        if self.thread_id.is_none() {
            self.thread_id = own_opt_str(codex_thread_id(m));
        }
        if self.turn_id.is_none() {
            self.turn_id = own_opt_str(codex_turn_id(m));
        }
    }
}

/// Whether a message belongs to the scope.
pub fn codex_message_belongs_to_scope(m: &JsonValue, scope: &CodexTurnScope) -> (r: bool)
    ensures
        r == belongs_to_scope(m@, scope@),
{
    match (&scope.thread_id, message_thread_id(m)) {
        (Some(expected), Some(actual)) => str_eq(actual, expected.as_str()),
        _ => true,
    }
}

/// What the wire log records about a message's scope.
#[derive(Clone, Debug)]
pub struct CodexScopeLogContext {
    pub expected_thread_id: Option<String>,
    pub expected_turn_id: Option<String>,
    pub actual_thread_id: Option<String>,
    pub actual_turn_id: Option<String>,
    pub scope_match: bool,
    pub reason: Option<String>,
}

impl CodexScopeLogContext {
    /// The scope the runner expects, what the message names, and whether they match.
    pub fn from_message(m: &JsonValue, scope: &CodexTurnScope) -> (r: Self)
        ensures
            opt_s(r.expected_thread_id) == scope@.thread_id,
            opt_s(r.expected_turn_id) == scope@.turn_id,
            opt_s(r.actual_thread_id) == message_thread_id_of(m@),
            opt_s(r.actual_turn_id) == message_turn_id_of(m@),
            r.scope_match == belongs_to_scope(m@, scope@),
            opt_s(r.reason) == (if belongs_to_scope(m@, scope@) {
                None
            } else {
                Some("thread_id_mismatch"@)
            }),
    {
        let scope_match = codex_message_belongs_to_scope(m, scope);
        CodexScopeLogContext {
            expected_thread_id: own_opt_str(match &scope.thread_id {
                Some(t) => Some(t.as_str()),
                None => None,
            }),
            expected_turn_id: own_opt_str(match &scope.turn_id {
                Some(t) => Some(t.as_str()),
                None => None,
            }),
            actual_thread_id: own_opt_str(message_thread_id(m)),
            actual_turn_id: own_opt_str(message_turn_id(m)),
            scope_match,
            reason: if !scope_match {
                Some(owned("thread_id_mismatch"))
            } else {
                None
            },
        }
    }
}

// ---------------------------------------------------------------------------
// Provider error texts
// ---------------------------------------------------------------------------

/// `codex {method} failed: {code} {message}` for an error response; nothing for
/// anything else.
pub open spec fn error_summary(method: Seq<char>, m: Json) -> Option<Seq<char>> {
    match json_get(m, "error"@) {
        Some(e) => {
            let code = match json_get(e, "code"@) {
                Some(c) => json_text(c),
                None => "unknown"@,
            };
            let text = match json_get(e, "message"@) {
                Some(t) => text_or(json_as_str(t), "unknown provider error"@),
                None => "unknown provider error"@,
            };
            Some("codex "@ + method + " failed: "@ + code + " "@ + text)
        },
        None => None,
    }
}

/// The summary of a JSON-RPC error response to `method`.
pub fn codex_jsonrpc_error_summary(method: &str, m: &JsonValue) -> (r: Option<String>)
    ensures
        opt_s(r) == error_summary(method@, m@),
{
    let e = match get(m, "error") {
        Some(e) => e,
        None => return None,
    };
    let code = match get(e, "code") {
        Some(c) => json_to_text(c),
        None => owned("unknown"),
    };
    let text: &str = match get(e, "message") {
        Some(t) => match as_str(t) {
            Some(s) => s,
            None => "unknown provider error",
        },
        None => "unknown provider error",
    };
    let mut r = concat3("codex ", method, " failed: ");
    r.append(code.as_str());
    r.append(" ");
    r.append(text);
    Some(r)
}

/// Whether an error's text says Codex lost the thread a turn was started on.
pub open spec fn thread_not_found(message: Seq<char>) -> bool {
    seq_contains(message, "codex turn/start failed"@) && seq_contains(message, "thread not found"@)
}

/// Whether an error's text says Codex could not resume a thread it has no rollout for.
pub open spec fn no_rollout(message: Seq<char>) -> bool {
    seq_contains(message, "codex thread/resume failed"@) && seq_contains(message, "no rollout found"@)
}

/// Whether an error (given by its text) is a turn start on a thread Codex does not know.
pub fn is_codex_thread_not_found_error(message: &str) -> (r: bool)
    ensures
        r == thread_not_found(message@),
{
    contains(message, "codex turn/start failed") && contains(message, "thread not found")
}

/// Whether an error (given by its text) is a resume of a thread without a rollout.
pub fn is_codex_no_rollout_resume_error(message: &str) -> (r: bool)
    ensures
        r == no_rollout(message@),
{
    contains(message, "codex thread/resume failed") && contains(message, "no rollout found")
}

/// `recent stderr: {line}` for the last stderr line, or nothing.
pub open spec fn recent_stderr_text(stderr: Seq<Seq<char>>) -> Seq<char> {
    if stderr.len() == 0 {
        Seq::empty()
    } else {
        "recent stderr: "@ + stderr.last()
    }
}

/// `recent stderr: {line}` for the last stderr line, or the empty string.
pub fn recent_stderr_label(stderr: &Vec<String>) -> (r: String)
    ensures
        r@ == recent_stderr_text(crate::text::strings_view(stderr@)),
{
    if stderr.len() == 0 {
        String::new()
    } else {
        concat2("recent stderr: ", stderr[stderr.len() - 1].as_str())
    }
}

/// A startup error with the last stderr line appended, when there is one.
pub open spec fn with_stderr(message: Seq<char>, stderr: Seq<Seq<char>>) -> Seq<char> {
    let label = recent_stderr_text(stderr);
    if label.len() == 0 {
        message
    } else {
        message + "; "@ + label
    }
}

/// A startup error with the last stderr line appended, when there is one.
pub fn startup_error_with_stderr(message: String, stderr: &Vec<String>) -> (r: String)
    ensures
        r@ == with_stderr(message@, crate::text::strings_view(stderr@)),
{
    let label = recent_stderr_label(stderr);
    if label.as_str().unicode_len() == 0 {
        message
    } else {
        let mut r = message;
        r.append("; ");
        r.append(label.as_str());
        r
    }
}

} // verus!
