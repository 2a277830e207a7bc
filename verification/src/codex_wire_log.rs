//! The records of the Codex wire log: one JSON object per message sent or received,
//! with the message and the runner's context for it. Writing the records out is the
//! runner's concern; this module only decides what a record holds.
use vstd::prelude::*;
use crate::json::{Json, JsonValue, entries_view, json_clone, opt_str, lemma_object_view};
use crate::codex::{jsonrpc_method, jsonrpc_method_spec};
use crate::codex_rpc::{CodexScopeLogContext, codex_jsonrpc_request_id_summary, request_id_summary,
    message_thread_id, message_thread_id_of, message_turn_id, message_turn_id_of};
use crate::events::{opt_s, opt_j};
use crate::model::SessionId;
use crate::outside::{uuid_text, uuid_to_text};
use crate::text::owned;

verus! {

/// One message of the Codex wire and what the runner knew when it passed.
#[derive(Debug)]
pub struct CodexWireLogRecord {
    pub direction: String,
    pub classification: String,
    pub session_id: Option<SessionId>,
    pub workspace: Option<String>,
    pub runtime_thread_id: Option<String>,
    pub runtime_turn_id: Option<String>,
    pub reason: Option<String>,
    pub message: Option<JsonValue>,
    pub stderr_line: Option<String>,
    pub scope: Option<CodexScopeLogContext>,
}

/// A string member when there is a value, nothing otherwise.
pub open spec fn str_member(key: Seq<char>, value: Option<Seq<char>>) -> Seq<(Seq<char>, Json)> {
    match value {
        Some(s) => seq![(key, Json::Str(s))],
        None => Seq::empty(),
    }
}

/// A string, or `null`.
pub open spec fn text_or_null(value: Option<Seq<char>>) -> Json {
    match value {
        Some(s) => Json::Str(s),
        None => Json::Null,
    }
}

pub open spec fn opt_then(o: Option<Json>, f: spec_fn(Json) -> Option<Seq<char>>) -> Option<Seq<char>> {
    match o {
        Some(m) => f(m),
        None => None,
    }
}

/// The scope members that sort before `classification`.
pub open spec fn scope_actual_members(scope: Option<CodexScopeLogContext>) -> Seq<(Seq<char>, Json)> {
    match scope {
        Some(s) => seq![
            ("actual_thread_id"@, text_or_null(opt_s(s.actual_thread_id))),
            ("actual_turn_id"@, text_or_null(opt_s(s.actual_turn_id))),
        ],
        None => Seq::empty(),
    }
}

/// The scope members that sort between `direction` and `jsonrpc_id`.
pub open spec fn scope_expected_members(scope: Option<CodexScopeLogContext>) -> Seq<(Seq<char>, Json)> {
    match scope {
        Some(s) => seq![
            ("expected_thread_id"@, text_or_null(opt_s(s.expected_thread_id))),
            ("expected_turn_id"@, text_or_null(opt_s(s.expected_turn_id))),
        ],
        None => Seq::empty(),
    }
}

/// The scope members that sort between `runtime_turn_id` and `session_id`.
pub open spec fn scope_match_members(scope: Option<CodexScopeLogContext>) -> Seq<(Seq<char>, Json)> {
    match scope {
        Some(s) => seq![("scope_match"@, Json::Bool(s.scope_match)), ("scope_reason"@, text_or_null(opt_s(s.reason)))],
        None => Seq::empty(),
    }
}

/// The wire-log object of a record written at `ts_millis` milliseconds after the Unix
/// epoch: the direction, classification and time; the session (as UUID text),
/// workspace, runner thread and turn, and reason when there are; the message's thread,
/// turn, JSON-RPC id and method, and the message itself, when there is a message; the
/// scope comparison when there is one, with `null` for what it lacks; the stderr line
/// when there is one. Members come in the order of their keys.
pub open spec fn wire_log_entry_of(r: CodexWireLogRecord, ts_millis: u64) -> Json {
    let m = opt_j(r.message);
    Json::Object(
        scope_actual_members(r.scope) + seq![
            ("classification"@, Json::Str(r.classification@)),
            ("direction"@, Json::Str(r.direction@)),
        ] + scope_expected_members(r.scope) + str_member(
            "jsonrpc_id"@,
            match m {
                Some(msg) => Some(request_id_summary(msg)),
                None => None,
            },
        ) + str_member("method"@, opt_then(m, |msg: Json| jsonrpc_method_spec(msg))) + match m {
            Some(msg) => seq![("payload"@, msg)],
            None => Seq::empty(),
        } + str_member("provider_thread_id"@, opt_then(m, |msg: Json| message_thread_id_of(msg))) + str_member(
            "provider_turn_id"@,
            opt_then(m, |msg: Json| message_turn_id_of(msg)),
        ) + str_member("reason"@, opt_s(r.reason)) + str_member("runtime_thread_id"@, opt_s(r.runtime_thread_id))
            + str_member("runtime_turn_id"@, opt_s(r.runtime_turn_id)) + scope_match_members(r.scope) + str_member(
            "session_id"@,
            match r.session_id {
                Some(s) => Some(uuid_text(s.0)),
                None => None,
            },
        ) + str_member("stderr"@, opt_s(r.stderr_line)) + seq![("ts"@, Json::UInt(ts_millis))] + str_member(
            "workspace"@,
            opt_s(r.workspace),
        ),
    )
}

fn push_member(entries: &mut Vec<(String, JsonValue)>, key: &str, value: JsonValue)
    ensures
        entries_view(final(entries)@) == entries_view(old(entries)@).push((key@, value@)),
{
    let ghost before = entries@;
    entries.push((owned(key), value));
    proof {
        assert(entries_view(entries@) =~= entries_view(before).push((key@, value@)));
    }
}

fn push_str_member(entries: &mut Vec<(String, JsonValue)>, key: &str, value: Option<&str>)
    ensures
        entries_view(final(entries)@) == entries_view(old(entries)@) + str_member(key@, opt_str(value)),
{
    let ghost before = entries_view(entries@);
    match value {
        Some(s) => push_member(entries, key, JsonValue::Str(owned(s))),
        None => {},
    }
    proof {
        assert(entries_view(entries@) =~= before + str_member(key@, opt_str(value)));
    }
}

fn as_opt_str(o: &Option<String>) -> (r: Option<&str>)
    ensures
        opt_str(r) == opt_s(*o),
{
    match o {
        Some(s) => Some(s.as_str()),
        None => None,
    }
}

fn text_or_null_value(o: &Option<String>) -> (r: JsonValue)
    ensures
        r@ == text_or_null(opt_s(*o)),
{
    match o {
        Some(s) => JsonValue::Str(owned(s.as_str())),
        None => JsonValue::Null,
    }
}

/// The wire-log object of `record`, written at `ts_millis` milliseconds after the
/// Unix epoch.
pub fn wire_log_entry(record: &CodexWireLogRecord, ts_millis: u64) -> (r: JsonValue)
    ensures
        r@ == wire_log_entry_of(*record, ts_millis),
{
    let r = record;
    let mut e: Vec<(String, JsonValue)> = Vec::new();
    proof {
        assert(entries_view(e@) =~= Seq::<(Seq<char>, Json)>::empty());
    }
    match &r.scope {
        Some(s) => {
            push_member(&mut e, "actual_thread_id", text_or_null_value(&s.actual_thread_id));
            push_member(&mut e, "actual_turn_id", text_or_null_value(&s.actual_turn_id));
        },
        None => {},
    }
    proof {
        assert(entries_view(e@) =~= scope_actual_members(r.scope));
    }
    let ghost s1 = entries_view(e@);
    push_member(&mut e, "classification", JsonValue::Str(owned(r.classification.as_str())));
    push_member(&mut e, "direction", JsonValue::Str(owned(r.direction.as_str())));
    proof {
        assert(entries_view(e@) =~= s1 + seq![
            ("classification"@, Json::Str(r.classification@)),
            ("direction"@, Json::Str(r.direction@)),
        ]);
    }
    let ghost s2 = entries_view(e@);
    match &r.scope {
        Some(s) => {
            push_member(&mut e, "expected_thread_id", text_or_null_value(&s.expected_thread_id));
            push_member(&mut e, "expected_turn_id", text_or_null_value(&s.expected_turn_id));
        },
        None => {},
    }
    proof {
        assert(entries_view(e@) =~= s2 + scope_expected_members(r.scope));
    }
    let ghost s3 = entries_view(e@);
    match &r.message {
        Some(m) => {
            let id = codex_jsonrpc_request_id_summary(m);
            push_member(&mut e, "jsonrpc_id", JsonValue::Str(id));
            push_str_member(&mut e, "method", jsonrpc_method(m));
            push_member(&mut e, "payload", json_clone(m));
            push_str_member(&mut e, "provider_thread_id", message_thread_id(m));
            push_str_member(&mut e, "provider_turn_id", message_turn_id(m));
            proof {
                let ghost mv = m@;
                assert(entries_view(e@) =~= s3 + str_member("jsonrpc_id"@, Some(request_id_summary(mv))) + str_member(
                    "method"@,
                    jsonrpc_method_spec(mv),
                ) + seq![("payload"@, mv)] + str_member("provider_thread_id"@, message_thread_id_of(mv)) + str_member(
                    "provider_turn_id"@,
                    message_turn_id_of(mv),
                ));
            }
        },
        None => {
            proof {
                assert(entries_view(e@) =~= s3 + Seq::<(Seq<char>, Json)>::empty() + Seq::<(Seq<char>, Json)>::empty()
                    + Seq::<(Seq<char>, Json)>::empty() + Seq::<(Seq<char>, Json)>::empty() + Seq::<
                    (Seq<char>, Json),
                >::empty());
            }
        },
    }
    let ghost s4 = entries_view(e@);
    push_str_member(&mut e, "reason", as_opt_str(&r.reason));
    push_str_member(&mut e, "runtime_thread_id", as_opt_str(&r.runtime_thread_id));
    push_str_member(&mut e, "runtime_turn_id", as_opt_str(&r.runtime_turn_id));
    let ghost s5 = entries_view(e@);
    match &r.scope {
        Some(s) => {
            push_member(&mut e, "scope_match", JsonValue::Bool(s.scope_match));
            push_member(&mut e, "scope_reason", text_or_null_value(&s.reason));
        },
        None => {},
    }
    proof {
        assert(entries_view(e@) =~= s5 + scope_match_members(r.scope));
    }
    let ghost s6 = entries_view(e@);
    match r.session_id {
        Some(s) => {
            let text = uuid_to_text(s.0);
            push_member(&mut e, "session_id", JsonValue::Str(text));
        },
        None => {},
    }
    proof {
        assert(entries_view(e@) =~= s6 + str_member(
            "session_id"@,
            match r.session_id {
                Some(s) => Some(uuid_text(s.0)),
                None => None,
            },
        ));
    }
    push_str_member(&mut e, "stderr", as_opt_str(&r.stderr_line));
    push_member(&mut e, "ts", JsonValue::UInt(ts_millis));
    push_str_member(&mut e, "workspace", as_opt_str(&r.workspace));
    proof {
        let ghost mv = opt_j(r.message);
        assert(opt_then(mv, |msg: Json| jsonrpc_method_spec(msg)) == match mv {
            Some(msg) => jsonrpc_method_spec(msg),
            None => None,
        });
        assert(entries_view(e@) =~= wire_log_entry_of(*record, ts_millis)->Object_0);
        lemma_object_view(e);
    }
    JsonValue::Object(e)
}

} // verus!
