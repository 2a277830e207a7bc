//! The decisions of the Codex runtime: which session a Codex frame belongs to, what
//! the runner emits and answers for it, and the approvals, questions and turns it
//! keeps open. The runtime performs the actions; this module only decides them.
use vstd::prelude::*;
use crate::json::{Json, JsonValue, json_get, json_path, json_as_str, json_as_array, get, at, as_str, obj1,
    obj2, path_view, jstr};
use crate::codec::{RequestId, RequestIdView, CodexDecodedFrame, CodexServerNotificationFrame,
    CodexServerRequestFrame, request_id_json, CODEX_APP_SERVER_PROTOCOL};
use crate::adapter::{AdapterEvent, AdapterEventView, UniversalEventSource, assoc_get};
use crate::codex_approvals::error_envelope;
use crate::codex_mapper::{CodexObligationMapper, CodexServerRequestOutput, OutputView, server_request_output,
    unsupported_notification};
use crate::codex_obligations::{codex_unsupported_error_response, codex_approval_response};
use crate::codex_reducer::{CodexReducer, CodexReducerOutput, ReducedView, reduced_view, notification_outputs, history_outputs,
    native_clone};
use crate::events::{opt_s, opt_j};
use crate::id_map::{CodexIdMap, session_namespace};
use crate::model::{SessionId, TurnId, ApprovalDecision, NativeRef, NativeRefView, UtcTimestamp};
use crate::outside::utc_now;
use crate::text::{owned, str_eq};
use crate::universal::{UniversalEventKind, UniversalView, ProviderNotificationView, opt_native};

verus! {

/// An approval Codex waits on: the request to answer.
#[derive(Debug, PartialEq)]
pub struct PendingCodexApproval {
    pub request_id: RequestId,
    pub method: String,
    pub raw_payload: JsonValue,
}

/// A question Codex waits on: the request to answer.
#[derive(Debug, PartialEq)]
pub struct PendingCodexQuestion {
    pub request_id: RequestId,
    pub method: String,
}

pub struct PendingView {
    pub request_id: RequestIdView,
    pub method: Seq<char>,
    pub raw_payload: Option<Json>,
}

/// What the runtime does next.
#[derive(Debug, PartialEq)]
pub enum RuntimeAction {
    /// Hand an event to the runner.
    Emit(AdapterEvent),
    /// Write a JSON-RPC message to Codex.
    Respond(JsonValue),
}

pub enum ActionView {
    Emit(AdapterEventView),
    Respond(Json),
}

impl View for RuntimeAction {
    type V = ActionView;

    open spec fn view(&self) -> ActionView {
        match self {
            RuntimeAction::Emit(e) => ActionView::Emit(e@),
            RuntimeAction::Respond(j) => ActionView::Respond(j@),
        }
    }
}

pub open spec fn actions_view(v: Seq<RuntimeAction>) -> Seq<ActionView> {
    v.map_values(|a: RuntimeAction| a@)
}

/// The session bindings, open turns and pending requests of a Codex runtime.
#[derive(Debug)]
pub struct CodexRuntimeState {
    session_threads: Vec<(SessionId, String)>,
    thread_sessions: Vec<(String, SessionId)>,
    active_turns: Vec<(SessionId, String)>,
    pending_approvals: Vec<(u128, PendingCodexApproval)>,
    pending_questions: Vec<(u128, PendingCodexQuestion)>,
}

pub open spec fn thread_sessions_view(v: Seq<(String, SessionId)>) -> Seq<(Seq<char>, SessionId)> {
    v.map_values(|e: (String, SessionId)| (e.0@, e.1))
}

/// Whether no key occurs twice.
pub open spec fn keys_distinct<K, V>(s: Seq<(K, V)>) -> bool {
    forall|i: int, j: int| 0 <= i < j < s.len() ==> s[i].0 != s[j].0
}

impl CodexRuntimeState {
    pub closed spec fn wf(&self) -> bool {
        keys_distinct(self.session_threads@)
    }

    /// The native thread a session is bound to.
    pub closed spec fn thread_of(&self, session: SessionId) -> Option<Seq<char>> {
        match assoc_get(self.session_threads@, session) {
            Some(t) => Some(t@),
            None => None,
        }
    }

    /// The session a native thread is bound to.
    pub closed spec fn session_of(&self, thread: Seq<char>) -> Option<SessionId> {
        assoc_get(thread_sessions_view(self.thread_sessions@), thread)
    }

    /// The native turn running in a session.
    pub closed spec fn active_turn(&self, session: SessionId) -> Option<Seq<char>> {
        match assoc_get(self.active_turns@, session) {
            Some(t) => Some(t@),
            None => None,
        }
    }

    /// The approval Codex waits on under a universal approval id.
    pub closed spec fn pending_approval(&self, id: u128) -> Option<PendingView> {
        match assoc_get(self.pending_approvals@, id) {
            Some(p) => Some(PendingView { request_id: p.request_id@, method: p.method@, raw_payload: Some(p.raw_payload@) }),
            None => None,
        }
    }

    /// The question Codex waits on under a universal question id.
    pub closed spec fn pending_question(&self, id: u128) -> Option<PendingView> {
        match assoc_get(self.pending_questions@, id) {
            Some(p) => Some(PendingView { request_id: p.request_id@, method: p.method@, raw_payload: None }),
            None => None,
        }
    }

    /// The bound sessions, in the order they were bound.
    pub closed spec fn bound_sessions(&self) -> Seq<SessionId> {
        self.session_threads@.map_values(|e: (SessionId, String)| e.0)
    }

    /// The only bound session, when exactly one is bound.
    pub closed spec fn sole_session(&self) -> Option<SessionId> {
        if self.session_threads@.len() == 1 {
            Some(self.session_threads@[0].0)
        } else {
            None
        }
    }

    /// The session a payload belongs to: that of the thread it names, else the only
    /// bound session.
    pub open spec fn session_for(&self, payload: Json) -> Option<SessionId> {
        let by_thread = match json_path(payload, seq!["params"@, "threadId"@]) {
            Some(t) => match json_as_str(t) {
                Some(thread) => self.session_of(thread),
                None => None,
            },
            None => None,
        };
        match by_thread {
            Some(s) => Some(s),
            None => self.sole_session(),
        }
    }

    pub fn new() -> (r: Self)
        ensures
            r.wf(),
            r.sole_session() is None,
            forall|s: SessionId| #[trigger] r.thread_of(s) is None && r.active_turn(s) is None,
            forall|t: Seq<char>| #[trigger] r.session_of(t) is None,
            forall|a: u128| #[trigger] r.pending_approval(a) is None && r.pending_question(a) is None,
    {
        CodexRuntimeState {
            session_threads: Vec::new(),
            thread_sessions: Vec::new(),
            active_turns: Vec::new(),
            pending_approvals: Vec::new(),
            pending_questions: Vec::new(),
        }
    }
}

// ---------------------------------------------------------------------------
// Association lists
// ---------------------------------------------------------------------------

/// The list without the entries of `key`, and the value of its last entry.
fn take_by_id<V>(v: Vec<(u128, V)>, key: u128) -> (r: (Vec<(u128, V)>, Option<V>))
    ensures
        forall|k: u128| #[trigger] assoc_get(r.0@, k) == if k == key {
            None
        } else {
            assoc_get(v@, k)
        },
        r.1 == assoc_get(v@, key),
{
    let ghost orig = v@;
    let mut rest = v;
    let mut out: Vec<(u128, V)> = Vec::new();
    let mut found: Option<V> = None;
    let ghost mut n: int = 0;
    while rest.len() > 0
        invariant
            0 <= n <= orig.len(),
            rest@ == orig.subrange(n, orig.len() as int),
            forall|k: u128| #[trigger] assoc_get(out@, k) == if k == key {
                None
            } else {
                assoc_get(orig.subrange(0, n), k)
            },
            found == assoc_get(orig.subrange(0, n), key),
        decreases rest.len(),
    {
        proof {
            assert(orig.subrange(0, n + 1).drop_last() =~= orig.subrange(0, n));
            assert(orig.subrange(0, n + 1).last() == orig[n]);
        }
        let e = rest.remove(0);
        let ghost before = out@;
        let ghost ev = e;
        if e.0 == key {
            found = Some(e.1);
        } else {
            out.push(e);
            proof {
                assert(out@.drop_last() =~= before);
                assert(out@.last() == ev);
            }
        }
        proof {
            assert forall|k: u128| #[trigger] assoc_get(out@, k) == if k == key {
                None
            } else {
                assoc_get(orig.subrange(0, n + 1), k)
            } by {
                assert(assoc_get(before, k) == if k == key {
                    None
                } else {
                    assoc_get(orig.subrange(0, n), k)
                });
            }
            n = n + 1;
            assert(rest@ =~= orig.subrange(n, orig.len() as int));
        }
    }
    proof {
        assert(orig.subrange(0, orig.len() as int) =~= orig);
    }
    (out, found)
}

/// The list without the entries of `session`, and the value of its last entry; it
/// keeps the keys distinct.
fn take_by_session<V>(v: Vec<(SessionId, V)>, session: SessionId) -> (r: (Vec<(SessionId, V)>, Option<V>))
    ensures
        forall|k: SessionId| #[trigger] assoc_get(r.0@, k) == if k == session {
            None
        } else {
            assoc_get(v@, k)
        },
        r.1 == assoc_get(v@, session),
        keys_distinct(v@) ==> keys_distinct(r.0@),
        forall|m: int| 0 <= m < r.0@.len() ==> #[trigger] r.0@[m].0 != session,
{
    let ghost orig = v@;
    let mut rest = v;
    let mut out: Vec<(SessionId, V)> = Vec::new();
    let mut found: Option<V> = None;
    let ghost mut n: int = 0;
    while rest.len() > 0
        invariant
            0 <= n <= orig.len(),
            rest@ == orig.subrange(n, orig.len() as int),
            forall|k: SessionId| #[trigger] assoc_get(out@, k) == if k == session {
                None
            } else {
                assoc_get(orig.subrange(0, n), k)
            },
            found == assoc_get(orig.subrange(0, n), session),
            forall|m: int| 0 <= m < out@.len() ==> exists|j: int| 0 <= j < n && #[trigger] orig[j].0 == (#[trigger] out@[m]).0,
            forall|m: int| 0 <= m < out@.len() ==> #[trigger] out@[m].0 != session,
            keys_distinct(orig) ==> keys_distinct(out@),
        decreases rest.len(),
    {
        proof {
            assert(orig.subrange(0, n + 1).drop_last() =~= orig.subrange(0, n));
            assert(orig.subrange(0, n + 1).last() == orig[n]);
        }
        let e = rest.remove(0);
        let ghost before = out@;
        let ghost ev = e;
        if e.0 == session {
            found = Some(e.1);
        } else {
            out.push(e);
            proof {
                assert(out@.drop_last() =~= before);
                assert(out@.last() == ev);
                assert forall|m: int| 0 <= m < out@.len() implies exists|j: int| 0 <= j < n + 1 && #[trigger] orig[j].0
                    == (#[trigger] out@[m]).0 by {
                    if m < before.len() {
                        assert(out@[m] == before[m]);
                    } else {
                        assert(orig[n].0 == out@[m].0);
                    }
                }
                if keys_distinct(orig) {
                    assert forall|i: int, j: int| 0 <= i < j < out@.len() implies out@[i].0 != out@[j].0 by {
                        if j == out@.len() - 1 {
                            assert(out@[i] == before[i]);
                            let w = choose|w: int| 0 <= w < n && #[trigger] orig[w].0 == before[i].0;
                            assert(orig[w].0 != orig[n].0);
                        } else {
                            assert(out@[i] == before[i]);
                            assert(out@[j] == before[j]);
                        }
                    }
                }
            }
        }
        proof {
            assert forall|k: SessionId| #[trigger] assoc_get(out@, k) == if k == session {
                None
            } else {
                assoc_get(orig.subrange(0, n + 1), k)
            } by {
                assert(assoc_get(before, k) == if k == session {
                    None
                } else {
                    assoc_get(orig.subrange(0, n), k)
                });
            }
            n = n + 1;
            assert(rest@ =~= orig.subrange(n, orig.len() as int));
        }
    }
    proof {
        assert(orig.subrange(0, orig.len() as int) =~= orig);
    }
    (out, found)
}

/// The list without the entries of `thread`.
fn without_thread(v: Vec<(String, SessionId)>, thread: &str) -> (r: Vec<(String, SessionId)>)
    ensures
        forall|t: Seq<char>| #[trigger] assoc_get(thread_sessions_view(r@), t) == if t == thread@ {
            None
        } else {
            assoc_get(thread_sessions_view(v@), t)
        },
{
    let ghost orig = thread_sessions_view(v@);
    let mut out: Vec<(String, SessionId)> = Vec::new();
    let mut i: usize = 0;
    while i < v.len()
        invariant
            i <= v.len(),
            orig == thread_sessions_view(v@),
            forall|t: Seq<char>| #[trigger] assoc_get(thread_sessions_view(out@), t) == if t == thread@ {
                None
            } else {
                assoc_get(orig.subrange(0, i as int), t)
            },
        decreases v.len() - i,
    {
        proof {
            assert(orig.subrange(0, i + 1).drop_last() =~= orig.subrange(0, i as int));
            assert(orig.subrange(0, i + 1).last() == orig[i as int]);
        }
        let ghost before = out@;
        if !str_eq(v[i].0.as_str(), thread) {
            let e = (v[i].0.clone(), v[i].1);
            out.push(e);
            proof {
                assert(thread_sessions_view(out@).drop_last() =~= thread_sessions_view(before));
                assert(thread_sessions_view(out@).last() == orig[i as int]);
            }
        }
        proof {
            assert forall|t: Seq<char>| #[trigger] assoc_get(thread_sessions_view(out@), t) == if t == thread@ {
                None
            } else {
                assoc_get(orig.subrange(0, i + 1), t)
            } by {
                assert(assoc_get(thread_sessions_view(before), t) == if t == thread@ {
                    None
                } else {
                    assoc_get(orig.subrange(0, i as int), t)
                });
            }
        }
        i = i + 1;
    }
    proof {
        assert(orig.subrange(0, orig.len() as int) =~= orig);
    }
    out
}

// ---------------------------------------------------------------------------
// Bindings, turns and pending requests
// ---------------------------------------------------------------------------

impl CodexRuntimeState {
    /// Binds a session to a native thread (both ways), replacing earlier bindings of the
    /// session.
    pub fn bind_session(&mut self, session_id: SessionId, native_thread_id: String)
        requires
            old(self).wf(),
        ensures
            final(self).wf(),
            forall|s: SessionId| #[trigger]
                final(self).thread_of(s) == if s == session_id {
                    Some(native_thread_id@)
                } else {
                    old(self).thread_of(s)
                },
            forall|t: Seq<char>| #[trigger]
                final(self).session_of(t) == if t == native_thread_id@ {
                    Some(session_id)
                } else {
                    old(self).session_of(t)
                },
            forall|s: SessionId| #[trigger] final(self).active_turn(s) == old(self).active_turn(s),
            forall|a: u128| #[trigger] final(self).pending_approval(a) == old(self).pending_approval(a),
            forall|a: u128| #[trigger] final(self).pending_question(a) == old(self).pending_question(a),
    {
        let mut threads = Vec::new();
        std::mem::swap(&mut threads, &mut self.session_threads);
        let ghost old_threads = threads@;
        let (mut kept, _) = take_by_session(threads, session_id);
        let ghost before = kept@;
        let thread_key = native_thread_id.clone();
        let ghost entry = (session_id, native_thread_id);
        kept.push((session_id, native_thread_id));
        proof {
            assert(kept@.drop_last() =~= before);
            assert(kept@.last() == entry);
            assert forall|s: SessionId| #[trigger] assoc_get(kept@, s) == if s == session_id {
                Some(entry.1)
            } else {
                assoc_get(old_threads, s)
            } by {
                assert(assoc_get(before, s) == if s == session_id {
                    None
                } else {
                    assoc_get(old_threads, s)
                });
            }
            assert forall|i: int, j: int| 0 <= i < j < kept@.len() implies kept@[i].0 != kept@[j].0 by {
                if j == kept@.len() - 1 {
                    assert(kept@[i] == before[i]);
                } else {
                    assert(kept@[i] == before[i]);
                    assert(kept@[j] == before[j]);
                }
            }
        }
        self.session_threads = kept;
        let ghost tb = thread_sessions_view(self.thread_sessions@);
        let ghost tk = thread_key@;
        self.thread_sessions.push((thread_key, session_id));
        proof {
            assert(thread_sessions_view(self.thread_sessions@) =~= tb.push((tk, session_id)));
            assert(thread_sessions_view(self.thread_sessions@).drop_last() =~= tb);
        }
    }

    /// Forgets a session's binding, and its thread's.
    pub fn unbind_session(&mut self, session_id: SessionId)
        requires
            old(self).wf(),
        ensures
            final(self).wf(),
            forall|s: SessionId| #[trigger]
                final(self).thread_of(s) == if s == session_id {
                    None
                } else {
                    old(self).thread_of(s)
                },
            forall|t: Seq<char>| #[trigger]
                final(self).session_of(t) == if old(self).thread_of(session_id) == Some(t) {
                    None
                } else {
                    old(self).session_of(t)
                },
            forall|s: SessionId| #[trigger] final(self).active_turn(s) == old(self).active_turn(s),
            forall|a: u128| #[trigger] final(self).pending_approval(a) == old(self).pending_approval(a),
            forall|a: u128| #[trigger] final(self).pending_question(a) == old(self).pending_question(a),
    {
        let mut threads = Vec::new();
        std::mem::swap(&mut threads, &mut self.session_threads);
        let (kept, removed) = take_by_session(threads, session_id);
        self.session_threads = kept;
        match removed {
            Some(thread) => {
                let mut sessions = Vec::new();
        std::mem::swap(&mut sessions, &mut self.thread_sessions);
                self.thread_sessions = without_thread(sessions, thread.as_str());
            },
            None => {},
        }
    }

    /// The only bound session, when exactly one is bound.
    pub fn single_session(&self) -> (r: Option<SessionId>)
        ensures
            r == self.sole_session(),
    {
        if self.session_threads.len() == 1 {
            Some(self.session_threads[0].0)
        } else {
            None
        }
    }

    fn session_of_thread(&self, thread: &str) -> (r: Option<SessionId>)
        ensures
            r == self.session_of(thread@),
    {
        let ghost tv = thread_sessions_view(self.thread_sessions@);
        let mut i = self.thread_sessions.len();
        proof {
            assert(tv.subrange(0, tv.len() as int) =~= tv);
        }
        while i > 0
            invariant
                i <= self.thread_sessions.len(),
                tv == thread_sessions_view(self.thread_sessions@),
                assoc_get(tv, thread@) == assoc_get(tv.subrange(0, i as int), thread@),
            decreases i,
        {
            proof {
                assert(tv.subrange(0, i as int).drop_last() =~= tv.subrange(0, i - 1));
                assert(tv.subrange(0, i as int).last() == tv[i - 1]);
            }
            if str_eq(self.thread_sessions[i - 1].0.as_str(), thread) {
                return Some(self.thread_sessions[i - 1].1);
            }
            i = i - 1;
        }
        proof {
            assert(tv.subrange(0, 0) =~= Seq::<(Seq<char>, SessionId)>::empty());
        }
        None
    }

    /// The session a payload belongs to: that of the thread it names, else the only
    /// bound session.
    pub fn session_for_payload(&self, payload: &JsonValue) -> (r: Option<SessionId>)
        ensures
            r == self.session_for(payload@),
    {
        let path: [&str; 2] = ["params", "threadId"];
        proof {
            assert(path_view(path@) =~= seq!["params"@, "threadId"@]);
        }
        let by_thread = match at(payload, &path) {
            Some(t) => match as_str(t) {
                Some(thread) => self.session_of_thread(thread),
                None => None,
            },
            None => None,
        };
        match by_thread {
            Some(s) => Some(s),
            None => self.single_session(),
        }
    }

    /// Records the native turn running in a session.
    pub fn set_active_turn(&mut self, session_id: SessionId, native_turn_id: String)
        requires
            old(self).wf(),
        ensures
            final(self).wf(),
            forall|s: SessionId| #[trigger]
                final(self).active_turn(s) == if s == session_id {
                    Some(native_turn_id@)
                } else {
                    old(self).active_turn(s)
                },
            forall|s: SessionId| #[trigger] final(self).thread_of(s) == old(self).thread_of(s),
            forall|t: Seq<char>| #[trigger] final(self).session_of(t) == old(self).session_of(t),
            final(self).sole_session() == old(self).sole_session(),
            forall|a: u128| #[trigger] final(self).pending_approval(a) == old(self).pending_approval(a),
            forall|a: u128| #[trigger] final(self).pending_question(a) == old(self).pending_question(a),
    {
        let ghost before = self.active_turns@;
        self.active_turns.push((session_id, native_turn_id));
        proof {
            assert(self.active_turns@.drop_last() =~= before);
        }
    }

    /// Forgets the turn running in a session.
    pub fn clear_active_turn(&mut self, session_id: SessionId)
        requires
            old(self).wf(),
        ensures
            final(self).wf(),
            forall|s: SessionId| #[trigger]
                final(self).active_turn(s) == if s == session_id {
                    None
                } else {
                    old(self).active_turn(s)
                },
            forall|s: SessionId| #[trigger] final(self).thread_of(s) == old(self).thread_of(s),
            forall|t: Seq<char>| #[trigger] final(self).session_of(t) == old(self).session_of(t),
            final(self).sole_session() == old(self).sole_session(),
            forall|a: u128| #[trigger] final(self).pending_approval(a) == old(self).pending_approval(a),
            forall|a: u128| #[trigger] final(self).pending_question(a) == old(self).pending_question(a),
    {
        let mut turns = Vec::new();
        std::mem::swap(&mut turns, &mut self.active_turns);
        let (kept, _) = take_by_session(turns, session_id);
        self.active_turns = kept;
    }

    /// The native thread and turn to interrupt for a session, or why there is none.
    pub fn interrupt_target(&self, session_id: SessionId) -> (r: Result<(String, String), String>)
        ensures
            match r {
                Ok((thread, turn)) => self.thread_of(session_id) == Some(thread@) && self.active_turn(session_id)
                    == Some(turn@),
                Err(e) => if self.thread_of(session_id) is None {
                    e@ == "Codex session has no native thread id"@
                } else {
                    self.active_turn(session_id) is None && e@ == "Codex session has no active turn id"@
                },
            },
    {
        let thread = match self.thread_lookup(session_id) {
            Some(t) => t,
            None => return Err(owned("Codex session has no native thread id")),
        };
        let turn = match self.turn_lookup(session_id) {
            Some(t) => t,
            None => return Err(owned("Codex session has no active turn id")),
        };
        Ok((thread, turn))
    }

    fn thread_lookup(&self, session_id: SessionId) -> (r: Option<String>)
        ensures
            opt_s(r) == self.thread_of(session_id),
    {
        let mut i = self.session_threads.len();
        proof {
            assert(self.session_threads@.subrange(0, self.session_threads@.len() as int) =~= self.session_threads@);
        }
        while i > 0
            invariant
                i <= self.session_threads.len(),
                assoc_get(self.session_threads@, session_id) == assoc_get(self.session_threads@.subrange(0, i as int), session_id),
            decreases i,
        {
            proof {
                assert(self.session_threads@.subrange(0, i as int).drop_last() =~= self.session_threads@.subrange(0, i - 1));
                assert(self.session_threads@.subrange(0, i as int).last() == self.session_threads@[i - 1]);
            }
            if self.session_threads[i - 1].0 == session_id {
                return Some(self.session_threads[i - 1].1.clone());
            }
            i = i - 1;
        }
        proof {
            assert(self.session_threads@.subrange(0, 0) =~= Seq::<(SessionId, String)>::empty());
        }
        None
    }

    fn turn_lookup(&self, session_id: SessionId) -> (r: Option<String>)
        ensures
            opt_s(r) == self.active_turn(session_id),
    {
        let mut i = self.active_turns.len();
        proof {
            assert(self.active_turns@.subrange(0, self.active_turns@.len() as int) =~= self.active_turns@);
        }
        while i > 0
            invariant
                i <= self.active_turns.len(),
                assoc_get(self.active_turns@, session_id) == assoc_get(self.active_turns@.subrange(0, i as int), session_id),
            decreases i,
        {
            proof {
                assert(self.active_turns@.subrange(0, i as int).drop_last() =~= self.active_turns@.subrange(0, i - 1));
                assert(self.active_turns@.subrange(0, i as int).last() == self.active_turns@[i - 1]);
            }
            if self.active_turns[i - 1].0 == session_id {
                return Some(self.active_turns[i - 1].1.clone());
            }
            i = i - 1;
        }
        proof {
            assert(self.active_turns@.subrange(0, 0) =~= Seq::<(SessionId, String)>::empty());
        }
        None
    }
}

// ---------------------------------------------------------------------------
// Sending input
// ---------------------------------------------------------------------------

/// Where input for a session goes: the thread it is bound to, or a thread to resume
/// first.
#[derive(Debug, PartialEq, Eq)]
pub enum SendThread {
    Bound(String),
    Resume(String),
}

pub enum SendThreadView {
    Bound(Seq<char>),
    Resume(Seq<char>),
}

impl View for SendThread {
    type V = SendThreadView;

    open spec fn view(&self) -> SendThreadView {
        match self {
            SendThread::Bound(t) => SendThreadView::Bound(t@),
            SendThread::Resume(t) => SendThreadView::Resume(t@),
        }
    }
}

/// The thread input goes to: the bound one, unless a resume is forced; otherwise the
/// thread to resume, the caller's own id before the bound one; none when neither is
/// known.
pub open spec fn send_thread_of(bound: Option<Seq<char>>, external: Option<Seq<char>>, force: bool) -> Option<
    SendThreadView,
> {
    if !force && bound is Some {
        Some(SendThreadView::Bound(bound.unwrap()))
    } else {
        match external {
            Some(t) => Some(SendThreadView::Resume(t)),
            None => match bound {
                Some(t) => Some(SendThreadView::Resume(t)),
                None => None,
            },
        }
    }
}

/// The runtime's native reference for an event it reports itself.
pub open spec fn native_ref_for_runtime_of(method: Seq<char>, raw: Option<Json>) -> NativeRefView {
    runtime_native_of(method, raw)
}

/// The status event of a session, with the runtime's native reference.
pub open spec fn lifecycle_status_of(
    session: SessionId,
    native: NativeRefView,
    status: crate::model::SessionStatus,
    reason: Option<Seq<char>>,
) -> ActionView {
    emit_of(Some(session), None, None, Some(native), UniversalView::SessionStatusChanged { status, reason })
}

/// The event reporting that Codex took input into the running turn.
pub open spec fn turn_steered_of(session: SessionId, turn: TurnId, native: NativeRefView, native_turn_id: Seq<char>) -> ActionView {
    emit_of(
        Some(session),
        Some(turn),
        None,
        Some(native),
        UniversalView::ProviderNotification {
            notification: ProviderNotificationView {
                category: "turn"@,
                title: "Codex turn steered"@,
                detail: Some(native_turn_id),
                status: Some("accepted"@),
                severity: None,
                subject: None,
            },
        },
    )
}

/// The native reference of an event the runtime reports itself, for `method`.
pub fn native_ref_for_runtime(method: &str, raw_payload: Option<JsonValue>) -> (r: NativeRef)
    ensures
        r@ == native_ref_for_runtime_of(method@, opt_j(raw_payload)),
{
    NativeRef {
        protocol: owned(CODEX_APP_SERVER_PROTOCOL),
        method: Some(owned(method)),
        kind: Some(owned("runtime")),
        native_id: None,
        summary: Some(owned("Codex runtime event")),
        hash: None,
        pointer: None,
        raw_payload,
    }
}

/// The status event of a session.
pub fn lifecycle_status(
    session_id: SessionId,
    native: NativeRef,
    status: crate::model::SessionStatus,
    reason: Option<String>,
) -> (r: RuntimeAction)
    ensures
        r@ == lifecycle_status_of(session_id, native@, status, opt_s(reason)),
{
    emit(Some(session_id), None, None, Some(native), UniversalEventKind::SessionStatusChanged { status, reason })
}

/// The event reporting that Codex took input into the running turn `turn_id`.
pub fn turn_steered(session_id: SessionId, turn_id: TurnId, native: NativeRef, native_turn_id: String) -> (r: RuntimeAction)
    ensures
        r@ == turn_steered_of(session_id, turn_id, native@, native_turn_id@),
{
    emit(
        Some(session_id),
        Some(turn_id),
        None,
        Some(native),
        UniversalEventKind::ProviderNotification {
            notification: crate::universal::ProviderNotification {
                category: owned("turn"),
                title: owned("Codex turn steered"),
                detail: Some(native_turn_id),
                status: Some(owned("accepted")),
                severity: None,
                subject: None,
            },
        },
    )
}

impl CodexRuntimeState {
    /// The thread input for a session goes to (see `send_thread_of`); an error when no
    /// thread is known.
    pub fn send_thread(&self, session_id: SessionId, external_session_id: Option<String>, force: bool) -> (r: Result<
        SendThread,
        String,
    >)
        ensures
            match send_thread_of(self.thread_of(session_id), opt_s(external_session_id), force) {
                Some(v) => r matches Ok(t) && t@ == v,
                None => r matches Err(e) && e@ == "Codex session has no native thread id"@,
            },
    {
        let bound = self.thread_lookup(session_id);
        if !force {
            match bound {
                Some(t) => return Ok(SendThread::Bound(t)),
                None => {},
            }
            return match external_session_id {
                Some(t) => Ok(SendThread::Resume(t)),
                None => Err(owned("Codex session has no native thread id")),
            };
        }
        match external_session_id {
            Some(t) => Ok(SendThread::Resume(t)),
            None => match bound {
                Some(t) => Ok(SendThread::Resume(t)),
                None => Err(owned("Codex session has no native thread id")),
            },
        }
    }

    /// The native turn running in a session, which new input steers.
    pub fn active_turn_id(&self, session_id: SessionId) -> (r: Option<String>)
        ensures
            opt_s(r) == self.active_turn(session_id),
    {
        self.turn_lookup(session_id)
    }

    /// Stops tracking a session: its binding and running turn go, and the runtime
    /// reports it stopped. Returns the thread to unsubscribe from, if it was bound.
    pub fn shutdown_session(&mut self, session_id: SessionId) -> (r: (Option<String>, RuntimeAction))
        requires
            old(self).wf(),
        ensures
            final(self).wf(),
            opt_s(r.0) == old(self).thread_of(session_id),
            r.1@ == lifecycle_status_of(
                session_id,
                native_ref_for_runtime_of("thread/unsubscribe"@, None),
                crate::model::SessionStatus::Stopped,
                Some("Codex session runtime stopped."@),
            ),
            final(self).thread_of(session_id) is None,
            final(self).active_turn(session_id) is None,
            forall|s: SessionId| s != session_id ==> #[trigger] final(self).thread_of(s) == old(self).thread_of(s),
            forall|s: SessionId| s != session_id ==> #[trigger] final(self).active_turn(s) == old(self).active_turn(s),
            forall|t: Seq<char>| #[trigger]
                final(self).session_of(t) == if old(self).thread_of(session_id) == Some(t) {
                    None
                } else {
                    old(self).session_of(t)
                },
            forall|a: u128| #[trigger] final(self).pending_approval(a) == old(self).pending_approval(a),
            forall|a: u128| #[trigger] final(self).pending_question(a) == old(self).pending_question(a),
    {
        let thread = self.thread_lookup(session_id);
        self.unbind_session(session_id);
        self.clear_active_turn(session_id);
        let action = lifecycle_status(
            session_id,
            native_ref_for_runtime("thread/unsubscribe", None),
            crate::model::SessionStatus::Stopped,
            Some(owned("Codex session runtime stopped.")),
        );
        (thread, action)
    }
}

// ---------------------------------------------------------------------------
// Starting turns and reporting errors
// ---------------------------------------------------------------------------

/// The outputs of an item of a turn of a session's thread.
#[verifier::opaque]
pub open spec fn history_outputs_for(
    session: SessionId,
    thread: Seq<char>,
    turn: Seq<char>,
    item: Json,
    now: UtcTimestamp,
) -> Seq<ReducedView> {
    history_outputs(session, session_namespace(session.0), thread, turn, item, now)
}

/// The events of the items of a turn, item by item.
pub open spec fn items_actions(session: SessionId, thread: Seq<char>, turn: Seq<char>, items: Seq<Json>, now: UtcTimestamp) -> Seq<
    ActionView,
>
    decreases items.len(),
{
    if items.len() == 0 {
        Seq::empty()
    } else {
        items_actions(session, thread, turn, items.drop_last(), now) + history_outputs_for(
            session,
            thread,
            turn,
            items.last(),
            now,
        ).map_values(|o: ReducedView| output_emit(o))
    }
}

/// The `items` array of a turn, or none.
pub open spec fn turn_items_of(turn: Json) -> Seq<Json> {
    match json_get(turn, "items"@) {
        Some(v) => match json_as_array(v) {
            Some(a) => a,
            None => Seq::empty(),
        },
        None => Seq::empty(),
    }
}

/// The report of a transport error to one session.
pub open spec fn transport_error_of(session: SessionId, code: Seq<char>, message: Seq<char>) -> ActionView {
    emit_of(
        Some(session),
        None,
        None,
        Some(
            native_ref_for_runtime_of(
                "transport/error"@,
                Some(Json::Object(seq![("message"@, Json::Str(message))])),
            ),
        ),
        UniversalView::ErrorReported { code: Some(code), message },
    )
}

fn history_item_actions(session_id: SessionId, thread: &str, turn: &str, item: &JsonValue, now: UtcTimestamp) -> (r: Vec<
    RuntimeAction,
>)
    ensures
        actions_view(r@) == history_outputs_for(session_id, thread@, turn@, item@, now).map_values(
            |o: ReducedView| output_emit(o),
        ),
{
    let mut reducer = CodexReducer::new(session_id, CodexIdMap::for_session(session_id));
    let outputs = reducer.reduce_history_item_at(thread, turn, item, now);
    proof {
        reveal(history_outputs_for);
    }
    let (actions, _) = emit_outputs(outputs);
    actions
}

impl CodexRuntimeState {
    /// A turn Codex started for a session: it becomes the session's running turn, and
    /// the items the turn already holds become events stamped `now`.
    pub fn turn_started_at(
        &mut self,
        session_id: SessionId,
        native_thread_id: &str,
        native_turn_id: String,
        turn: &JsonValue,
        now: UtcTimestamp,
    ) -> (r: Vec<RuntimeAction>)
        requires
            old(self).wf(),
        ensures
            final(self).wf(),
            actions_view(r@) == items_actions(session_id, native_thread_id@, native_turn_id@, turn_items_of(turn@), now),
            forall|s: SessionId| #[trigger]
                final(self).active_turn(s) == if s == session_id {
                    Some(native_turn_id@)
                } else {
                    old(self).active_turn(s)
                },
            forall|s: SessionId| #[trigger] final(self).thread_of(s) == old(self).thread_of(s),
            forall|t: Seq<char>| #[trigger] final(self).session_of(t) == old(self).session_of(t),
            final(self).sole_session() == old(self).sole_session(),
            forall|a: u128| #[trigger] final(self).pending_approval(a) == old(self).pending_approval(a),
            forall|a: u128| #[trigger] final(self).pending_question(a) == old(self).pending_question(a),
    {
        let turn_text = owned(native_turn_id.as_str());
        self.set_active_turn(session_id, native_turn_id);
        let mut actions: Vec<RuntimeAction> = Vec::new();
        let items = match get(turn, "items") {
            Some(v) => match crate::json::as_array(v) {
                Some(a) => a,
                None => {
                    proof {
                        assert(actions_view(actions@) =~= Seq::<ActionView>::empty());
                    }
                    return actions;
                },
            },
            None => {
                proof {
                    assert(actions_view(actions@) =~= Seq::<ActionView>::empty());
                }
                return actions;
            },
        };
        let ghost all = crate::json::values_view(items@);
        let ghost tv = turn_text@;
        let mut i: usize = 0;
        proof {
            assert(all.subrange(0, 0) =~= Seq::<Json>::empty());
            assert(actions_view(actions@) =~= Seq::<ActionView>::empty());
        }
        while i < items.len()
            invariant
                all == crate::json::values_view(items@),
                all == turn_items_of(turn@),
                tv == turn_text@,
                i <= items.len(),
                actions_view(actions@) == items_actions(session_id, native_thread_id@, tv, all.subrange(0, i as int), now),
            decreases items.len() - i,
        {
            let ghost before = actions_view(actions@);
            let mut more = history_item_actions(session_id, native_thread_id, turn_text.as_str(), &items[i], now);
            let ghost added = actions_view(more@);
            actions.append(&mut more);
            proof {
                assert(all.subrange(0, i + 1).drop_last() =~= all.subrange(0, i as int));
                assert(all.subrange(0, i + 1).last() == items@[i as int]@);
                assert(actions_view(actions@) =~= before + added);
            }
            i = i + 1;
        }
        proof {
            assert(all.subrange(0, all.len() as int) =~= all);
        }
        actions
    }

    /// A turn of a thread's history, as a resumed or started thread reports it: a turn
    /// whose status is given and not terminal becomes the session's running turn; its
    /// items become events stamped `now`.
    pub fn history_turn_at(
        &mut self,
        session_id: SessionId,
        native_thread_id: &str,
        native_turn_id: &str,
        status: Option<&str>,
        items: &Vec<JsonValue>,
        now: UtcTimestamp,
    ) -> (r: Vec<RuntimeAction>)
        requires
            old(self).wf(),
        ensures
            final(self).wf(),
            actions_view(r@) == items_actions(
                session_id,
                native_thread_id@,
                native_turn_id@,
                crate::json::values_view(items@),
                now,
            ),
            forall|s: SessionId| #[trigger]
                final(self).active_turn(s) == if s == session_id && (status matches Some(st)
                    && !crate::codex_runtime::terminal_turn_status(st@)) {
                    Some(native_turn_id@)
                } else {
                    old(self).active_turn(s)
                },
            forall|s: SessionId| #[trigger] final(self).thread_of(s) == old(self).thread_of(s),
            forall|t: Seq<char>| #[trigger] final(self).session_of(t) == old(self).session_of(t),
            final(self).sole_session() == old(self).sole_session(),
            forall|a: u128| #[trigger] final(self).pending_approval(a) == old(self).pending_approval(a),
            forall|a: u128| #[trigger] final(self).pending_question(a) == old(self).pending_question(a),
    {
        match status {
            Some(st) => {
                if !crate::codex_runtime::is_terminal_native_turn_status(st) {
                    self.set_active_turn(session_id, owned(native_turn_id));
                }
            },
            None => {},
        }
        let mut actions: Vec<RuntimeAction> = Vec::new();
        let ghost all = crate::json::values_view(items@);
        let mut i: usize = 0;
        proof {
            assert(all.subrange(0, 0) =~= Seq::<Json>::empty());
            assert(actions_view(actions@) =~= Seq::<ActionView>::empty());
        }
        while i < items.len()
            invariant
                all == crate::json::values_view(items@),
                i <= items.len(),
                actions_view(actions@) == items_actions(session_id, native_thread_id@, native_turn_id@, all.subrange(0, i as int), now),
            decreases items.len() - i,
        {
            let ghost before = actions_view(actions@);
            let mut more = history_item_actions(session_id, native_thread_id, native_turn_id, &items[i], now);
            let ghost added = actions_view(more@);
            actions.append(&mut more);
            proof {
                assert(all.subrange(0, i + 1).drop_last() =~= all.subrange(0, i as int));
                assert(all.subrange(0, i + 1).last() == items@[i as int]@);
                assert(actions_view(actions@) =~= before + added);
            }
            i = i + 1;
        }
        proof {
            assert(all.subrange(0, all.len() as int) =~= all);
        }
        actions
    }

    /// A turn Codex started for a session, its events stamped with the current time
    /// (the clock decides which instant).
    pub fn turn_started(&mut self, session_id: SessionId, native_thread_id: &str, native_turn_id: String, turn: &JsonValue) -> (r:
        Vec<RuntimeAction>)
        requires
            old(self).wf(),
        ensures
            final(self).wf(),
            exists|now: UtcTimestamp|
                actions_view(r@) == #[trigger] items_actions(
                    session_id,
                    native_thread_id@,
                    native_turn_id@,
                    turn_items_of(turn@),
                    now,
                ),
            forall|s: SessionId| #[trigger]
                final(self).active_turn(s) == if s == session_id {
                    Some(native_turn_id@)
                } else {
                    old(self).active_turn(s)
                },
            forall|s: SessionId| #[trigger] final(self).thread_of(s) == old(self).thread_of(s),
            forall|t: Seq<char>| #[trigger] final(self).session_of(t) == old(self).session_of(t),
            final(self).sole_session() == old(self).sole_session(),
            forall|a: u128| #[trigger] final(self).pending_approval(a) == old(self).pending_approval(a),
            forall|a: u128| #[trigger] final(self).pending_question(a) == old(self).pending_question(a),
    {
        let now = utc_now();
        self.turn_started_at(session_id, native_thread_id, native_turn_id, turn, now)
    }

    /// The report of a transport error to every bound session, in binding order.
    pub fn transport_error_actions(&self, code: &str, message: &str) -> (r: Vec<RuntimeAction>)
        ensures
            r@.len() == self.bound_sessions().len(),
            forall|i: int|
                0 <= i < r@.len() ==> #[trigger] r@[i]@ == transport_error_of(self.bound_sessions()[i], code@, message@),
    {
        let mut actions: Vec<RuntimeAction> = Vec::new();
        let mut i: usize = 0;
        while i < self.session_threads.len()
            invariant
                i <= self.session_threads.len(),
                actions@.len() == i,
                forall|j: int|
                    0 <= j < i ==> #[trigger] actions@[j]@ == transport_error_of(
                        self.session_threads@[j].0,
                        code@,
                        message@,
                    ),
            decreases self.session_threads.len() - i,
        {
            let session = self.session_threads[i].0;
            let a = emit(
                Some(session),
                None,
                None,
                Some(native_ref_for_runtime("transport/error", Some(obj1("message", jstr(message))))),
                UniversalEventKind::ErrorReported { code: Some(owned(code)), message: owned(message) },
            );
            actions.push(a);
            i = i + 1;
        }
        actions
    }
}

// ---------------------------------------------------------------------------
// Answers
// ---------------------------------------------------------------------------

/// The answers given for a question field (the last entry for it wins).
pub open spec fn field_answers(answers: Seq<(Seq<char>, Seq<Seq<char>>)>, field: Seq<char>) -> Option<Seq<Seq<char>>> {
    assoc_get(answers, field)
}

/// The first answer given for a field.
pub open spec fn first_answer(answers: Seq<(Seq<char>, Seq<Seq<char>>)>, field: Seq<char>) -> Option<Seq<char>> {
    match field_answers(answers, field) {
        Some(values) => if values.len() > 0 {
            Some(values[0])
        } else {
            None
        },
        None => None,
    }
}

/// The action chosen for an MCP elicitation: the first `action` answer, else
/// `decline`.
pub open spec fn chosen_action(answers: Seq<(Seq<char>, Seq<Seq<char>>)>) -> Seq<char> {
    match first_answer(answers, "action"@) {
        Some(a) => a,
        None => "decline"@,
    }
}

/// What an MCP elicitation answer sends as content: the content answer as parsed JSON,
/// else wrapped as `{"value": ...}`.
pub open spec fn elicitation_content(answers: Seq<(Seq<char>, Seq<Seq<char>>)>, parsed: Option<Json>) -> Option<Json> {
    match parsed {
        Some(j) => Some(j),
        None => match first_answer(answers, "content"@) {
            Some(v) => Some(Json::Object(seq![("value"@, Json::Str(v))])),
            None => None,
        },
    }
}

/// The reply to a question Codex asked: an MCP elicitation gets the chosen action
/// (`decline` when none) and the content; a tool input request gets the answers.
pub open spec fn question_reply_of(pending: PendingView, answers: Seq<(Seq<char>, Seq<Seq<char>>)>, parsed: Option<Json>) -> Json {
    if pending.method == "mcpServer/elicitation/request"@ {
        crate::codex_approvals::response_envelope(
            request_id_json(pending.request_id),
            Json::Object(
                seq![
                    ("_meta"@, Json::Object(seq![("client"@, Json::Str("agenter"@))])),
                    ("action"@, Json::Str(crate::codex_obligations::elicitation_action(chosen_action(answers)))),
                    ("content"@, crate::codex_obligations::opt_or_null(elicitation_content(answers, parsed))),
                ],
            ),
        )
    } else {
        crate::codex_approvals::response_envelope(
            request_id_json(pending.request_id),
            crate::codex_questions::question_response_of(crate::codex_questions::CodexQuestionKind::ToolUserInput, answers),
        )
    }
}

fn first_answer_exec(answers: &Vec<(String, Vec<String>)>, field: &str) -> (r: Option<String>)
    ensures
        opt_s(r) == first_answer(crate::codex_questions::answers_view(answers@), field@),
{
    let ghost av = crate::codex_questions::answers_view(answers@);
    let mut i = answers.len();
    proof {
        assert(av.subrange(0, av.len() as int) =~= av);
    }
    while i > 0
        invariant
            i <= answers.len(),
            av == crate::codex_questions::answers_view(answers@),
            assoc_get(av, field@) == assoc_get(av.subrange(0, i as int), field@),
        decreases i,
    {
        proof {
            assert(av.subrange(0, i as int).drop_last() =~= av.subrange(0, i - 1));
            assert(av.subrange(0, i as int).last() == av[i - 1]);
        }
        if str_eq(answers[i - 1].0.as_str(), field) {
            let values = &answers[i - 1].1;
            if values.len() > 0 {
                return Some(values[0].clone());
            } else {
                return None;
            }
        }
        i = i - 1;
    }
    proof {
        assert(av.subrange(0, 0) =~= Seq::<(Seq<char>, Seq<Seq<char>>)>::empty());
    }
    None
}

impl CodexRuntimeState {
    fn insert_approval(&mut self, approval_id: u128, pending: PendingCodexApproval)
        requires
            old(self).wf(),
        ensures
            final(self).wf(),
            forall|a: u128| #[trigger]
                final(self).pending_approval(a) == if a == approval_id {
                    Some(PendingView {
                        request_id: pending.request_id@,
                        method: pending.method@,
                        raw_payload: Some(pending.raw_payload@),
                    })
                } else {
                    old(self).pending_approval(a)
                },
            forall|a: u128| #[trigger] final(self).pending_question(a) == old(self).pending_question(a),
            forall|s: SessionId| #[trigger] final(self).thread_of(s) == old(self).thread_of(s),
            forall|s: SessionId| #[trigger] final(self).active_turn(s) == old(self).active_turn(s),
            forall|t: Seq<char>| #[trigger] final(self).session_of(t) == old(self).session_of(t),
            final(self).sole_session() == old(self).sole_session(),
    {
        let mut list = Vec::new();
        std::mem::swap(&mut list, &mut self.pending_approvals);
        let ghost old_list = list@;
        let (mut kept, _) = take_by_id(list, approval_id);
        let ghost before = kept@;
        let ghost entry = (approval_id, pending);
        kept.push((approval_id, pending));
        proof {
            assert(kept@.drop_last() =~= before);
            assert(kept@.last() == entry);
            assert forall|a: u128| #[trigger] assoc_get(kept@, a) == if a == approval_id {
                Some(entry.1)
            } else {
                assoc_get(old_list, a)
            } by {
                assert(assoc_get(before, a) == if a == approval_id {
                    None
                } else {
                    assoc_get(old_list, a)
                });
            }
        }
        self.pending_approvals = kept;
    }

    fn insert_question(&mut self, question_id: u128, pending: PendingCodexQuestion)
        requires
            old(self).wf(),
        ensures
            final(self).wf(),
            forall|a: u128| #[trigger]
                final(self).pending_question(a) == if a == question_id {
                    Some(PendingView { request_id: pending.request_id@, method: pending.method@, raw_payload: None })
                } else {
                    old(self).pending_question(a)
                },
            forall|a: u128| #[trigger] final(self).pending_approval(a) == old(self).pending_approval(a),
            forall|s: SessionId| #[trigger] final(self).thread_of(s) == old(self).thread_of(s),
            forall|s: SessionId| #[trigger] final(self).active_turn(s) == old(self).active_turn(s),
            forall|t: Seq<char>| #[trigger] final(self).session_of(t) == old(self).session_of(t),
            final(self).sole_session() == old(self).sole_session(),
    {
        let mut list = Vec::new();
        std::mem::swap(&mut list, &mut self.pending_questions);
        let ghost old_list = list@;
        let (mut kept, _) = take_by_id(list, question_id);
        let ghost before = kept@;
        let ghost entry = (question_id, pending);
        kept.push((question_id, pending));
        proof {
            assert(kept@.drop_last() =~= before);
            assert(kept@.last() == entry);
            assert forall|a: u128| #[trigger] assoc_get(kept@, a) == if a == question_id {
                Some(entry.1)
            } else {
                assoc_get(old_list, a)
            } by {
                assert(assoc_get(before, a) == if a == question_id {
                    None
                } else {
                    assoc_get(old_list, a)
                });
            }
        }
        self.pending_questions = kept;
    }

    /// The reply to an approval Codex waits on, which stops waiting; an error when it
    /// is no longer pending.
    pub fn answer_approval(&mut self, approval_id: u128, decision: &ApprovalDecision) -> (r: Result<JsonValue, String>)
        requires
            old(self).wf(),
        ensures
            final(self).wf(),
            match old(self).pending_approval(approval_id) {
                Some(p) => r matches Ok(reply) && reply@ == crate::codex_approvals::response_envelope(
                    request_id_json(p.request_id),
                    crate::codex_obligations::approval_result_of(p.method, decision@, p.raw_payload),
                ),
                None => r matches Err(e) && e@ == "Codex approval is no longer pending"@,
            },
            forall|a: u128| #[trigger]
                final(self).pending_approval(a) == if a == approval_id {
                    None
                } else {
                    old(self).pending_approval(a)
                },
            forall|a: u128| #[trigger] final(self).pending_question(a) == old(self).pending_question(a),
            forall|s: SessionId| #[trigger] final(self).thread_of(s) == old(self).thread_of(s),
            forall|s: SessionId| #[trigger] final(self).active_turn(s) == old(self).active_turn(s),
            forall|t: Seq<char>| #[trigger] final(self).session_of(t) == old(self).session_of(t),
            final(self).sole_session() == old(self).sole_session(),
    {
        let mut list = Vec::new();
        std::mem::swap(&mut list, &mut self.pending_approvals);
        let (kept, taken) = take_by_id(list, approval_id);
        self.pending_approvals = kept;
        match taken {
            Some(p) => Ok(codex_approval_response(&p.request_id, p.method.as_str(), decision, Some(&p.raw_payload))),
            None => Err(owned("Codex approval is no longer pending")),
        }
    }

    /// The reply to a question Codex waits on, which stops waiting; an error when it
    /// is no longer pending. `parsed_content` is the first `content` answer read as
    /// JSON, when it is JSON.
    pub fn answer_question(
        &mut self,
        answer: &crate::codex_questions::AgentQuestionAnswer,
        parsed_content: Option<JsonValue>,
    ) -> (r: Result<JsonValue, String>)
        requires
            old(self).wf(),
        ensures
            final(self).wf(),
            match old(self).pending_question(answer.question_id) {
                Some(p) => r matches Ok(reply) && reply@ == question_reply_of(
                    p,
                    crate::codex_questions::answers_view(answer.answers@),
                    opt_j(parsed_content),
                ),
                None => r matches Err(e) && e@ == "Codex question is no longer pending"@,
            },
            forall|a: u128| #[trigger]
                final(self).pending_question(a) == if a == answer.question_id {
                    None
                } else {
                    old(self).pending_question(a)
                },
            forall|a: u128| #[trigger] final(self).pending_approval(a) == old(self).pending_approval(a),
            forall|s: SessionId| #[trigger] final(self).thread_of(s) == old(self).thread_of(s),
            forall|s: SessionId| #[trigger] final(self).active_turn(s) == old(self).active_turn(s),
            forall|t: Seq<char>| #[trigger] final(self).session_of(t) == old(self).session_of(t),
            final(self).sole_session() == old(self).sole_session(),
    {
        let mut list = Vec::new();
        std::mem::swap(&mut list, &mut self.pending_questions);
        let (kept, taken) = take_by_id(list, answer.question_id);
        self.pending_questions = kept;
        let p = match taken {
            Some(p) => p,
            None => return Err(owned("Codex question is no longer pending")),
        };
        if str_eq(p.method.as_str(), "mcpServer/elicitation/request") {
            let action = match first_answer_exec(&answer.answers, "action") {
                Some(a) => a,
                None => owned("decline"),
            };
            let content = match parsed_content {
                Some(j) => Some(j),
                None => match first_answer_exec(&answer.answers, "content") {
                    Some(v) => Some(obj1("value", JsonValue::Str(v))),
                    None => None,
                },
            };
            let reply = crate::codex_obligations::codex_mcp_elicitation_response(
                &p.request_id,
                action.as_str(),
                content,
                Some(obj1("client", jstr("agenter"))),
            );
            Ok(reply)
        } else {
            Ok(crate::codex_obligations::codex_tool_user_input_response(&p.request_id, answer))
        }
    }
}

// ---------------------------------------------------------------------------
// Frames
// ---------------------------------------------------------------------------

pub open spec fn emit_of(
    session: Option<SessionId>,
    turn: Option<TurnId>,
    item: Option<crate::model::ItemId>,
    native: Option<NativeRefView>,
    event: UniversalView,
) -> ActionView {
    ActionView::Emit(AdapterEventView { session_id: session, turn_id: turn, item_id: item, source: UniversalEventSource::Native, native, event })
}

/// The native reference of an event the runtime itself reports.
pub open spec fn runtime_native_of(method: Seq<char>, raw: Option<Json>) -> NativeRefView {
    NativeRefView {
        protocol: CODEX_APP_SERVER_PROTOCOL@,
        method: Some(method),
        kind: Some("runtime"@),
        native_id: None,
        summary: Some("Codex runtime event"@),
        hash: None,
        pointer: None,
        raw_payload: raw,
    }
}

/// A frame no session claims is shown in the only session, if there is exactly one.
pub open spec fn fallback_of(sole: Option<SessionId>, raw: Json, summary: Seq<char>) -> Seq<ActionView> {
    match sole {
        Some(s) => seq![
            emit_of(
                Some(s),
                None,
                None,
                Some(runtime_native_of("native/frame"@, Some(raw))),
                UniversalView::NativeUnknown { summary: Some(summary) },
            ),
        ],
        None => Seq::empty(),
    }
}

/// The reducer output as an event for the runner.
pub open spec fn output_emit(o: ReducedView) -> ActionView {
    emit_of(Some(o.session_id), o.turn_id, o.item_id, Some(o.native), o.event)
}

/// Whether an output finishes the turn it belongs to.
pub open spec fn ends_turn(o: ReducedView) -> bool {
    match o.event {
        UniversalView::TurnCompleted { turn } => o.turn_id == Some(turn.turn_id),
        UniversalView::TurnFailed { turn } => o.turn_id == Some(turn.turn_id),
        UniversalView::TurnInterrupted { turn } => o.turn_id == Some(turn.turn_id),
        UniversalView::TurnCancelled { turn } => o.turn_id == Some(turn.turn_id),
        _ => false,
    }
}

/// The raw payload a frame's session is looked up by.
pub open spec fn frame_payload(frame: CodexDecodedFrame) -> Json {
    match frame {
        CodexDecodedFrame::ServerNotification(n) => n.raw_payload@,
        CodexDecodedFrame::ServerRequest(r) => r.raw_payload@,
        _ => Json::Null,
    }
}

/// The outputs of a notification for the session it belongs to.
#[verifier::opaque]
pub open spec fn notification_outputs_for(session: SessionId, n: CodexServerNotificationFrame, now: UtcTimestamp) -> Seq<ReducedView> {
    notification_outputs(session, session_namespace(session.0), n.method@, n.raw_payload@, now)
}

/// What the runtime does for a frame, given the session the frame's payload belongs to
/// and the only bound session: a notification's projection is emitted; a request
/// becomes a pending approval or question (emitted) or is answered as unsupported
/// (and reported); a request of no session is refused; anything else is shown as a
/// native frame in the only session.
pub open spec fn frame_actions(session: Option<SessionId>, sole: Option<SessionId>, frame: CodexDecodedFrame, now: UtcTimestamp) -> Seq<ActionView> {
    match frame {
        CodexDecodedFrame::ServerNotification(n) => match session {
            Some(s) => notification_outputs_for(s, n, now).map_values(|o: ReducedView| output_emit(o)),
            None => fallback_of(sole, n.raw_payload@, "Codex notification without mapped session"@),
        },
        CodexDecodedFrame::ServerRequest(r) => match session {
            Some(s) => match server_request_output(s, r.method@, r.request_id@, r.raw_payload@) {
                OutputView::Approval(a) => seq![
                    emit_of(Some(s), a.turn_id, a.item_id, a.native, UniversalView::ApprovalRequested { approval: a }),
                ],
                OutputView::Question(q) => seq![
                    emit_of(Some(s), q.turn_id, None, q.native, UniversalView::QuestionRequested { question: q }),
                ],
                OutputView::Unsupported { title, detail, native, response } => seq![
                    ActionView::Respond(response),
                    emit_of(
                        Some(s),
                        None,
                        None,
                        Some(native),
                        UniversalView::ProviderNotification {
                            notification: ProviderNotificationView {
                                category: "codex_unsupported_server_request"@,
                                title,
                                detail: Some(detail),
                                status: Some("unsupported"@),
                                severity: Some(crate::model::ProviderNotificationSeverity::Warning),
                                subject: native.method,
                            },
                        },
                    ),
                ],
            },
            None => seq![
                ActionView::Respond(
                    error_envelope(
                        request_id_json(r.request_id@),
                        -32601i64,
                        "Agenter could not map Codex request to a session."@,
                        None,
                    ),
                ),
            ],
        },
        CodexDecodedFrame::Malformed(m) => fallback_of(
            sole,
            Json::Object(seq![("line"@, Json::Str(m.line@)), ("error"@, Json::Str(m.error@))]),
            "Malformed Codex app-server frame"@,
        ),
        CodexDecodedFrame::ClientResponse(c) => fallback_of(sole, c.raw_payload@, "Codex app-server frame"@),
        CodexDecodedFrame::ClientError(c) => fallback_of(sole, c.raw_payload@, "Codex app-server frame"@),
    }
}

/// The session whose running turn a frame finishes, if it finishes one.
pub open spec fn finished_turn_session(session: Option<SessionId>, frame: CodexDecodedFrame, now: UtcTimestamp) -> Option<SessionId> {
    match frame {
        CodexDecodedFrame::ServerNotification(n) => match session {
            Some(s) => if exists|i: int|
                0 <= i < notification_outputs_for(s, n, now).len() && ends_turn(
                    #[trigger] notification_outputs_for(s, n, now)[i],
                ) {
                Some(s)
            } else {
                None
            },
            None => None,
        },
        _ => None,
    }
}

/// The approval a frame leaves pending, under its id.
pub open spec fn new_approval(session: Option<SessionId>, frame: CodexDecodedFrame) -> Option<(u128, PendingView)> {
    match frame {
        CodexDecodedFrame::ServerRequest(r) => match session {
            Some(s) => match server_request_output(s, r.method@, r.request_id@, r.raw_payload@) {
                OutputView::Approval(a) => Some(
                    (a.approval_id, PendingView { request_id: r.request_id@, method: r.method@, raw_payload: Some(r.raw_payload@) }),
                ),
                _ => None,
            },
            None => None,
        },
        _ => None,
    }
}

/// The question a frame leaves pending, under its id.
pub open spec fn new_question(session: Option<SessionId>, frame: CodexDecodedFrame) -> Option<(u128, PendingView)> {
    match frame {
        CodexDecodedFrame::ServerRequest(r) => match session {
            Some(s) => match server_request_output(s, r.method@, r.request_id@, r.raw_payload@) {
                OutputView::Question(q) => Some(
                    (q.question_id, PendingView { request_id: r.request_id@, method: r.method@, raw_payload: None }),
                ),
                _ => None,
            },
            None => None,
        },
        _ => None,
    }
}

fn runtime_native(method: &str, raw: JsonValue) -> (r: NativeRef)
    ensures
        r@ == runtime_native_of(method@, Some(raw@)),
{
    NativeRef {
        protocol: owned(CODEX_APP_SERVER_PROTOCOL),
        method: Some(owned(method)),
        kind: Some(owned("runtime")),
        native_id: None,
        summary: Some(owned("Codex runtime event")),
        hash: None,
        pointer: None,
        raw_payload: Some(raw),
    }
}

fn emit(
    session: Option<SessionId>,
    turn: Option<TurnId>,
    item: Option<crate::model::ItemId>,
    native: Option<NativeRef>,
    event: UniversalEventKind,
) -> (r: RuntimeAction)
    ensures
        r@ == emit_of(session, turn, item, opt_native(native), event@),
{
    RuntimeAction::Emit(AdapterEvent::new(session, turn, item, UniversalEventSource::Native, native, event))
}

fn opt_native_clone(n: &Option<NativeRef>) -> (r: Option<NativeRef>)
    ensures
        opt_native(r) == opt_native(*n),
{
    match n {
        Some(x) => Some(native_clone(x)),
        None => None,
    }
}

/// The reducer's outputs as events for the runner, and whether one of them finishes
/// its turn.
fn emit_outputs(outputs: Vec<CodexReducerOutput>) -> (r: (Vec<RuntimeAction>, bool))
    ensures
        actions_view(r.0@) == reduced_view(outputs@).map_values(|o: ReducedView| output_emit(o)),
        r.1 == exists|i: int| 0 <= i < outputs@.len() && ends_turn(#[trigger] reduced_view(outputs@)[i]),
{
    let ghost outs = reduced_view(outputs@);
    let mut rest = outputs;
    let mut actions: Vec<RuntimeAction> = Vec::new();
    let mut finishes = false;
    let ghost mut n: int = 0;
    while rest.len() > 0
        invariant
            0 <= n <= outs.len(),
            outs.len() == n + rest@.len(),
            forall|j: int| 0 <= j < rest@.len() ==> #[trigger] rest@[j]@ == outs[n + j],
            actions@.len() == n,
            forall|j: int| 0 <= j < n ==> #[trigger] actions@[j]@ == output_emit(outs[j]),
            finishes == exists|i: int| 0 <= i < n && ends_turn(#[trigger] outs[i]),
        decreases rest.len(),
    {
        let ghost rest_before = rest@;
        let o = rest.remove(0);
        let ghost ov = o@;
        proof {
            assert(rest_before[0]@ == outs[n + 0]);
            assert(ov == outs[n]);
            assert forall|j: int| 0 <= j < rest@.len() implies #[trigger] rest@[j]@ == outs[n + 1 + j] by {
                assert(rest@[j] == rest_before[j + 1]);
                assert(rest_before[j + 1]@ == outs[n + (j + 1)]);
            }
        }
        let ends = match &o.event {
            UniversalEventKind::TurnCompleted { turn } => o.turn_id == Some(turn.turn_id),
            UniversalEventKind::TurnFailed { turn } => o.turn_id == Some(turn.turn_id),
            UniversalEventKind::TurnInterrupted { turn } => o.turn_id == Some(turn.turn_id),
            UniversalEventKind::TurnCancelled { turn } => o.turn_id == Some(turn.turn_id),
            _ => false,
        };
        proof {
            assert(ends == ends_turn(ov));
        }
        finishes = finishes || ends;
        let CodexReducerOutput { session_id, turn_id, item_id, ts: _, native, event } = o;
        let a = emit(Some(session_id), turn_id, item_id, Some(native), event);
        let ghost av = a@;
        actions.push(a);
        proof {
            assert(av == output_emit(ov));
            assert(actions@[n]@ == output_emit(outs[n]));
            n = n + 1;
        }
    }
    proof {
        assert(actions_view(actions@) =~= outs.map_values(|o: ReducedView| output_emit(o)));
    }
    (actions, finishes)
}

/// The events a notification of a session's thread becomes, and whether one of them
/// finishes its turn.
fn notification_actions(session: SessionId, notification: &CodexServerNotificationFrame, now: UtcTimestamp) -> (r: (
    Vec<RuntimeAction>,
    bool,
))
    ensures
        actions_view(r.0@) == notification_outputs_for(session, *notification, now).map_values(
            |o: ReducedView| output_emit(o),
        ),
        r.1 == exists|i: int|
            0 <= i < notification_outputs_for(session, *notification, now).len() && ends_turn(
                #[trigger] notification_outputs_for(session, *notification, now)[i],
            ),
{
    let mut reducer = CodexReducer::new(session, CodexIdMap::for_session(session));
    let outputs = reducer.reduce_server_notification_at(notification, now);
    proof {
        reveal(notification_outputs_for);
    }
    emit_outputs(outputs)
}

impl CodexRuntimeState {
    fn fallback(&self, raw: JsonValue, summary: &str) -> (r: Vec<RuntimeAction>)
        ensures
            actions_view(r@) == fallback_of(self.sole_session(), raw@, summary@),
    {
        let mut actions: Vec<RuntimeAction> = Vec::new();
        match self.single_session() {
            Some(s) => {
                let a = emit(
                    Some(s),
                    None,
                    None,
                    Some(runtime_native("native/frame", raw)),
                    UniversalEventKind::NativeUnknown { summary: Some(owned(summary)) },
                );
                let ghost av = a@;
                actions.push(a);
                proof {
                    assert(actions_view(actions@) =~= seq![av]);
                }
            },
            None => {
                proof {
                    assert(actions_view(actions@) =~= Seq::<ActionView>::empty());
                }
            },
        }
        actions
    }

    fn handle_notification(&mut self, notification: CodexServerNotificationFrame, now: UtcTimestamp) -> (r: Vec<RuntimeAction>)
        requires
            old(self).wf(),
        ensures
            final(self).wf(),
            actions_view(r@) == frame_actions(
                old(self).session_for(notification.raw_payload@),
                old(self).sole_session(),
                CodexDecodedFrame::ServerNotification(notification),
                now,
            ),
            forall|s: SessionId| #[trigger] final(self).thread_of(s) == old(self).thread_of(s),
            forall|t: Seq<char>| #[trigger] final(self).session_of(t) == old(self).session_of(t),
            final(self).sole_session() == old(self).sole_session(),
            forall|s: SessionId| #[trigger]
                final(self).active_turn(s) == if finished_turn_session(
                    old(self).session_for(notification.raw_payload@),
                    CodexDecodedFrame::ServerNotification(notification),
                    now,
                ) == Some(s) {
                    None
                } else {
                    old(self).active_turn(s)
                },
            forall|a: u128| #[trigger] final(self).pending_approval(a) == old(self).pending_approval(a),
            forall|a: u128| #[trigger] final(self).pending_question(a) == old(self).pending_question(a),
    {
        let session = match self.session_for_payload(&notification.raw_payload) {
            Some(s) => s,
            None => {
                return self.fallback(notification.raw_payload, "Codex notification without mapped session");
            },
        };
        let (actions, finishes) = notification_actions(session, &notification, now);
        if finishes {
            self.clear_active_turn(session);
        }
        actions
    }

    fn handle_request(&mut self, request: CodexServerRequestFrame) -> (r: Vec<RuntimeAction>)
        requires
            old(self).wf(),
        ensures
            final(self).wf(),
            actions_view(r@) == frame_actions(
                old(self).session_for(request.raw_payload@),
                old(self).sole_session(),
                CodexDecodedFrame::ServerRequest(request),
                UtcTimestamp { secs: 0, nanos: 0 },
            ),
            forall|s: SessionId| #[trigger] final(self).thread_of(s) == old(self).thread_of(s),
            forall|t: Seq<char>| #[trigger] final(self).session_of(t) == old(self).session_of(t),
            final(self).sole_session() == old(self).sole_session(),
            forall|s: SessionId| #[trigger] final(self).active_turn(s) == old(self).active_turn(s),
            forall|a: u128| #[trigger]
                final(self).pending_approval(a) == match new_approval(
                    old(self).session_for(request.raw_payload@),
                    CodexDecodedFrame::ServerRequest(request),
                ) {
                    Some((id, p)) => if id == a {
                        Some(p)
                    } else {
                        old(self).pending_approval(a)
                    },
                    None => old(self).pending_approval(a),
                },
            forall|a: u128| #[trigger]
                final(self).pending_question(a) == match new_question(
                    old(self).session_for(request.raw_payload@),
                    CodexDecodedFrame::ServerRequest(request),
                ) {
                    Some((id, p)) => if id == a {
                        Some(p)
                    } else {
                        old(self).pending_question(a)
                    },
                    None => old(self).pending_question(a),
                },
    {
        let session = match self.session_for_payload(&request.raw_payload) {
            Some(s) => s,
            None => {
                let response = codex_unsupported_error_response(
                    &request.request_id,
                    owned("Agenter could not map Codex request to a session."),
                );
                let mut actions: Vec<RuntimeAction> = Vec::new();
                let a = RuntimeAction::Respond(response);
                let ghost av = a@;
                actions.push(a);
                proof {
                    assert(actions_view(actions@) =~= seq![av]);
                }
                return actions;
            },
        };
        let mut mapper = CodexObligationMapper::new(session);
        let output = mapper.map_server_request(&request);
        let mut actions: Vec<RuntimeAction> = Vec::new();
        match output {
            CodexServerRequestOutput::ApprovalRequested(approval) => {
                let CodexServerRequestFrame { request_id, method, decoded: _, raw_payload } = request;
                self.insert_approval(approval.approval_id, PendingCodexApproval { request_id, method, raw_payload });
                let turn = approval.turn_id;
                let item = approval.item_id;
                let native = opt_native_clone(&approval.native);
                let a = emit(Some(session), turn, item, native, UniversalEventKind::ApprovalRequested { approval });
                let ghost av = a@;
                actions.push(a);
                proof {
                    assert(actions_view(actions@) =~= seq![av]);
                }
            },
            CodexServerRequestOutput::QuestionRequested(question) => {
                let CodexServerRequestFrame { request_id, method, decoded: _, raw_payload: _ } = request;
                self.insert_question(question.question_id, PendingCodexQuestion { request_id, method });
                let turn = question.turn_id;
                let native = opt_native_clone(&question.native);
                let a = emit(Some(session), turn, None, native, UniversalEventKind::QuestionRequested { question });
                let ghost av = a@;
                actions.push(a);
                proof {
                    assert(actions_view(actions@) =~= seq![av]);
                }
            },
            CodexServerRequestOutput::NativeUnsupported { title, detail, native, response } => {
                let unsupported = CodexServerRequestOutput::NativeUnsupported { title, detail, native, response };
                let note = unsupported_notification(&unsupported);
                let CodexServerRequestOutput::NativeUnsupported { title: _, detail: _, native, response } =
                    unsupported else {
                    proof {
                        assert(false);
                    }
                    return actions;
                };
                let a1 = RuntimeAction::Respond(response);
                let ghost av1 = a1@;
                actions.push(a1);
                match note {
                    Some(notification) => {
                        let a2 = emit(
                            Some(session),
                            None,
                            None,
                            Some(native),
                            UniversalEventKind::ProviderNotification { notification },
                        );
                        let ghost av2 = a2@;
                        actions.push(a2);
                        proof {
                            assert(actions_view(actions@) =~= seq![av1, av2]);
                        }
                    },
                    None => {
                        proof {
                            assert(false);
                        }
                    },
                }
            },
        }
        actions
    
    }

    /// Decides what the runtime does for a frame from Codex, stamping notifications'
    /// events `now`: what it emits and answers, the approvals and questions it starts
    /// waiting on, and the turn a notification finishes.
    pub fn handle_frame_at(&mut self, frame: CodexDecodedFrame, now: UtcTimestamp) -> (r: Vec<RuntimeAction>)
        requires
            old(self).wf(),
        ensures
            final(self).wf(),
            actions_view(r@) == frame_actions(
                old(self).session_for(frame_payload(frame)),
                old(self).sole_session(),
                frame,
                now,
            ),
            forall|s: SessionId| #[trigger] final(self).thread_of(s) == old(self).thread_of(s),
            forall|t: Seq<char>| #[trigger] final(self).session_of(t) == old(self).session_of(t),
            final(self).sole_session() == old(self).sole_session(),
            forall|s: SessionId| #[trigger]
                final(self).active_turn(s) == if finished_turn_session(old(self).session_for(frame_payload(frame)), frame, now)
                    == Some(s) {
                    None
                } else {
                    old(self).active_turn(s)
                },
            forall|a: u128| #[trigger]
                final(self).pending_approval(a) == match new_approval(old(self).session_for(frame_payload(frame)), frame) {
                    Some((id, p)) => if id == a {
                        Some(p)
                    } else {
                        old(self).pending_approval(a)
                    },
                    None => old(self).pending_approval(a),
                },
            forall|a: u128| #[trigger]
                final(self).pending_question(a) == match new_question(old(self).session_for(frame_payload(frame)), frame) {
                    Some((id, p)) => if id == a {
                        Some(p)
                    } else {
                        old(self).pending_question(a)
                    },
                    None => old(self).pending_question(a),
                },
    {
        match frame {
            CodexDecodedFrame::ServerNotification(notification) => self.handle_notification(notification, now),
            CodexDecodedFrame::ServerRequest(request) => self.handle_request(request),
            CodexDecodedFrame::Malformed(malformed) => {
                let raw = obj2("line", JsonValue::Str(malformed.line), "error", JsonValue::Str(malformed.error));
                self.fallback(raw, "Malformed Codex app-server frame")
            },
            CodexDecodedFrame::ClientResponse(c) => self.fallback(c.raw_payload, "Codex app-server frame"),
            CodexDecodedFrame::ClientError(c) => self.fallback(c.raw_payload, "Codex app-server frame"),
        }
    }

    /// Decides what the runtime does for a frame from Codex, stamping notifications'
    /// events with the current time (the clock decides which instant).
    pub fn handle_frame(&mut self, frame: CodexDecodedFrame) -> (r: Vec<RuntimeAction>)
        requires
            old(self).wf(),
        ensures
            final(self).wf(),
            exists|now: UtcTimestamp|
                actions_view(r@) == #[trigger] frame_actions(
                    old(self).session_for(frame_payload(frame)),
                    old(self).sole_session(),
                    frame,
                    now,
                ) && forall|s: SessionId| #[trigger]
                    final(self).active_turn(s) == if finished_turn_session(
                        old(self).session_for(frame_payload(frame)),
                        frame,
                        now,
                    ) == Some(s) {
                        None
                    } else {
                        old(self).active_turn(s)
                    },
            forall|s: SessionId| #[trigger] final(self).thread_of(s) == old(self).thread_of(s),
            forall|t: Seq<char>| #[trigger] final(self).session_of(t) == old(self).session_of(t),
            final(self).sole_session() == old(self).sole_session(),
            forall|a: u128| #[trigger]
                final(self).pending_approval(a) == match new_approval(old(self).session_for(frame_payload(frame)), frame) {
                    Some((id, p)) => if id == a {
                        Some(p)
                    } else {
                        old(self).pending_approval(a)
                    },
                    None => old(self).pending_approval(a),
                },
            forall|a: u128| #[trigger]
                final(self).pending_question(a) == match new_question(old(self).session_for(frame_payload(frame)), frame) {
                    Some((id, p)) => if id == a {
                        Some(p)
                    } else {
                        old(self).pending_question(a)
                    },
                    None => old(self).pending_question(a),
                },
    {
        let now = utc_now();
        self.handle_frame_at(frame, now)
    }
}


// ---------------------------------------------------------------------------
// Laws
// ---------------------------------------------------------------------------

/// A request that leaves an approval pending shows the user exactly that approval: the
/// one event the frame yields requests it, under the id the runtime answers it by.
pub proof fn law_emitted_approval_is_the_pending_one(
    session: Option<SessionId>,
    sole: Option<SessionId>,
    frame: CodexDecodedFrame,
    now: UtcTimestamp,
)
    requires
        new_approval(session, frame) is Some,
    ensures
        frame_actions(session, sole, frame, now).len() == 1,
        frame_actions(session, sole, frame, now)[0] matches ActionView::Emit(e) && e.event matches UniversalView::ApprovalRequested {
            approval,
        } && approval.approval_id == new_approval(session, frame).unwrap().0 && e.session_id == session,
        new_question(session, frame) is None,
{
}

/// Likewise for questions: the one event the frame yields asks the pending question.
pub proof fn law_emitted_question_is_the_pending_one(
    session: Option<SessionId>,
    sole: Option<SessionId>,
    frame: CodexDecodedFrame,
    now: UtcTimestamp,
)
    requires
        new_question(session, frame) is Some,
    ensures
        frame_actions(session, sole, frame, now).len() == 1,
        frame_actions(session, sole, frame, now)[0] matches ActionView::Emit(e) && e.event matches UniversalView::QuestionRequested {
            question,
        } && question.question_id == new_question(session, frame).unwrap().0 && e.session_id == session,
        new_approval(session, frame) is None,
{
}

/// A request the runtime cannot place in a session is answered, never dropped: the
/// frame's only action is an error reply to Codex carrying the request's id.
pub proof fn law_unplaced_requests_are_refused(sole: Option<SessionId>, request: CodexServerRequestFrame, now: UtcTimestamp)
    ensures
        frame_actions(None, sole, CodexDecodedFrame::ServerRequest(request), now) == seq![
            ActionView::Respond(
                error_envelope(
                    request_id_json(request.request_id@),
                    -32601i64,
                    "Agenter could not map Codex request to a session."@,
                    None,
                ),
            ),
        ],
{
}

} // verus!
