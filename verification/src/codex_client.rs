//! The runner's side of a Codex app-server connection, without the I/O: request ids,
//! the thread and turn observed, messages that arrived while a response was awaited,
//! and the tail of Codex's stderr.
use vstd::prelude::*;
use crate::json::{Json, JsonValue, values_view, obj3, jstr};
use crate::codex_rpc::{CodexRequestId, CodexRequestIdView, request_id_value, is_response_to,
    codex_rpc_is_response_matching_request, codex_thread_id, codex_turn_id, codex_thread_id_of,
    message_turn_id_of, error_summary, codex_jsonrpc_error_summary, with_stderr,
    startup_error_with_stderr, recent_stderr_text, recent_stderr_label};
use crate::events::opt_s;
use crate::model::SessionId;
use crate::text::{owned, concat3, strings_view};

verus! {

/// How many stderr lines are kept.
pub const RECENT_STDERR_LINES: usize = 20;

/// The state of a Codex connection.
pub struct CodexClientState {
    pub next_id: i64,
    pub thread_id: Option<String>,
    pub turn_id: Option<String>,
    pub active_session_id: Option<SessionId>,
    pub initialized: bool,
    /// Messages read while a response was awaited, oldest first.
    pub interleaved: Vec<JsonValue>,
    /// The last stderr lines, oldest first.
    pub stderr_tail: Vec<String>,
}

pub struct ClientView {
    pub next_id: i64,
    pub thread_id: Option<Seq<char>>,
    pub turn_id: Option<Seq<char>>,
    pub active_session_id: Option<SessionId>,
    pub initialized: bool,
    pub interleaved: Seq<Json>,
    pub stderr_tail: Seq<Seq<char>>,
}

impl View for CodexClientState {
    type V = ClientView;

    open spec fn view(&self) -> ClientView {
        ClientView {
            next_id: self.next_id,
            thread_id: opt_s(self.thread_id),
            turn_id: opt_s(self.turn_id),
            active_session_id: self.active_session_id,
            initialized: self.initialized,
            interleaved: values_view(self.interleaved@),
            stderr_tail: strings_view(self.stderr_tail@),
        }
    }
}

/// The ids a message reports replace the ones known; ids it does not report stay.
pub open spec fn after_observing(s: ClientView, m: Json) -> ClientView {
    ClientView {
        thread_id: match codex_thread_id_of(m) {
            Some(t) => Some(t),
            None => s.thread_id,
        },
        turn_id: match message_turn_id_of(m) {
            Some(t) => Some(t),
            None => s.turn_id,
        },
        ..s
    }
}

/// The request message `{"id", "method", "params"}`.
pub open spec fn request_message(id: CodexRequestIdView, method: Seq<char>, params: Json) -> Json {
    Json::Object(seq![("id"@, request_id_value(id)), ("method"@, Json::Str(method)), ("params"@, params)])
}

/// Whether `i` is the first position in `q` holding the response to `p`.
pub open spec fn first_response_at(q: Seq<Json>, p: CodexRequestIdView, i: int) -> bool {
    &&& 0 <= i < q.len()
    &&& is_response_to(q[i], p)
    &&& forall|j: int| 0 <= j < i ==> !is_response_to(#[trigger] q[j], p)
}

/// The stderr tail after a new line: the line at the end, the oldest dropped when the
/// tail was full.
pub open spec fn tail_after(tail: Seq<Seq<char>>, line: Seq<char>) -> Seq<Seq<char>> {
    if tail.len() >= RECENT_STDERR_LINES {
        tail.drop_first().push(line)
    } else {
        tail.push(line)
    }
}

fn own_opt_str(o: Option<&str>) -> (r: Option<String>)
    ensures
        opt_s(r) == crate::json::opt_str(o),
{
    match o {
        Some(s) => Some(owned(s)),
        None => None,
    }
}

impl CodexClientState {
    pub open spec fn wf(&self) -> bool {
        self.stderr_tail@.len() <= RECENT_STDERR_LINES
    }

    /// A fresh connection: request ids start at 1, nothing observed or buffered.
    pub fn new() -> (r: Self)
        ensures
            r.wf(),
            r@.next_id == 1,
            r@.thread_id is None,
            r@.turn_id is None,
            r@.active_session_id is None,
            !r@.initialized,
            r@.interleaved.len() == 0,
            r@.stderr_tail.len() == 0,
    {
        let r = CodexClientState {
            next_id: 1,
            thread_id: None,
            turn_id: None,
            active_session_id: None,
            initialized: false,
            interleaved: Vec::new(),
            stderr_tail: Vec::new(),
        };
        proof {
            assert(values_view(r.interleaved@).len() == 0);
            assert(strings_view(r.stderr_tail@).len() == 0);
        }
        r
    }

    /// The next request: it takes the next id, which then moves on by one.
    pub fn next_request(&mut self, method: &str, params: JsonValue) -> (r: (CodexRequestId, JsonValue))
        requires
            old(self).next_id < i64::MAX,
        ensures
            r.0@ == CodexRequestIdView::Integer(old(self)@.next_id),
            r.1@ == request_message(r.0@, method@, params@),
            final(self)@ == (ClientView { next_id: (old(self)@.next_id + 1) as i64, ..old(self)@ }),
            final(self).wf() == old(self).wf(),
    {
        let id = CodexRequestId::numeric(self.next_id);
        self.next_id = self.next_id + 1;
        let msg = obj3("id", id.as_value(), "method", jstr(method), "params", params);
        (id, msg)
    }

    /// Records the thread and turn ids a message reports.
    pub fn observe(&mut self, m: &JsonValue)
        ensures
            final(self)@ == after_observing(old(self)@, m@),
            final(self).wf() == old(self).wf(),
    {
        match codex_thread_id(m) {
            Some(t) => {
                self.thread_id = Some(owned(t));
            },
            None => {},
        }
        match codex_turn_id(m) {
            Some(t) => {
                self.turn_id = Some(owned(t));
            },
            None => {},
        }
    }

    /// Makes `thread_id` the active thread, with no turn yet.
    pub fn set_active_thread(&mut self, thread_id: String)
        ensures
            final(self)@ == (ClientView { thread_id: Some(thread_id@), turn_id: None, ..old(self)@ }),
            final(self).wf() == old(self).wf(),
    {
        self.thread_id = Some(thread_id);
        self.turn_id = None;
    }

    /// Takes the first buffered response to `pending` out of the buffer, observing it.
    pub fn take_buffered_response(&mut self, pending: &CodexRequestId) -> (r: Option<JsonValue>)
        ensures
            final(self).wf() == old(self).wf(),
            match r {
                Some(v) => exists|i: int|
                    first_response_at(old(self)@.interleaved, pending@, i) && v@ == old(self)@.interleaved[i]
                        && final(self)@ == after_observing(
                        ClientView { interleaved: old(self)@.interleaved.remove(i), ..old(self)@ },
                        v@,
                    ),
                None => (forall|i: int|
                    0 <= i < old(self)@.interleaved.len() ==> !is_response_to(
                        #[trigger] old(self)@.interleaved[i],
                        pending@,
                    )) && final(self)@ == old(self)@,
            },
    {
        let mut i: usize = 0;
        while i < self.interleaved.len()
            invariant
                i <= self.interleaved.len(),
                self@ == old(self)@,
                self.wf() == old(self).wf(),
                forall|j: int| 0 <= j < i ==> !is_response_to(#[trigger] self@.interleaved[j], pending@),
            decreases self.interleaved.len() - i,
        {
            proof {
                assert(self@.interleaved[i as int] == self.interleaved@[i as int]@);
            }
            if codex_rpc_is_response_matching_request(&self.interleaved[i], pending) {
                let ghost before = self@;
                let matched = self.interleaved.remove(i);
                proof {
                    assert(values_view(self.interleaved@) =~= before.interleaved.remove(i as int));
                    assert(first_response_at(before.interleaved, pending@, i as int));
                }
                self.observe(&matched);
                return Some(matched);
            }
            i = i + 1;
        }
        None
    }

    /// A message read while the response to `pending` is awaited: observed, then
    /// handed back when it is that response, else buffered behind the others.
    pub fn receive_while_waiting(&mut self, m: JsonValue, pending: &CodexRequestId) -> (r: Option<JsonValue>)
        ensures
            final(self).wf() == old(self).wf(),
            is_response_to(m@, pending@) ==> (r matches Some(v) && v@ == m@ && final(self)@ == after_observing(
                old(self)@,
                m@,
            )),
            !is_response_to(m@, pending@) ==> r is None && final(self)@ == (ClientView {
                interleaved: old(self)@.interleaved.push(m@),
                ..after_observing(old(self)@, m@)
            }),
    {
        self.observe(&m);
        if codex_rpc_is_response_matching_request(&m, pending) {
            Some(m)
        } else {
            let ghost before = self@;
            self.interleaved.push(m);
            proof {
                assert(values_view(self.interleaved@) =~= before.interleaved.push(
                    self.interleaved@.last()@,
                ));
            }
            None
        }
    }

    /// The oldest buffered message, taken out of the buffer.
    pub fn next_buffered(&mut self) -> (r: Option<JsonValue>)
        ensures
            final(self).wf() == old(self).wf(),
            old(self)@.interleaved.len() == 0 ==> r is None && final(self)@ == old(self)@,
            old(self)@.interleaved.len() > 0 ==> (r matches Some(v) && v@ == old(self)@.interleaved[0]
                && final(self)@ == (ClientView {
                interleaved: old(self)@.interleaved.drop_first(),
                ..old(self)@
            })),
    {
        if self.interleaved.len() == 0 {
            None
        } else {
            let ghost before = self@;
            let v = self.interleaved.remove(0);
            proof {
                assert(values_view(self.interleaved@) =~= before.interleaved.drop_first());
            }
            Some(v)
        }
    }

    /// Keeps a stderr line, dropping the oldest when the tail is full.
    pub fn record_stderr_line(&mut self, line: String)
        requires
            old(self).wf(),
        ensures
            final(self).wf(),
            final(self)@ == (ClientView {
                stderr_tail: tail_after(old(self)@.stderr_tail, line@),
                ..old(self)@
            }),
    {
        let ghost before = self@;
        if self.stderr_tail.len() >= RECENT_STDERR_LINES {
            self.stderr_tail.remove(0);
        }
        let ghost mid = self.stderr_tail@;
        self.stderr_tail.push(line);
        proof {
            if before.stderr_tail.len() >= RECENT_STDERR_LINES {
                assert(strings_view(self.stderr_tail@) =~= before.stderr_tail.drop_first().push(line@));
            } else {
                assert(strings_view(self.stderr_tail@) =~= before.stderr_tail.push(line@));
            }
        }
    }
}

/// What a request yields: the error when Codex is gone or answered with an error, the
/// response otherwise; errors carry the last stderr line.
pub open spec fn response_outcome(
    method: Seq<char>,
    message: Option<Json>,
    stderr: Seq<Seq<char>>,
) -> Result<Json, Seq<char>> {
    match message {
        None => Err(with_stderr("codex exited before "@ + method + " response"@, stderr)),
        Some(m) => match error_summary(method, m) {
            Some(summary) => Err(with_stderr(summary, stderr)),
            None => Ok(m),
        },
    }
}

pub open spec fn result_view(r: Result<JsonValue, String>) -> Result<Json, Seq<char>> {
    match r {
        Ok(v) => Ok(v@),
        Err(e) => Err(e@),
    }
}

/// What a request yields, given the response read for it (`None`: Codex closed its
/// output first).
pub fn response_result(method: &str, message: Option<JsonValue>, stderr: &Vec<String>) -> (r: Result<
    JsonValue,
    String,
>)
    ensures
        result_view(r) == response_outcome(
            method@,
            match message {
                Some(m) => Some(m@),
                None => None,
            },
            strings_view(stderr@),
        ),
{
    match message {
        None => Err(startup_error_with_stderr(concat3("codex exited before ", method, " response"), stderr)),
        Some(m) => match codex_jsonrpc_error_summary(method, &m) {
            Some(summary) => Err(startup_error_with_stderr(summary, stderr)),
            None => Ok(m),
        },
    }
}

/// The error when no response came in time.
pub fn timeout_error(method: &str, stderr: &Vec<String>) -> (r: String)
    ensures
        r@ == with_stderr("timed out waiting for codex "@ + method@ + " response"@, strings_view(stderr@)),
{
    startup_error_with_stderr(concat3("timed out waiting for codex ", method, " response"), stderr)
}

/// The error when a thread start or resume response names no thread: the last stderr
/// line when there is one, else the preview of the response (when logging allows one).
pub open spec fn missing_thread_id_text(
    method: Seq<char>,
    stderr: Seq<Seq<char>>,
    preview: Option<Seq<char>>,
) -> Seq<char> {
    let head = "codex "@ + method + " response did not include a thread id"@;
    let label = recent_stderr_text(stderr);
    if label.len() != 0 {
        head + "; "@ + label
    } else {
        match preview {
            Some(p) => head + "; response preview: "@ + p,
            None => head,
        }
    }
}

/// The error when a thread start or resume response names no thread.
pub fn missing_thread_id_error(method: &str, stderr: &Vec<String>, preview: Option<String>) -> (r: String)
    ensures
        r@ == missing_thread_id_text(method@, strings_view(stderr@), opt_s(preview)),
{
    let mut error = concat3("codex ", method, " response did not include a thread id");
    let label = recent_stderr_label(stderr);
    if label.as_str().unicode_len() != 0 {
        error.append("; ");
        error.append(label.as_str());
    } else {
        match preview {
            Some(p) => {
                error.append("; response preview: ");
                error.append(p.as_str());
            },
            None => {},
        }
    }
    error
}

/// Request ids never repeat: a second request made after a first carries a different
/// id.
pub proof fn law_request_ids_are_fresh(s: ClientView, method1: Seq<char>, method2: Seq<char>)
    requires
        s.next_id < i64::MAX - 1,
    ensures
        ({
            let first = CodexRequestIdView::Integer(s.next_id);
            let second = CodexRequestIdView::Integer((s.next_id + 1) as i64);
            first != second
        }),
{
}

} // verus!
