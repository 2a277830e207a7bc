//! The decisions of the ACP runtime: the requests it sends, what each message of a
//! prompt turn calls for, how it answers the agent's file and terminal requests, and
//! the sessions an agent lists. The runtime performs the I/O; this module decides.
use vstd::prelude::*;
use crate::json::{Json, JsonValue, json_get, json_path, json_as_array, first_str, values_view, paths_view,
    path_view, opt_str, get, at, as_array, json_clone, first_str_at, obj1, obj2, obj3, jstr, entries_view,
    lemma_object_view};
use crate::acp::{AcpWorkspaceFileService, contained_path_of, string_result};
use crate::acp_events::{acp_prompt_response_of, events_view, is_response_to, is_response_to_spec,
    normalize_acp_message, normalize_acp_message_of, normalize_acp_prompt_response};
use crate::codex::{jsonrpc_method, jsonrpc_method_spec, text_or};
use crate::codex_history::{DiscoveredSessionHistoryItem};
use crate::events::{CommandCompletedEvent, CommandEvent, CommandOutputEvent, EventView, FileChangeEvent,
    NormalizedEvent, SessionStatusChangedEvent, opt_s};
use crate::model::{CommandOutputStream, FileChangeKind, SessionId, SessionStatus};
use crate::outside::{new_v4, uuid_text, uuid_to_text};
use crate::text::{owned, str_eq, concat2};

verus! {

// ---------------------------------------------------------------------------
// Requests to the agent
// ---------------------------------------------------------------------------

/// The parameters of `session/new`: the workspace, and no MCP servers.
pub open spec fn new_session_params_of(workspace: Seq<char>) -> Json {
    Json::Object(seq![("cwd"@, Json::Str(workspace)), ("mcpServers"@, Json::Array(Seq::empty()))])
}

/// The parameters of `session/load`: the workspace and the agent's session id.
pub open spec fn load_session_params_of(workspace: Seq<char>, provider_session_id: Seq<char>) -> Json {
    Json::Object(seq![("cwd"@, Json::Str(workspace)), ("sessionId"@, Json::Str(provider_session_id))])
}

/// The parameters of `session/prompt`: one text block, in the agent's session.
pub open spec fn prompt_params_of(provider_session_id: Seq<char>, prompt: Seq<char>) -> Json {
    Json::Object(
        seq![
            ("prompt"@, Json::Array(seq![Json::Object(seq![("text"@, Json::Str(prompt)), ("type"@, Json::Str("text"@))])])),
            ("sessionId"@, Json::Str(provider_session_id)),
        ],
    )
}

/// The parameters of `session/list`: the workspace, from the first page.
pub open spec fn list_sessions_params_of(workspace: Seq<char>) -> Json {
    Json::Object(seq![("cwd"@, Json::Str(workspace)), ("cursor"@, Json::Null)])
}

pub fn new_session_params(workspace: &str) -> (r: JsonValue)
    ensures
        r@ == new_session_params_of(workspace@),
{
    let servers = JsonValue::Array(Vec::new());
    proof {
        assert(servers@->Array_0 =~= Seq::<Json>::empty());
    }
    obj2("cwd", jstr(workspace), "mcpServers", servers)
}

pub fn load_session_params(workspace: &str, provider_session_id: &str) -> (r: JsonValue)
    ensures
        r@ == load_session_params_of(workspace@, provider_session_id@),
{
    obj2("cwd", jstr(workspace), "sessionId", jstr(provider_session_id))
}

pub fn prompt_params(provider_session_id: &str, prompt: &str) -> (r: JsonValue)
    ensures
        r@ == prompt_params_of(provider_session_id@, prompt@),
{
    let block = obj2("text", jstr(prompt), "type", jstr("text"));
    let ghost bv = block@;
    let mut blocks: Vec<JsonValue> = Vec::new();
    blocks.push(block);
    let array = JsonValue::Array(blocks);
    proof {
        assert(array@->Array_0 =~= seq![bv]);
    }
    let r = obj2("prompt", array, "sessionId", jstr(provider_session_id));
    proof {
        assert(r@->Object_0 =~= prompt_params_of(provider_session_id@, prompt@)->Object_0);
    }
    r
}

pub fn list_sessions_params(workspace: &str) -> (r: JsonValue)
    ensures
        r@ == list_sessions_params_of(workspace@),
{
    obj2("cwd", jstr(workspace), "cursor", JsonValue::Null)
}

/// A JSON-RPC request to the agent.
pub open spec fn acp_request_of(id: u64, method: Seq<char>, params: Json) -> Json {
    Json::Object(
        seq![
            ("id"@, Json::UInt(id)),
            ("jsonrpc"@, Json::Str("2.0"@)),
            ("method"@, Json::Str(method)),
            ("params"@, params),
        ],
    )
}

/// A JSON-RPC result answering the agent's request `id`.
pub open spec fn acp_result_of(id: Json, result: Json) -> Json {
    Json::Object(seq![("id"@, id), ("jsonrpc"@, Json::Str("2.0"@)), ("result"@, result)])
}

/// The parameters of `initialize`: protocol version 1, the runner's name and
/// `version`, and the file and terminal services it offers.
pub open spec fn initialize_params_of(version: Seq<char>) -> Json {
    Json::Object(
        seq![
            (
                "clientCapabilities"@,
                Json::Object(
                    seq![
                        (
                            "fs"@,
                            Json::Object(seq![("readTextFile"@, Json::Bool(true)), ("writeTextFile"@, Json::Bool(true))]),
                        ),
                        ("terminal"@, Json::Bool(true)),
                    ],
                ),
            ),
            (
                "clientInfo"@,
                Json::Object(
                    seq![
                        ("name"@, Json::Str("agenter-runner"@)),
                        ("title"@, Json::Str("Agenter Runner"@)),
                        ("version"@, Json::Str(version)),
                    ],
                ),
            ),
            ("protocolVersion"@, Json::Int(1)),
        ],
    )
}

pub fn acp_request(id: u64, method: &str, params: JsonValue) -> (r: JsonValue)
    ensures
        r@ == acp_request_of(id, method@, params@),
{
    let mut e: Vec<(String, JsonValue)> = Vec::new();
    e.push((owned("id"), JsonValue::UInt(id)));
    e.push((owned("jsonrpc"), jstr("2.0")));
    e.push((owned("method"), jstr(method)));
    let ghost pv = params@;
    e.push((owned("params"), params));
    proof {
        assert(entries_view(e@) =~= acp_request_of(id, method@, pv)->Object_0);
        lemma_object_view(e);
    }
    JsonValue::Object(e)
}

pub fn acp_result(id: JsonValue, result: JsonValue) -> (r: JsonValue)
    ensures
        r@ == acp_result_of(id@, result@),
{
    obj3("id", id, "jsonrpc", jstr("2.0"), "result", result)
}

pub fn initialize_params(version: &str) -> (r: JsonValue)
    ensures
        r@ == initialize_params_of(version@),
{
    let fs = obj2("readTextFile", JsonValue::Bool(true), "writeTextFile", JsonValue::Bool(true));
    let caps = obj2("fs", fs, "terminal", JsonValue::Bool(true));
    let info = obj3("name", jstr("agenter-runner"), "title", jstr("Agenter Runner"), "version", jstr(version));
    obj3("clientCapabilities", caps, "clientInfo", info, "protocolVersion", JsonValue::Int(1))
}

// ---------------------------------------------------------------------------
// Prompt turns
// ---------------------------------------------------------------------------

/// What the agent asks of the runner while a prompt runs.
#[derive(Clone, Copy, Debug, PartialEq, Eq, Structural)]
pub enum AcpClientRequestKind {
    Permission,
    ReadTextFile,
    WriteTextFile,
    TerminalCreate,
    TerminalOutput,
    TerminalWaitForExit,
    TerminalKill,
    TerminalRelease,
    Other,
}

/// The kind of an agent request, by its method.
pub open spec fn acp_client_request_kind_of(method: Option<Seq<char>>) -> AcpClientRequestKind {
    let m = text_or(method, ""@);
    if m == "session/request_permission"@ {
        AcpClientRequestKind::Permission
    } else if m == "fs/read_text_file"@ {
        AcpClientRequestKind::ReadTextFile
    } else if m == "fs/write_text_file"@ {
        AcpClientRequestKind::WriteTextFile
    } else if m == "terminal/create"@ {
        AcpClientRequestKind::TerminalCreate
    } else if m == "terminal/output"@ {
        AcpClientRequestKind::TerminalOutput
    } else if m == "terminal/wait_for_exit"@ {
        AcpClientRequestKind::TerminalWaitForExit
    } else if m == "terminal/kill"@ {
        AcpClientRequestKind::TerminalKill
    } else if m == "terminal/release"@ {
        AcpClientRequestKind::TerminalRelease
    } else {
        AcpClientRequestKind::Other
    }
}

/// The kind of the request an agent message makes.
pub fn acp_client_request_kind(message: &JsonValue) -> (r: AcpClientRequestKind)
    ensures
        r == acp_client_request_kind_of(jsonrpc_method_spec(message@)),
{
    let m = match jsonrpc_method(message) {
        Some(m) => m,
        None => "",
    };
    proof {
        reveal_strlit("");
    }
    if str_eq(m, "session/request_permission") {
        AcpClientRequestKind::Permission
    } else if str_eq(m, "fs/read_text_file") {
        AcpClientRequestKind::ReadTextFile
    } else if str_eq(m, "fs/write_text_file") {
        AcpClientRequestKind::WriteTextFile
    } else if str_eq(m, "terminal/create") {
        AcpClientRequestKind::TerminalCreate
    } else if str_eq(m, "terminal/output") {
        AcpClientRequestKind::TerminalOutput
    } else if str_eq(m, "terminal/wait_for_exit") {
        AcpClientRequestKind::TerminalWaitForExit
    } else if str_eq(m, "terminal/kill") {
        AcpClientRequestKind::TerminalKill
    } else if str_eq(m, "terminal/release") {
        AcpClientRequestKind::TerminalRelease
    } else {
        AcpClientRequestKind::Other
    }
}

/// What one message of a prompt turn calls for.
#[derive(Debug, PartialEq)]
pub enum AcpTurnStep {
    /// The prompt was answered: emit the events; the turn is over.
    Completed(Vec<NormalizedEvent>),
    /// The agent asks the runner something: answer the request with this id.
    ClientRequest { id: JsonValue, kind: AcpClientRequestKind },
    /// Emit the events and read on.
    Events(Vec<NormalizedEvent>),
}

pub enum StepView {
    Completed(Seq<EventView>),
    ClientRequest { id: Json, kind: AcpClientRequestKind },
    Events(Seq<EventView>),
}

impl View for AcpTurnStep {
    type V = StepView;

    open spec fn view(&self) -> StepView {
        match self {
            AcpTurnStep::Completed(e) => StepView::Completed(events_view(e@)),
            AcpTurnStep::ClientRequest { id, kind } => StepView::ClientRequest { id: id@, kind: *kind },
            AcpTurnStep::Events(e) => StepView::Events(events_view(e@)),
        }
    }
}

/// A session's status with a reason.
pub open spec fn status_of(sid: SessionId, status: SessionStatus, reason: Seq<char>) -> EventView {
    EventView::SessionStatusChanged { session_id: sid, status, reason: Some(reason) }
}

/// What a message of a prompt turn calls for: the response to the prompt completes
/// the message and leaves the session idle (`{title} prompt completed.`); any other
/// message with an id is a request of the agent; anything else is normalized.
pub open spec fn acp_turn_step_of(sid: SessionId, provider: Seq<char>, title: Seq<char>, prompt_id: Json, m: Json) -> StepView {
    if is_response_to_spec(m, prompt_id) {
        StepView::Completed(
            seq![acp_prompt_response_of(sid, m), status_of(sid, SessionStatus::Idle, title + " prompt completed."@)],
        )
    } else {
        match json_get(m, "id"@) {
            Some(id) => StepView::ClientRequest { id, kind: acp_client_request_kind_of(jsonrpc_method_spec(m)) },
            None => StepView::Events(normalize_acp_message_of(sid, provider, m)),
        }
    }
}

fn status_event(sid: SessionId, status: SessionStatus, reason: String) -> (r: NormalizedEvent)
    ensures
        r@ == status_of(sid, status, reason@),
{
    NormalizedEvent::SessionStatusChanged(SessionStatusChangedEvent { session_id: sid, status, reason: Some(reason) })
}

/// Decides what a message of a prompt turn calls for (see `acp_turn_step_of`).
pub fn acp_turn_step(
    session_id: SessionId,
    provider_id: &str,
    title: &str,
    prompt_request_id: &JsonValue,
    message: &JsonValue,
) -> (r: AcpTurnStep)
    ensures
        r@ == acp_turn_step_of(session_id, provider_id@, title@, prompt_request_id@, message@),
{
    if is_response_to(message, prompt_request_id) {
        let done = normalize_acp_prompt_response(session_id, message);
        let idle = status_event(session_id, SessionStatus::Idle, concat2(title, " prompt completed."));
        let ghost dv = done@;
        let ghost iv = idle@;
        let mut events: Vec<NormalizedEvent> = Vec::new();
        events.push(done);
        events.push(idle);
        proof {
            assert(events_view(events@) =~= seq![dv, iv]);
        }
        return AcpTurnStep::Completed(events);
    }
    match get(message, "id") {
        Some(id) => AcpTurnStep::ClientRequest { id: json_clone(id), kind: acp_client_request_kind(message) },
        None => AcpTurnStep::Events(normalize_acp_message(session_id, provider_id, message)),
    }
}

/// The status while the agent waits on the user's approval.
pub fn acp_waiting_for_approval(session_id: SessionId) -> (r: NormalizedEvent)
    ensures
        r@ == status_of(session_id, SessionStatus::WaitingForApproval, "ACP provider is waiting for approval."@),
{
    status_event(session_id, SessionStatus::WaitingForApproval, owned("ACP provider is waiting for approval."))
}

/// The status once the user answered the approval.
pub fn acp_approval_answered(session_id: SessionId) -> (r: NormalizedEvent)
    ensures
        r@ == status_of(session_id, SessionStatus::Running, "Approval answered."@),
{
    status_event(session_id, SessionStatus::Running, owned("Approval answered."))
}

// ---------------------------------------------------------------------------
// Files
// ---------------------------------------------------------------------------

pub open spec fn file_path_paths() -> Seq<Seq<Seq<char>>> {
    seq![seq!["params"@, "path"@], seq!["params"@, "filePath"@]]
}

pub open spec fn file_content_paths() -> Seq<Seq<Seq<char>>> {
    seq![seq!["params"@, "content"@], seq!["params"@, "text"@]]
}

/// The file an `fs/read_text_file` request reads: its path, when given and inside the
/// workspace.
pub open spec fn read_target_of(workspace: Seq<char>, m: Json) -> Result<Seq<char>, Seq<char>> {
    match first_str(m, file_path_paths()) {
        Some(p) => contained_path_of(workspace, p),
        None => Err("ACP fs/read_text_file missing path"@),
    }
}

/// The file an `fs/write_text_file` request writes and the text it writes (none when
/// it gives none).
pub open spec fn write_target_of(workspace: Seq<char>, m: Json) -> Result<(Seq<char>, Seq<char>), Seq<char>> {
    match first_str(m, file_path_paths()) {
        Some(p) => match contained_path_of(workspace, p) {
            Ok(path) => Ok((path, text_or(first_str(m, file_content_paths()), ""@))),
            Err(e) => Err(e),
        },
        None => Err("ACP fs/write_text_file missing path"@),
    }
}

fn file_path_at(m: &JsonValue) -> (r: Option<&str>)
    ensures
        opt_str(r) == first_str(m@, file_path_paths()),
{
    let paths: [&[&str]; 2] = [&["params", "path"], &["params", "filePath"]];
    let r = first_str_at(m, &paths);
    proof {
        assert(paths_view(paths@) =~~= file_path_paths());
    }
    r
}

impl AcpWorkspaceFileService {
    /// The file an `fs/read_text_file` request reads (see `read_target_of`).
    pub fn read_target(&self, message: &JsonValue) -> (r: Result<String, String>)
        ensures
            string_result(r) == read_target_of(self.workspace_path@, message@),
    {
        match file_path_at(message) {
            Some(p) => self.contained_path(p),
            None => Err(owned("ACP fs/read_text_file missing path")),
        }
    }

    /// The file an `fs/write_text_file` request writes and its text (see
    /// `write_target_of`).
    pub fn write_target(&self, message: &JsonValue) -> (r: Result<(String, String), String>)
        ensures
            match r {
                Ok((path, text)) => write_target_of(self.workspace_path@, message@) == Ok::<
                    (Seq<char>, Seq<char>),
                    Seq<char>,
                >((path@, text@)),
                Err(e) => write_target_of(self.workspace_path@, message@) == Err::<(Seq<char>, Seq<char>), Seq<char>>(
                    e@,
                ),
            },
    {
        let raw = match file_path_at(message) {
            Some(p) => p,
            None => return Err(owned("ACP fs/write_text_file missing path")),
        };
        let path = match self.contained_path(raw) {
            Ok(p) => p,
            Err(e) => return Err(e),
        };
        let paths: [&[&str]; 2] = [&["params", "content"], &["params", "text"]];
        proof {
            assert(paths_view(paths@) =~~= file_content_paths());
            reveal_strlit("");
        }
        let text = match first_str_at(message, &paths) {
            Some(t) => owned(t),
            None => owned(""),
        };
        Ok((path, text))
    }
}

/// The reply to an `fs/read_text_file` request.
pub fn read_text_file_response(content: &str) -> (r: JsonValue)
    ensures
        r@ == Json::Object(seq![("content"@, Json::Str(content@))]),
{
    obj1("content", jstr(content))
}

/// The event for a file the agent wrote, by the path it gave.
pub fn file_written_event(session_id: SessionId, path: &str, message: &JsonValue) -> (r: NormalizedEvent)
    ensures
        r@ == (EventView::FileChangeApplied {
            session_id,
            path: path@,
            change_kind: FileChangeKind::Modify,
            diff: None,
            provider_payload: Some(message@),
        }),
{
    NormalizedEvent::FileChangeApplied(
        FileChangeEvent {
            session_id,
            path: owned(path),
            change_kind: FileChangeKind::Modify,
            diff: None,
            provider_payload: Some(json_clone(message)),
        },
    )
}

// ---------------------------------------------------------------------------
// Terminals
// ---------------------------------------------------------------------------

/// What the runtime knows of a terminal it runs for the agent.
#[derive(Debug)]
pub struct AcpTerminalState {
    pub output: String,
    pub exit_code: Option<i32>,
}

pub struct TerminalView {
    pub output: Seq<char>,
    pub exit_code: Option<i32>,
}

/// The terminals the runtime runs for an agent, by terminal id.
#[derive(Debug)]
pub struct AcpTerminals {
    terminals: Vec<(String, AcpTerminalState)>,
}

pub open spec fn terminals_view(v: Seq<(String, AcpTerminalState)>) -> Seq<(Seq<char>, TerminalView)> {
    v.map_values(|e: (String, AcpTerminalState)| (e.0@, TerminalView { output: e.1.output@, exit_code: e.1.exit_code }))
}

pub open spec fn terminal_command_paths() -> Seq<Seq<Seq<char>>> {
    seq![seq!["params"@, "command"@], seq!["params"@, "cmd"@]]
}

pub open spec fn terminal_id_paths() -> Seq<Seq<Seq<char>>> {
    seq![seq!["params"@, "terminalId"@]]
}

/// The terminal id of a terminal the runtime starts.
pub open spec fn terminal_id_of(uuid: u128) -> Seq<char> {
    "acp-terminal-"@ + uuid_text(uuid)
}

/// The event for a terminal command the agent started.
pub open spec fn terminal_started_of(sid: SessionId, terminal_id: Seq<char>, command: Seq<char>, workspace: Seq<char>, m: Json) -> EventView {
    EventView::CommandStarted {
        session_id: sid,
        command_id: terminal_id,
        command,
        cwd: Some(workspace),
        source: Some("acp"@),
        process_id: None,
        provider_payload: Some(m),
    }
}

/// The events of a finished terminal command: its output when there is any, then its
/// completion (with its run time when the terminal was still tracked).
pub open spec fn terminal_finished_of(
    sid: SessionId,
    terminal_id: Seq<char>,
    output: Seq<char>,
    exit_code: i32,
    duration_ms: Option<u64>,
) -> Seq<EventView> {
    let done = EventView::CommandCompleted {
        session_id: sid,
        command_id: terminal_id,
        exit_code: Some(exit_code),
        duration_ms,
        success: exit_code == 0,
        provider_payload: None,
    };
    if output.len() > 0 {
        seq![
            EventView::CommandOutputDelta {
                session_id: sid,
                command_id: terminal_id,
                stream: CommandOutputStream::Stdout,
                delta: output,
                provider_payload: None,
            },
            done,
        ]
    } else {
        seq![done]
    }
}

/// The reply to `terminal/output`: what the terminal printed and how it exited; an
/// unknown terminal printed nothing and exited with 1.
pub open spec fn terminal_output_of(t: Option<TerminalView>) -> Json {
    match t {
        Some(s) => Json::Object(
            seq![
                (
                    "exitStatus"@,
                    match s.exit_code {
                        Some(c) => Json::Object(seq![("exitCode"@, Json::Int(c as i64))]),
                        None => Json::Null,
                    },
                ),
                ("output"@, Json::Str(s.output)),
                ("truncated"@, Json::Bool(false)),
            ],
        ),
        None => Json::Object(
            seq![
                ("exitStatus"@, Json::Object(seq![("exitCode"@, Json::Int(1))])),
                ("output"@, Json::Str(""@)),
                ("truncated"@, Json::Bool(false)),
            ],
        ),
    }
}

fn terminal_id_at(m: &JsonValue) -> (r: Option<&str>)
    ensures
        opt_str(r) == first_str(m@, terminal_id_paths()),
{
    let paths: [&[&str]; 1] = [&["params", "terminalId"]];
    let r = first_str_at(m, &paths);
    proof {
        assert(paths_view(paths@) =~~= terminal_id_paths());
    }
    r
}

/// `{"exitCode": code}`.
pub fn exit_code_response(exit_code: i32) -> (r: JsonValue)
    ensures
        r@ == Json::Object(seq![("exitCode"@, Json::Int(exit_code as i64))]),
{
    obj1("exitCode", JsonValue::Int(exit_code as i64))
}

impl AcpTerminals {
    /// The state of a terminal, by id (the last entry for it).
    pub closed spec fn terminal(&self, id: Seq<char>) -> Option<TerminalView> {
        crate::adapter::assoc_get(terminals_view(self.terminals@), id)
    }

    /// No terminals.
    pub fn new() -> (r: Self)
        ensures
            forall|id: Seq<char>| #[trigger] r.terminal(id) is None,
    {
        AcpTerminals { terminals: Vec::new() }
    }

    fn lookup(&self, id: &str) -> (r: Option<usize>)
        ensures
            match r {
                Some(i) => i < self.terminals@.len() && self.terminal(id@) == Some(
                    TerminalView { output: self.terminals@[i as int].1.output@, exit_code: self.terminals@[i as int].1.exit_code },
                ) && self.terminals@[i as int].0@ == id@,
                None => self.terminal(id@) is None,
            },
    {
        let ghost tv = terminals_view(self.terminals@);
        let mut i = self.terminals.len();
        proof {
            assert(tv.subrange(0, tv.len() as int) =~= tv);
        }
        while i > 0
            invariant
                i <= self.terminals.len(),
                tv == terminals_view(self.terminals@),
                crate::adapter::assoc_get(tv, id@) == crate::adapter::assoc_get(tv.subrange(0, i as int), id@),
            decreases i,
        {
            proof {
                assert(tv.subrange(0, i as int).drop_last() =~= tv.subrange(0, i - 1));
                assert(tv.subrange(0, i as int).last() == tv[i - 1]);
            }
            if str_eq(self.terminals[i - 1].0.as_str(), id) {
                return Some(i - 1);
            }
            i = i - 1;
        }
        proof {
            assert(tv.subrange(0, 0) =~= Seq::<(Seq<char>, TerminalView)>::empty());
        }
        None
    }

    /// Starts tracking a terminal for a `terminal/create` request: a fresh terminal id,
    /// the command it runs, and the event that it started; an error when the request
    /// names no command.
    pub fn create(&mut self, session_id: SessionId, workspace: &str, message: &JsonValue) -> (r: Result<
        (String, String, NormalizedEvent),
        String,
    >)
        ensures
            match first_str(message@, terminal_command_paths()) {
                None => r matches Err(e) && e@ == "ACP terminal/create missing command"@ && *final(self) == *old(self),
                Some(command) => r matches Ok((id, cmd, event)) && (exists|u: u128| id@ == #[trigger] terminal_id_of(u))
                    && cmd@ == command && event@ == terminal_started_of(session_id, id@, command, workspace@, message@)
                    && forall|t: Seq<char>| #[trigger]
                    final(self).terminal(t) == if t == id@ {
                        Some(TerminalView { output: Seq::empty(), exit_code: None })
                    } else {
                        old(self).terminal(t)
                    },
            },
    {
        let paths: [&[&str]; 2] = [&["params", "command"], &["params", "cmd"]];
        proof {
            assert(paths_view(paths@) =~~= terminal_command_paths());
        }
        let command = match first_str_at(message, &paths) {
            Some(c) => owned(c),
            None => return Err(owned("ACP terminal/create missing command")),
        };
        let uuid = new_v4();
        let text = uuid_to_text(uuid);
        let id = concat2("acp-terminal-", text.as_str());
        let ghost before = self.terminals@;
        self.terminals.push((owned(id.as_str()), AcpTerminalState { output: String::new(), exit_code: None }));
        proof {
            reveal_strlit("");
            assert(terminals_view(self.terminals@).drop_last() =~= terminals_view(before));
        }
        proof {
            assert(terminal_id_of(uuid) == id@);
        }
        let event = NormalizedEvent::CommandStarted(
            CommandEvent {
                session_id,
                command_id: owned(id.as_str()),
                command: owned(command.as_str()),
                cwd: Some(owned(workspace)),
                source: Some(owned("acp")),
                process_id: None,
                provider_payload: Some(json_clone(message)),
            },
        );
        Ok((id, command, event))
    }

    /// Records how a terminal's command ended, when the terminal is still tracked, and
    /// gives the events of its end; `elapsed_ms` is how long it ran.
    pub fn finish(&mut self, session_id: SessionId, terminal_id: &str, output: String, exit_code: i32, elapsed_ms: u64) -> (r: Vec<
        NormalizedEvent,
    >)
        ensures
            events_view(r@) == terminal_finished_of(
                session_id,
                terminal_id@,
                output@,
                exit_code,
                if old(self).terminal(terminal_id@) is Some {
                    Some(elapsed_ms)
                } else {
                    None
                },
            ),
            forall|t: Seq<char>| #[trigger]
                final(self).terminal(t) == if t == terminal_id@ && old(self).terminal(terminal_id@) is Some {
                    Some(TerminalView { output: output@, exit_code: Some(exit_code) })
                } else {
                    old(self).terminal(t)
                },
    {
        let duration_ms = match self.lookup(terminal_id) {
            Some(_) => {
                let ghost before = self.terminals@;
                self.terminals.push(
                    (owned(terminal_id), AcpTerminalState { output: owned(output.as_str()), exit_code: Some(exit_code) }),
                );
                proof {
                    assert(terminals_view(self.terminals@).drop_last() =~= terminals_view(before));
                }
                Some(elapsed_ms)
            },
            None => None,
        };
        let mut events: Vec<NormalizedEvent> = Vec::new();
        let has_output = output.unicode_len() > 0;
        if has_output {
            events.push(
                NormalizedEvent::CommandOutputDelta(
                    CommandOutputEvent {
                        session_id,
                        command_id: owned(terminal_id),
                        stream: CommandOutputStream::Stdout,
                        delta: output,
                        provider_payload: None,
                    },
                ),
            );
        }
        events.push(
            NormalizedEvent::CommandCompleted(
                CommandCompletedEvent {
                    session_id,
                    command_id: owned(terminal_id),
                    exit_code: Some(exit_code),
                    duration_ms,
                    success: exit_code == 0,
                    provider_payload: None,
                },
            ),
        );
        proof {
            if has_output {
                assert(events_view(events@) =~= seq![events@[0]@, events@[1]@]);
            } else {
                assert(events_view(events@) =~= seq![events@[0]@]);
            }
        }
        events
    }

    /// The reply to a `terminal/output` request (see `terminal_output_of`); an error
    /// when it names no terminal.
    pub fn output_response(&self, message: &JsonValue) -> (r: Result<JsonValue, String>)
        ensures
            match first_str(message@, terminal_id_paths()) {
                Some(id) => r matches Ok(j) && j@ == terminal_output_of(self.terminal(id)),
                None => r matches Err(e) && e@ == "ACP terminal/output missing terminalId"@,
            },
    {
        let id = match terminal_id_at(message) {
            Some(id) => id,
            None => return Err(owned("ACP terminal/output missing terminalId")),
        };
        match self.lookup(id) {
            Some(i) => {
                let state = &self.terminals[i].1;
                let exit_status = match state.exit_code {
                    Some(c) => exit_code_response(c),
                    None => JsonValue::Null,
                };
                let r = obj3("exitStatus", exit_status, "output", jstr(state.output.as_str()), "truncated", JsonValue::Bool(false));
                proof {
                    assert(r@->Object_0 =~= terminal_output_of(self.terminal(id@))->Object_0);
                }
                Ok(r)
            },
            None => {
                let r = obj3("exitStatus", exit_code_response(1), "output", jstr(""), "truncated", JsonValue::Bool(false));
                proof {
                    reveal_strlit("");
                    assert(r@->Object_0 =~= terminal_output_of(None)->Object_0);
                }
                Ok(r)
            },
        }
    }

    /// How the command of the terminal a request names exited, once it has.
    pub fn exit_code(&self, message: &JsonValue) -> (r: Option<i32>)
        ensures
            r == match first_str(message@, terminal_id_paths()) {
                Some(id) => match self.terminal(id) {
                    Some(t) => t.exit_code,
                    None => None,
                },
                None => match self.terminal(""@) {
                    Some(t) => t.exit_code,
                    None => None,
                },
            },
    {
        let id = match terminal_id_at(message) {
            Some(id) => id,
            None => "",
        };
        proof {
            reveal_strlit("");
        }
        match self.lookup(id) {
            Some(i) => self.terminals[i].1.exit_code,
            None => None,
        }
    }

    /// Forgets the terminal a `terminal/release` request names, if it names one.
    pub fn release(&mut self, message: &JsonValue)
        ensures
            forall|t: Seq<char>| #[trigger]
                final(self).terminal(t) == if first_str(message@, terminal_id_paths()) == Some(t) {
                    None
                } else {
                    old(self).terminal(t)
                },
    {
        let id = match terminal_id_at(message) {
            Some(id) => id,
            None => return,
        };
        let ghost old_v = terminals_view(self.terminals@);
        let mut kept: Vec<(String, AcpTerminalState)> = Vec::new();
        let mut list = Vec::new();
        std::mem::swap(&mut list, &mut self.terminals);
        let ghost all = list@;
        let mut rest = list;
        let ghost mut n: int = 0;
        proof {
            assert(terminals_view(kept@) =~= Seq::<(Seq<char>, TerminalView)>::empty());
        }
        while rest.len() > 0
            invariant
                old_v == terminals_view(all),
                0 <= n <= all.len(),
                rest@ == all.subrange(n, all.len() as int),
                forall|t: Seq<char>| #[trigger]
                    crate::adapter::assoc_get(terminals_view(kept@), t) == if t == id@ {
                        None
                    } else {
                        crate::adapter::assoc_get(old_v.subrange(0, n), t)
                    },
            decreases rest.len(),
        {
            let e = rest.remove(0);
            let ghost ev = (e.0@, TerminalView { output: e.1.output@, exit_code: e.1.exit_code });
            proof {
                assert(all[n] == e);
                assert(old_v.subrange(0, n + 1).drop_last() =~= old_v.subrange(0, n));
                assert(old_v.subrange(0, n + 1).last() == ev);
                assert(rest@ =~= all.subrange(n + 1, all.len() as int));
            }
            if !str_eq(e.0.as_str(), id) {
                let ghost before = kept@;
                kept.push(e);
                proof {
                    assert(terminals_view(kept@).drop_last() =~= terminals_view(before));
                    assert(terminals_view(kept@).last() == ev);
                    assert(ev.0 != id@);
                    assert forall|t: Seq<char>| #[trigger]
                        crate::adapter::assoc_get(terminals_view(kept@), t) == if t == id@ {
                            None
                        } else {
                            crate::adapter::assoc_get(old_v.subrange(0, n + 1), t)
                        } by {
                        assert(terminals_view(kept@).len() > 0);
                        assert(old_v.subrange(0, n + 1).len() > 0);
                        assert(old_v.subrange(0, n + 1).drop_last() =~= old_v.subrange(0, n));
                        assert(crate::adapter::assoc_get(terminals_view(before), t) == if t == id@ {
                            None
                        } else {
                            crate::adapter::assoc_get(old_v.subrange(0, n), t)
                        });
                    }
                }
            } else {
                proof {
                    assert(old_v.subrange(0, n + 1).last().0 == id@);
                    assert forall|t: Seq<char>| #[trigger]
                        crate::adapter::assoc_get(terminals_view(kept@), t) == if t == id@ {
                            None
                        } else {
                            crate::adapter::assoc_get(old_v.subrange(0, n + 1), t)
                        } by {
                        if t != id@ {
                            assert(old_v.subrange(0, n + 1).len() > 0);
                            assert(old_v.subrange(0, n + 1).drop_last() =~= old_v.subrange(0, n));
                            assert(crate::adapter::assoc_get(old_v.subrange(0, n + 1), t)
                                == crate::adapter::assoc_get(old_v.subrange(0, n), t));
                        }
                    }
                }
            }
            proof {
                n = n + 1;
            }
        }
        proof {
            assert(old_v.subrange(0, all.len() as int) =~= old_v);
        }
        self.terminals = kept;
    }
}

// ---------------------------------------------------------------------------
// Listed sessions
// ---------------------------------------------------------------------------

/// How far a listed session's history was read.
#[derive(Clone, Copy, Debug, PartialEq, Eq, Structural)]
pub enum DiscoveredSessionHistoryStatus {
    Loaded,
}

/// A session an agent or Codex lists.
#[derive(Debug, PartialEq)]
pub struct DiscoveredSession {
    pub external_session_id: String,
    pub title: Option<String>,
    pub updated_at: Option<String>,
    pub history_status: DiscoveredSessionHistoryStatus,
    pub history: Vec<DiscoveredSessionHistoryItem>,
}

pub struct DiscoveredView {
    pub external_session_id: Seq<char>,
    pub title: Option<Seq<char>>,
    pub updated_at: Option<Seq<char>>,
    pub history_status: DiscoveredSessionHistoryStatus,
    pub history_len: nat,
}

impl View for DiscoveredSession {
    type V = DiscoveredView;

    open spec fn view(&self) -> DiscoveredView {
        DiscoveredView {
            external_session_id: self.external_session_id@,
            title: opt_s(self.title),
            updated_at: opt_s(self.updated_at),
            history_status: self.history_status,
            history_len: self.history@.len(),
        }
    }
}

pub open spec fn listed_id_paths() -> Seq<Seq<Seq<char>>> {
    seq![seq!["sessionId"@], seq!["id"@]]
}

pub open spec fn listed_title_paths() -> Seq<Seq<Seq<char>>> {
    seq![seq!["title"@], seq!["name"@]]
}

pub open spec fn listed_updated_paths() -> Seq<Seq<Seq<char>>> {
    seq![seq!["updatedAt"@], seq!["updated_at"@]]
}

/// The session a `session/list` entry describes, when it has an id: loaded, with no
/// history.
pub open spec fn listed_session_of(item: Json) -> Option<DiscoveredView> {
    match first_str(item, listed_id_paths()) {
        Some(id) => Some(
            DiscoveredView {
                external_session_id: id,
                title: first_str(item, listed_title_paths()),
                updated_at: first_str(item, listed_updated_paths()),
                history_status: DiscoveredSessionHistoryStatus::Loaded,
                history_len: 0,
            },
        ),
        None => None,
    }
}

/// The sessions of the entries that have an id, in order.
pub open spec fn listed_sessions_from(items: Seq<Json>) -> Seq<DiscoveredView>
    decreases items.len(),
{
    if items.len() == 0 {
        Seq::empty()
    } else {
        let init = listed_sessions_from(items.drop_last());
        match listed_session_of(items.last()) {
            Some(s) => init.push(s),
            None => init,
        }
    }
}

/// The entries of `result.sessions`, when it is an array.
pub open spec fn listed_items_of(response: Json) -> Seq<Json> {
    match json_path(response, seq!["result"@, "sessions"@]) {
        Some(v) => match json_as_array(v) {
            Some(a) => a,
            None => Seq::empty(),
        },
        None => Seq::empty(),
    }
}

pub open spec fn discovered_view(v: Seq<DiscoveredSession>) -> Seq<DiscoveredView> {
    v.map_values(|d: DiscoveredSession| d@)
}

fn listed_session(item: &JsonValue) -> (r: Option<DiscoveredSession>)
    ensures
        match r {
            Some(d) => listed_session_of(item@) == Some(d@),
            None => listed_session_of(item@) is None,
        },
{
    let id_paths: [&[&str]; 2] = [&["sessionId"], &["id"]];
    let title_paths: [&[&str]; 2] = [&["title"], &["name"]];
    let updated_paths: [&[&str]; 2] = [&["updatedAt"], &["updated_at"]];
    proof {
        assert(paths_view(id_paths@) =~~= listed_id_paths());
        assert(paths_view(title_paths@) =~~= listed_title_paths());
        assert(paths_view(updated_paths@) =~~= listed_updated_paths());
    }
    let id = match first_str_at(item, &id_paths) {
        Some(id) => id,
        None => return None,
    };
    let title = match first_str_at(item, &title_paths) {
        Some(t) => Some(owned(t)),
        None => None,
    };
    let updated_at = match first_str_at(item, &updated_paths) {
        Some(t) => Some(owned(t)),
        None => None,
    };
    Some(
        DiscoveredSession {
            external_session_id: owned(id),
            title,
            updated_at,
            history_status: DiscoveredSessionHistoryStatus::Loaded,
            history: Vec::new(),
        },
    )
}

/// The sessions a `session/list` response lists.
pub fn acp_discovered_sessions(response: &JsonValue) -> (r: Vec<DiscoveredSession>)
    ensures
        discovered_view(r@) == listed_sessions_from(listed_items_of(response@)),
{
    let path: [&str; 2] = ["result", "sessions"];
    proof {
        assert(path_view(path@) =~= seq!["result"@, "sessions"@]);
    }
    let mut out: Vec<DiscoveredSession> = Vec::new();
    let items = match at(response, &path) {
        Some(v) => match as_array(v) {
            Some(a) => a,
            None => {
                proof {
                    assert(discovered_view(out@) =~= Seq::<DiscoveredView>::empty());
                }
                return out;
            },
        },
        None => {
            proof {
                assert(discovered_view(out@) =~= Seq::<DiscoveredView>::empty());
            }
            return out;
        },
    };
    let ghost a = values_view(items@);
    let mut i: usize = 0;
    proof {
        assert(a.subrange(0, 0) =~= Seq::<Json>::empty());
        assert(discovered_view(out@) =~= Seq::<DiscoveredView>::empty());
    }
    while i < items.len()
        invariant
            a == values_view(items@),
            a == listed_items_of(response@),
            i <= items.len(),
            discovered_view(out@) == listed_sessions_from(a.subrange(0, i as int)),
        decreases items.len() - i,
    {
        let ghost before = out@;
        assert(a.subrange(0, i + 1).drop_last() =~= a.subrange(0, i as int));
        assert(a.subrange(0, i + 1).last() == items@[i as int]@);
        match listed_session(&items[i]) {
            Some(d) => {
                let ghost dv = d@;
                out.push(d);
                proof {
                    assert(discovered_view(out@) =~= discovered_view(before).push(dv));
                }
            },
            None => {},
        }
        i = i + 1;
    }
    proof {
        assert(a.subrange(0, a.len() as int) =~= a);
    }
    out
}


/// The runtime reads and writes only files inside the workspace: whatever an agent's
/// file request names, a target it accepts is an absolute path under the workspace.
pub proof fn law_file_requests_stay_in_workspace(workspace: Seq<char>, m: Json)
    ensures
        read_target_of(workspace, m) matches Ok(p) ==> crate::acp::path_is_absolute(p) && crate::acp::path_starts_with(
            p,
            workspace,
        ),
        write_target_of(workspace, m) matches Ok((p, _)) ==> crate::acp::path_is_absolute(p)
            && crate::acp::path_starts_with(p, workspace),
{
    match first_str(m, file_path_paths()) {
        Some(p) => crate::acp::law_accepted_paths_stay_in_workspace(workspace, p),
        None => {},
    }
}

} // verus!
