//! Rules of the ACP providers: what an `initialize` answer says the agent can do, which
//! file paths an agent may touch, provider errors, and permission replies.
use vstd::prelude::*;
use crate::json::{Json, JsonValue, json_get, json_path, json_as_bool, json_as_array, json_text, get, at,
    as_bool, as_array, values_view, path_view, obj1, obj2, jstr, json_to_text};
use crate::codex::text_or;
use crate::codex_questions::{member_text, member_str};
use crate::model::{ApprovalDecision, DecisionView};
use crate::provider_commands::ProviderCapabilityDetail;
use crate::text::{owned, str_eq, concat2, concat3, split_on, split_char, strings_view};

verus! {

/// What the agent said it supports when initialized.
#[derive(Clone, Debug, Default, PartialEq, Eq)]
pub struct AcpInitializeCapabilities {
    pub load_session: bool,
    pub session_list: bool,
    pub session_resume: bool,
    pub session_fork: bool,
}

/// What the runner tells its users an agent can do.
#[derive(Clone, Debug, Default, PartialEq, Eq)]
pub struct AgentCapabilities {
    pub streaming: bool,
    pub session_resume: bool,
    pub session_history: bool,
    pub approvals: bool,
    pub file_changes: bool,
    pub command_execution: bool,
    pub plan_updates: bool,
    pub interrupt: bool,
    pub model_selection: bool,
    pub reasoning_effort: bool,
    pub collaboration_modes: bool,
    pub tool_user_input: bool,
    pub mcp_elicitation: bool,
    pub provider_details: Vec<ProviderCapabilityDetail>,
}

/// The capabilities of an ACP agent: streaming, approvals, file changes, commands and
/// plans always; resuming and history as given; nothing else, and no provider details.
pub open spec fn is_acp_capabilities(c: AgentCapabilities, session_resume: bool, session_history: bool) -> bool {
    &&& c.streaming
    &&& c.session_resume == session_resume
    &&& c.session_history == session_history
    &&& c.approvals
    &&& c.file_changes
    &&& c.command_execution
    &&& c.plan_updates
    &&& !c.interrupt
    &&& !c.model_selection
    &&& !c.reasoning_effort
    &&& !c.collaboration_modes
    &&& !c.tool_user_input
    &&& !c.mcp_elicitation
    &&& c.provider_details@.len() == 0
}

fn acp_capabilities(session_resume: bool, session_history: bool) -> (r: AgentCapabilities)
    ensures
        is_acp_capabilities(r, session_resume, session_history),
{
    AgentCapabilities {
        streaming: true,
        session_resume,
        session_history,
        approvals: true,
        file_changes: true,
        command_execution: true,
        plan_updates: true,
        interrupt: false,
        model_selection: false,
        reasoning_effort: false,
        collaboration_modes: false,
        tool_user_input: false,
        mcp_elicitation: false,
        provider_details: Vec::new(),
    }
}

/// `result.agentCapabilities`, or `null`.
pub open spec fn agent_capabilities_of(m: Json) -> Json {
    match json_path(m, seq!["result"@, "agentCapabilities"@]) {
        Some(c) => c,
        None => Json::Null,
    }
}

/// `sessionCapabilities` of the agent capabilities, or `null`.
pub open spec fn session_capabilities_of(m: Json) -> Json {
    match json_get(agent_capabilities_of(m), "sessionCapabilities"@) {
        Some(c) => c,
        None => Json::Null,
    }
}

impl AcpInitializeCapabilities {
    /// Reads the capabilities from an `initialize` answer: `loadSession` when it is
    /// `true`, and each session capability when it is named at all.
    pub fn from_initialize(m: &JsonValue) -> (r: Self)
        ensures
            r.load_session == (json_get(agent_capabilities_of(m@), "loadSession"@) matches Some(b)
                && json_as_bool(b) == Some(true)),
            r.session_list == json_get(session_capabilities_of(m@), "list"@) is Some,
            r.session_resume == json_get(session_capabilities_of(m@), "resume"@) is Some,
            r.session_fork == json_get(session_capabilities_of(m@), "fork"@) is Some,
    {
        let null = JsonValue::Null;
        let path: [&str; 2] = ["result", "agentCapabilities"];
        proof {
            assert(path_view(path@) =~= seq!["result"@, "agentCapabilities"@]);
        }
        let capabilities = match at(m, &path) {
            Some(c) => c,
            None => &null,
        };
        let session = match get(capabilities, "sessionCapabilities") {
            Some(c) => c,
            None => &null,
        };
        let load_session = match get(capabilities, "loadSession") {
            Some(b) => match as_bool(b) {
                Some(x) => x,
                None => false,
            },
            None => false,
        };
        AcpInitializeCapabilities {
            load_session,
            session_list: get(session, "list").is_some(),
            session_resume: get(session, "resume").is_some(),
            session_fork: get(session, "fork").is_some(),
        }
    }

    /// Whether the agent lists its sessions.
    pub fn supports_session_list(&self) -> (r: bool)
        ensures
            r == self.session_list,
    {
        self.session_list
    }

    /// What the runner tells its users the agent can do: sessions resume when they can
    /// be loaded or resumed, history comes from the session list; streaming, approvals,
    /// file changes, commands and plans always; no interrupt.
    pub fn to_agent_capabilities(&self) -> (r: AgentCapabilities)
        ensures
            is_acp_capabilities(r, self.load_session || self.session_resume, self.session_list),
    {
        acp_capabilities(self.load_session || self.session_resume, self.session_list)
    }
}

// ---------------------------------------------------------------------------
// Provider profiles
// ---------------------------------------------------------------------------

/// How the runner starts one ACP agent: its command, arguments, and the argument that
/// passes the workspace, if the agent takes one.
#[derive(Clone, Debug, PartialEq, Eq)]
pub struct AcpProviderProfile {
    pub provider_id: String,
    pub title: String,
    command: String,
    args: Vec<String>,
    cwd_arg: Option<String>,
}

/// How long the runner waits for an ACP agent's answer, in seconds.
pub const ACP_RESPONSE_TIMEOUT_SECS: u64 = 20;

/// How long the runner waits for Gemini's answer, in seconds: Gemini authenticates on
/// its first request.
pub const GEMINI_ACP_RESPONSE_TIMEOUT_SECS: u64 = 60;

impl AcpProviderProfile {
    pub closed spec fn provider_spec(&self) -> Seq<char> {
        self.provider_id@
    }

    pub closed spec fn title_spec(&self) -> Seq<char> {
        self.title@
    }

    pub closed spec fn command_spec(&self) -> Seq<char> {
        self.command@
    }

    pub closed spec fn args_spec(&self) -> Seq<Seq<char>> {
        strings_view(self.args@)
    }

    pub closed spec fn cwd_arg_spec(&self) -> Option<Seq<char>> {
        crate::events::opt_s(self.cwd_arg)
    }

    fn profile(provider_id: &str, title: &str, command: &str, args: &[&str], cwd_arg: Option<&str>) -> (r: Self)
        ensures
            r.provider_spec() == provider_id@,
            r.title_spec() == title@,
            r.command_spec() == command@,
            r.args_spec() == path_view(args@),
            r.cwd_arg_spec() == crate::json::opt_str(cwd_arg),
    {
        let mut owned_args: Vec<String> = Vec::new();
        let mut i: usize = 0;
        while i < args.len()
            invariant
                i <= args.len(),
                strings_view(owned_args@) =~= path_view(args@).subrange(0, i as int),
            decreases args.len() - i,
        {
            let ghost before = owned_args@;
            owned_args.push(owned(args[i]));
            proof {
                assert(strings_view(owned_args@) =~= strings_view(before).push(args@[i as int]@));
            }
            i = i + 1;
        }
        proof {
            assert(path_view(args@).subrange(0, args@.len() as int) =~= path_view(args@));
        }
        AcpProviderProfile {
            provider_id: owned(provider_id),
            title: owned(title),
            command: owned(command),
            args: owned_args,
            cwd_arg: match cwd_arg {
                Some(c) => Some(owned(c)),
                None => None,
            },
        }
    }

    /// Qwen Code: `qwen --acp --approval-mode default`.
    pub fn qwen() -> (r: Self)
        ensures
            r.provider_spec() == "qwen"@,
            r.title_spec() == "Qwen Code"@,
            r.command_spec() == "qwen"@,
            r.args_spec() == seq!["--acp"@, "--approval-mode"@, "default"@],
            r.cwd_arg_spec() is None,
    {
        let args: [&str; 3] = ["--acp", "--approval-mode", "default"];
        proof {
            assert(path_view(args@) =~= seq!["--acp"@, "--approval-mode"@, "default"@]);
        }
        Self::profile("qwen", "Qwen Code", "qwen", &args, None)
    }

    /// Gemini CLI: `gemini --acp`.
    pub fn gemini() -> (r: Self)
        ensures
            r.provider_spec() == "gemini"@,
            r.title_spec() == "Gemini CLI"@,
            r.command_spec() == "gemini"@,
            r.args_spec() == seq!["--acp"@],
            r.cwd_arg_spec() is None,
    {
        let args: [&str; 1] = ["--acp"];
        proof {
            assert(path_view(args@) =~= seq!["--acp"@]);
        }
        Self::profile("gemini", "Gemini CLI", "gemini", &args, None)
    }

    /// OpenCode: `opencode acp --cwd <workspace>`.
    pub fn opencode() -> (r: Self)
        ensures
            r.provider_spec() == "opencode"@,
            r.title_spec() == "OpenCode"@,
            r.command_spec() == "opencode"@,
            r.args_spec() == seq!["acp"@],
            r.cwd_arg_spec() == Some("--cwd"@),
    {
        let args: [&str; 1] = ["acp"];
        proof {
            assert(path_view(args@) =~= seq!["acp"@]);
        }
        Self::profile("opencode", "OpenCode", "opencode", &args, Some("--cwd"))
    }

    /// The profiles of Qwen, Gemini and OpenCode, in that order.
    pub fn all() -> (r: Vec<Self>)
        ensures
            r@.len() == 3,
            r@[0].provider_spec() == "qwen"@ && r@[0].command_spec() == "qwen"@,
            r@[0].args_spec() == seq!["--acp"@, "--approval-mode"@, "default"@] && r@[0].cwd_arg_spec() is None,
            r@[1].provider_spec() == "gemini"@ && r@[1].command_spec() == "gemini"@,
            r@[1].args_spec() == seq!["--acp"@] && r@[1].cwd_arg_spec() is None,
            r@[2].provider_spec() == "opencode"@ && r@[2].command_spec() == "opencode"@,
            r@[2].args_spec() == seq!["acp"@] && r@[2].cwd_arg_spec() == Some("--cwd"@),
    {
        let mut v = Vec::new();
        v.push(Self::qwen());
        v.push(Self::gemini());
        v.push(Self::opencode());
        v
    }

    /// The command and arguments that start the agent: the profile's arguments, then
    /// the workspace argument and the workspace path when the agent takes one.
    pub fn command_line(&self, workspace_path: &str) -> (r: (String, Vec<String>))
        ensures
            r.0@ == self.command_spec(),
            strings_view(r.1@) == match self.cwd_arg_spec() {
                Some(c) => self.args_spec() + seq![c, workspace_path@],
                None => self.args_spec(),
            },
    {
        let mut args: Vec<String> = Vec::new();
        let mut i: usize = 0;
        while i < self.args.len()
            invariant
                i <= self.args.len(),
                strings_view(args@) =~= strings_view(self.args@).subrange(0, i as int),
            decreases self.args.len() - i,
        {
            let ghost before = args@;
            args.push(self.args[i].clone());
            proof {
                assert(strings_view(args@) =~= strings_view(before).push(self.args@[i as int]@));
            }
            i = i + 1;
        }
        proof {
            assert(strings_view(self.args@).subrange(0, self.args@.len() as int) =~= strings_view(self.args@));
        }
        match &self.cwd_arg {
            Some(c) => {
                let ghost before = args@;
                args.push(c.clone());
                args.push(owned(workspace_path));
                proof {
                    assert(strings_view(args@) =~= strings_view(before) + seq![c@, workspace_path@]);
                }
            },
            None => {},
        }
        (self.command.clone(), args)
    }

    /// How long the runner waits for the agent's answer, in seconds: longer for Gemini.
    pub fn response_timeout(&self) -> (r: u64)
        ensures
            r == if self.provider_spec() == "gemini"@ {
                GEMINI_ACP_RESPONSE_TIMEOUT_SECS
            } else {
                ACP_RESPONSE_TIMEOUT_SECS
            },
    {
        if str_eq(self.provider_id.as_str(), "gemini") {
            GEMINI_ACP_RESPONSE_TIMEOUT_SECS
        } else {
            ACP_RESPONSE_TIMEOUT_SECS
        }
    }

    /// The capabilities advertised before the agent is started: Gemini loads sessions
    /// but neither lists nor resumes them; the others do both, and OpenCode forks.
    pub fn advertised_capabilities(&self) -> (r: AgentCapabilities)
        ensures
            is_acp_capabilities(r, true, self.provider_spec() != "gemini"@),
    {
        let session_capabilities = if str_eq(self.provider_id.as_str(), "gemini") {
            AcpInitializeCapabilities {
                load_session: true,
                session_list: false,
                session_resume: false,
                session_fork: false,
            }
        } else {
            AcpInitializeCapabilities {
                load_session: true,
                session_list: true,
                session_resume: true,
                session_fork: str_eq(self.provider_id.as_str(), "opencode"),
            }
        };
        session_capabilities.to_agent_capabilities()
    }
}

// ---------------------------------------------------------------------------
// Workspace paths
// ---------------------------------------------------------------------------

/// The pieces of a path that name something: not empty and not `.`.
pub open spec fn named_pieces(pieces: Seq<Seq<char>>) -> Seq<Seq<char>> {
    pieces.filter(|p: Seq<char>| p.len() > 0 && p != "."@)
}

/// The components of a Unix path, as `Path::components` yields them: the root for a
/// path starting with `/`, a leading `.` for a relative path starting with it, then
/// the pieces between separators that are neither empty nor `.`.
pub open spec fn path_components(p: Seq<char>) -> Seq<Seq<char>> {
    let pieces = split_on(p, '/');
    let head = if p.len() > 0 && p[0] == '/' {
        seq!["/"@]
    } else if pieces.len() > 0 && pieces[0] == "."@ {
        seq!["."@]
    } else {
        Seq::empty()
    };
    head + named_pieces(pieces)
}

/// `Path::is_absolute` on Unix: the path starts at the root.
pub open spec fn path_is_absolute(p: Seq<char>) -> bool {
    p.len() > 0 && p[0] == '/'
}

/// `Path::starts_with`: `base`'s components begin `p`'s.
pub open spec fn path_starts_with(p: Seq<char>, base: Seq<char>) -> bool {
    let pc = path_components(p);
    let bc = path_components(base);
    bc.len() <= pc.len() && pc.subrange(0, bc.len() as int) == bc
}

fn components(p: &str) -> (r: Vec<String>)
    ensures
        strings_view(r@) == path_components(p@),
{
    proof {
        reveal_strlit(".");
        reveal_strlit("/");
    }
    let pieces = split_char(p, '/');
    let ghost pv = strings_view(pieces@);
    proof {
        crate::text::lemma_split_on_nonempty(p@, '/');
    }
    let mut out: Vec<String> = Vec::new();
    let rooted = p.unicode_len() > 0 && p.get_char(0) == '/';
    if rooted {
        out.push(owned("/"));
    } else if pieces.len() > 0 && str_eq(pieces[0].as_str(), ".") {
        out.push(owned("."));
    }
    let ghost head = strings_view(out@);
    proof {
        if rooted {
            assert(head =~= seq!["/"@]);
        } else if pv.len() > 0 && pv[0] == "."@ {
            assert(head =~= seq!["."@]);
        } else {
            assert(head =~= Seq::<Seq<char>>::empty());
        }
        assert(pv.subrange(0, 0).filter(|q: Seq<char>| q.len() > 0 && q != "."@) =~= Seq::<Seq<char>>::empty());
    }
    let mut i: usize = 0;
    while i < pieces.len()
        invariant
            i <= pieces.len(),
            pv == strings_view(pieces@),
            strings_view(out@) == head + pv.subrange(0, i as int).filter(|q: Seq<char>| q.len() > 0 && q != "."@),
        decreases pieces.len() - i,
    {
        let piece = pieces[i].as_str();
        proof {
            assert(pv[i as int] == piece@);
            assert(pv.subrange(0, i as int).push(piece@) =~= pv.subrange(0, i + 1));
            pv.subrange(0, i as int).lemma_filter_push(piece@, |q: Seq<char>| q.len() > 0 && q != "."@);
        }
        if piece.unicode_len() > 0 && !str_eq(piece, ".") {
            let ghost before = strings_view(out@);
            out.push(owned(piece));
            proof {
                assert(strings_view(out@) =~= before.push(piece@));
            }
        }
        i = i + 1;
    }
    proof {
        assert(pv.subrange(0, pieces@.len() as int) =~= pv);
    }
    out
}

fn components_start_with(p: &Vec<String>, base: &Vec<String>) -> (r: bool)
    ensures
        r == (strings_view(base@).len() <= strings_view(p@).len() && strings_view(p@).subrange(
            0,
            strings_view(base@).len() as int,
        ) == strings_view(base@)),
{
    if base.len() > p.len() {
        return false;
    }
    let mut i: usize = 0;
    while i < base.len()
        invariant
            base@.len() <= p@.len(),
            i <= base.len(),
            forall|j: int| 0 <= j < i ==> strings_view(p@)[j] == strings_view(base@)[j],
        decreases base.len() - i,
    {
        if !str_eq(p[i].as_str(), base[i].as_str()) {
            proof {
                assert(strings_view(p@).subrange(0, base@.len() as int)[i as int] != strings_view(base@)[i as int]);
            }
            return false;
        }
        i = i + 1;
    }
    proof {
        assert(strings_view(p@).subrange(0, base@.len() as int) =~= strings_view(base@));
    }
    true
}

/// The files an ACP agent may read and write: those under one workspace directory.
#[derive(Clone, Debug)]
pub struct AcpWorkspaceFileService {
    pub workspace_path: String,
}

/// The path an agent asks for, when it is absolute and inside the workspace; else the
/// error saying which rule it breaks.
pub open spec fn contained_path_of(workspace: Seq<char>, path: Seq<char>) -> Result<Seq<char>, Seq<char>> {
    if !path_is_absolute(path) {
        Err("ACP path must be absolute: "@ + path)
    } else if !path_starts_with(path, workspace) {
        Err("ACP path is outside workspace: "@ + path)
    } else {
        Ok(path)
    }
}

pub open spec fn string_result(r: Result<String, String>) -> Result<Seq<char>, Seq<char>> {
    match r {
        Ok(s) => Ok(s@),
        Err(e) => Err(e@),
    }
}

impl AcpWorkspaceFileService {
    /// The service for a workspace directory.
    pub fn new(workspace_path: String) -> (r: Self)
        ensures
            r.workspace_path@ == workspace_path@,
    {
        AcpWorkspaceFileService { workspace_path }
    }

    /// The path an agent asks for, when it is absolute and inside the workspace (by
    /// whole path components).
    pub fn contained_path(&self, path: &str) -> (r: Result<String, String>)
        ensures
            string_result(r) == contained_path_of(self.workspace_path@, path@),
    {
        let absolute = path.unicode_len() > 0 && path.get_char(0) == '/';
        if !absolute {
            return Err(concat2("ACP path must be absolute: ", path));
        }
        let pc = components(path);
        let bc = components(self.workspace_path.as_str());
        if !components_start_with(&pc, &bc) {
            return Err(concat2("ACP path is outside workspace: ", path));
        }
        Ok(owned(path))
    }
}

/// A path inside the workspace is accepted as it is; so nothing outside the workspace
/// ever is.
pub proof fn law_accepted_paths_stay_in_workspace(workspace: Seq<char>, path: Seq<char>)
    ensures
        contained_path_of(workspace, path) matches Ok(p) ==> p == path && path_is_absolute(p)
            && path_starts_with(p, workspace),
{
}

// ---------------------------------------------------------------------------
// Provider errors
// ---------------------------------------------------------------------------

/// The hint added for Gemini setup problems.
pub open spec fn gemini_hint() -> Seq<char> {
    "; Gemini setup hint: run Gemini outside a restrictive sandbox, then authenticate and trust the workspace locally"@
}

/// An error with the stderr excerpt and, for Gemini, the setup hint appended.
pub open spec fn with_excerpt_and_hint(head: Seq<char>, provider_id: Seq<char>, stderr_excerpt: Seq<char>) -> Seq<char> {
    let with_stderr = if stderr_excerpt.len() == 0 {
        head
    } else {
        head + "; recent stderr: "@ + stderr_excerpt
    };
    if provider_id == "gemini"@ {
        with_stderr + gemini_hint()
    } else {
        with_stderr
    }
}

fn append_excerpt_and_hint(message: &mut String, provider_id: &str, stderr_excerpt: &str)
    ensures
        final(message)@ == with_excerpt_and_hint(old(message)@, provider_id@, stderr_excerpt@),
{
    if stderr_excerpt.unicode_len() != 0 {
        message.append("; recent stderr: ");
        message.append(stderr_excerpt);
    }
    if str_eq(provider_id, "gemini") {
        message.append(
            "; Gemini setup hint: run Gemini outside a restrictive sandbox, then authenticate and trust the workspace locally",
        );
    }
}

/// The error when an ACP provider does not answer in time.
pub fn acp_timeout_error(provider_id: &str, method: &str, stderr_excerpt: &str) -> (r: String)
    ensures
        r@ == with_excerpt_and_hint(
            "timed out waiting for ACP `"@ + method@ + "` response from provider `"@ + provider_id@ + "`"@,
            provider_id@,
            stderr_excerpt@,
        ),
{
    let mut message = concat3("timed out waiting for ACP `", method, "` response from provider `");
    message.append(provider_id);
    message.append("`");
    append_excerpt_and_hint(&mut message, provider_id, stderr_excerpt);
    message
}

/// The error when an ACP provider exits before answering.
pub fn acp_exit_error(provider_id: &str, method: &str, stderr_excerpt: &str) -> (r: String)
    ensures
        r@ == with_excerpt_and_hint(
            "ACP provider `"@ + provider_id@ + "` exited before `"@ + method@ + "` response"@,
            provider_id@,
            stderr_excerpt@,
        ),
{
    let mut message = concat3("ACP provider `", provider_id, "` exited before `");
    message.append(method);
    message.append("` response");
    append_excerpt_and_hint(&mut message, provider_id, stderr_excerpt);
    message
}

/// The error when an ACP provider answers with an error.
pub fn acp_error_response(provider_id: &str, method: &str, error: &JsonValue) -> (r: String)
    ensures
        r@ == "ACP `"@ + method@ + "` failed for provider `"@ + provider_id@ + "`: "@ + json_text(error@),
{
    let mut message = concat3("ACP `", method, "` failed for provider `");
    message.append(provider_id);
    message.append("`: ");
    let text = json_to_text(error);
    message.append(text.as_str());
    message
}

// ---------------------------------------------------------------------------
// Permission replies
// ---------------------------------------------------------------------------

/// The first option of the given kind.
pub open spec fn option_of_kind(options: Seq<Json>, kind: Seq<char>) -> Option<Json>
    decreases options.len(),
{
    if options.len() == 0 {
        None
    } else if member_text(options[0], "kind"@) == Some(kind) {
        Some(options[0])
    } else {
        option_of_kind(options.drop_first(), kind)
    }
}

/// The option chosen among a request's options: the first of the preferred kind,
/// else of the second preferred kind, else the last option.
pub open spec fn chosen_option(options: Option<Seq<Json>>, first: Seq<char>, second: Seq<char>) -> Option<Json> {
    match options {
        Some(o) => match option_of_kind(o, first) {
            Some(x) => Some(x),
            None => match option_of_kind(o, second) {
                Some(x) => Some(x),
                None => if o.len() > 0 {
                    Some(o.last())
                } else {
                    None
                },
            },
        },
        None => None,
    }
}

/// The options of a permission request, when it lists them.
pub open spec fn permission_options(m: Json) -> Option<Seq<Json>> {
    match json_path(m, seq!["params"@, "options"@]) {
        Some(x) => json_as_array(x),
        None => None,
    }
}

/// The reply selecting an option.
pub open spec fn selected_reply(option_id: Seq<char>) -> Json {
    Json::Object(
        seq![("outcome"@, Json::Object(seq![("optionId"@, Json::Str(option_id)), ("outcome"@, Json::Str("selected"@))]))],
    )
}

/// The id of the chosen option, or the fallback.
pub open spec fn selected_option_id(m: Json, first: Seq<char>, second: Seq<char>, fallback: Seq<char>) -> Seq<char> {
    match chosen_option(permission_options(m), first, second) {
        Some(o) => text_or(member_text(o, "optionId"@), fallback),
        None => fallback,
    }
}

/// The reply to a permission request for a decision: the provider's own payload, a
/// cancellation, or the option of the matching kind.
pub open spec fn permission_reply_of(m: Json, d: DecisionView) -> Json {
    match d {
        DecisionView::Cancel => Json::Object(seq![("outcome"@, Json::Object(seq![("outcome"@, Json::Str("cancelled"@))]))]),
        DecisionView::ProviderSpecific(p) => p,
        DecisionView::Accept | DecisionView::AcceptForSession => selected_reply(
            selected_option_id(m, "allow_once"@, "allow_always"@, "allow_once"@),
        ),
        DecisionView::Decline => selected_reply(selected_option_id(m, "reject_once"@, "reject_always"@, "reject_once"@)),
    }
}

fn option_of_kind_exec<'a>(options: &'a Vec<JsonValue>, kind: &str) -> (r: Option<&'a JsonValue>)
    ensures
        match r {
            Some(x) => option_of_kind(values_view(options@), kind@) == Some(x@),
            None => option_of_kind(values_view(options@), kind@) is None,
        },
{
    let ghost ov = values_view(options@);
    let mut i: usize = 0;
    proof {
        assert(ov.subrange(0, ov.len() as int) =~= ov);
    }
    while i < options.len()
        invariant
            i <= options.len(),
            ov == values_view(options@),
            option_of_kind(ov, kind@) == option_of_kind(ov.subrange(i as int, ov.len() as int), kind@),
        decreases options.len() - i,
    {
        proof {
            assert(ov.subrange(i as int, ov.len() as int)[0] == options@[i as int]@);
            assert(ov.subrange(i as int, ov.len() as int).drop_first() =~= ov.subrange(i + 1, ov.len() as int));
        }
        match member_str(&options[i], "kind") {
            Some(k) => {
                if str_eq(k, kind) {
                    return Some(&options[i]);
                }
            },
            None => {},
        }
        i = i + 1;
    }
    None
}

fn selected_option_response(m: &JsonValue, first: &str, second: &str, fallback: &str) -> (r: JsonValue)
    ensures
        r@ == selected_reply(selected_option_id(m@, first@, second@, fallback@)),
{
    let path: [&str; 2] = ["params", "options"];
    proof {
        assert(path_view(path@) =~= seq!["params"@, "options"@]);
    }
    let options = match at(m, &path) {
        Some(x) => as_array(x),
        None => None,
    };
    let chosen = match options {
        Some(o) => match option_of_kind_exec(o, first) {
            Some(x) => Some(x),
            None => match option_of_kind_exec(o, second) {
                Some(x) => Some(x),
                None => if o.len() > 0 {
                    Some(&o[o.len() - 1])
                } else {
                    None
                },
            },
        },
        None => None,
    };
    let selected: &str = match chosen {
        Some(o) => match member_str(o, "optionId") {
            Some(id) => id,
            None => fallback,
        },
        None => fallback,
    };
    obj1("outcome", obj2("optionId", jstr(selected), "outcome", jstr("selected")))
}

/// The reply to a permission request for a decision.
pub fn acp_permission_response(m: &JsonValue, decision: ApprovalDecision) -> (r: JsonValue)
    ensures
        r@ == permission_reply_of(m@, decision@),
{
    match decision {
        ApprovalDecision::Cancel => obj1("outcome", obj1("outcome", jstr("cancelled"))),
        ApprovalDecision::ProviderSpecific { payload } => payload,
        ApprovalDecision::Accept | ApprovalDecision::AcceptForSession => selected_option_response(
            m,
            "allow_once",
            "allow_always",
            "allow_once",
        ),
        ApprovalDecision::Decline => selected_option_response(m, "reject_once", "reject_always", "reject_once"),
    }
}

/// The last component of a path, when it names something (`Path::file_name`).
pub open spec fn file_name_of(p: Seq<char>) -> Option<Seq<char>> {
    let c = path_components(p);
    if c.len() == 0 {
        None
    } else if c.last() == "/"@ || c.last() == "."@ || c.last() == ".."@ {
        None
    } else {
        Some(c.last())
    }
}

/// A character kept in a log file label: ASCII letters and digits, `-` and `_`.
pub open spec fn label_char(c: char) -> char {
    if ('a' <= c <= 'z') || ('A' <= c <= 'Z') || ('0' <= c <= '9') || c == '-' || c == '_' {
        c
    } else {
        '_'
    }
}

/// The label of a workspace in log file names: its directory name (or `workspace`)
/// with every other character replaced by `_`.
pub open spec fn workspace_label_of(p: Seq<char>) -> Seq<char> {
    let raw = match file_name_of(p) {
        Some(n) => if n.len() > 0 {
            n
        } else {
            "workspace"@
        },
        None => "workspace"@,
    };
    raw.map_values(|c: char| label_char(c))
}

/// The label of a workspace in log file names.
pub fn raw_log_workspace_label(path: &str) -> (r: String)
    ensures
        r@ == workspace_label_of(path@),
{
    proof {
        reveal_strlit("/");
        reveal_strlit(".");
        reveal_strlit("..");
    }
    let c = components(path);
    let raw: &str = if c.len() == 0 {
        "workspace"
    } else {
        let last = c[c.len() - 1].as_str();
        if str_eq(last, "/") || str_eq(last, ".") || str_eq(last, "..") || last.unicode_len() == 0 {
            "workspace"
        } else {
            last
        }
    };
    let n = raw.unicode_len();
    let mut out = String::new();
    let mut i: usize = 0;
    while i < n
        invariant
            n == raw@.len(),
            i <= n,
            out@ =~= raw@.subrange(0, i as int).map_values(|c: char| label_char(c)),
        decreases n - i,
    {
        let ch = raw.get_char(i);
        let keep = ('a' <= ch && ch <= 'z') || ('A' <= ch && ch <= 'Z') || ('0' <= ch && ch <= '9') || ch == '-'
            || ch == '_';
        crate::text::push_char(&mut out, if keep { ch } else { '_' });
        i = i + 1;
    }
    proof {
        assert(raw@.subrange(0, n as int) =~= raw@);
    }
    out
}

} // verus!

verus! {

/// Whether a permission option is of the given kind.
pub open spec fn option_kind_is(option: Json, kind: Seq<char>) -> bool {
    json_get(option, "kind"@) == Some(Json::Str(kind))
}

/// The id of a permission option, or `fallback` when it names none.
pub open spec fn option_id_or(option: Json, fallback: Seq<char>) -> Seq<char> {
    match json_get(option, "optionId"@) {
        Some(Json::Str(id)) => id,
        _ => fallback,
    }
}

/// The reply that selects the option `id`.
pub open spec fn selecting(id: Seq<char>) -> Json {
    Json::Object(
        seq![("outcome"@, Json::Object(seq![("optionId"@, Json::Str(id)), ("outcome"@, Json::Str("selected"@))]))],
    )
}

proof fn lemma_first_option_of_kind(os: Seq<Json>, kind: Seq<char>, j: int)
    requires
        0 <= j < os.len(),
        option_kind_is(os[j], kind),
        forall|k: int| 0 <= k < j ==> !option_kind_is(#[trigger] os[k], kind),
    ensures
        option_of_kind(os, kind) == Some(os[j]),
    decreases j,
{
    if j > 0 {
        assert(!option_kind_is(os[0], kind));
        assert forall|k: int| 0 <= k < j - 1 implies !option_kind_is(#[trigger] os.drop_first()[k], kind) by {
            assert(os.drop_first()[k] == os[k + 1]);
        }
        lemma_first_option_of_kind(os.drop_first(), kind, j - 1);
    }
}

proof fn lemma_no_option_of_kind(os: Seq<Json>, kind: Seq<char>)
    requires
        forall|k: int| 0 <= k < os.len() ==> !option_kind_is(#[trigger] os[k], kind),
    ensures
        option_of_kind(os, kind) is None,
    decreases os.len(),
{
    if os.len() > 0 {
        assert(!option_kind_is(os[0], kind));
        assert forall|k: int| 0 <= k < os.len() - 1 implies !option_kind_is(#[trigger] os.drop_first()[k], kind) by {
            assert(os.drop_first()[k] == os[k + 1]);
        }
        lemma_no_option_of_kind(os.drop_first(), kind);
    }
}

/// Accepting a permission request selects its first one-time option (`allow_once`)
/// whenever it offers one: a one-time approval never grants a standing permission.
pub proof fn law_accepting_selects_the_one_time_option(m: Json, os: Seq<Json>, j: int, d: DecisionView)
    requires
        json_path(m, seq!["params"@, "options"@]) == Some(Json::Array(os)),
        0 <= j < os.len(),
        option_kind_is(os[j], "allow_once"@),
        forall|k: int| 0 <= k < j ==> !option_kind_is(#[trigger] os[k], "allow_once"@),
        d == DecisionView::Accept || d == DecisionView::AcceptForSession,
    ensures
        permission_reply_of(m, d) == selecting(option_id_or(os[j], "allow_once"@)),
{
    lemma_first_option_of_kind(os, "allow_once"@, j);
}

/// Accepting a permission request that offers no one-time option selects its first
/// standing option (`allow_always`); an option without an id is answered as
/// `allow_once`.
pub proof fn law_accepting_falls_back_to_the_standing_option(m: Json, os: Seq<Json>, j: int, d: DecisionView)
    requires
        json_path(m, seq!["params"@, "options"@]) == Some(Json::Array(os)),
        forall|k: int| 0 <= k < os.len() ==> !option_kind_is(#[trigger] os[k], "allow_once"@),
        0 <= j < os.len(),
        option_kind_is(os[j], "allow_always"@),
        forall|k: int| 0 <= k < j ==> !option_kind_is(#[trigger] os[k], "allow_always"@),
        d == DecisionView::Accept || d == DecisionView::AcceptForSession,
    ensures
        permission_reply_of(m, d) == selecting(option_id_or(os[j], "allow_once"@)),
{
    lemma_no_option_of_kind(os, "allow_once"@);
    lemma_first_option_of_kind(os, "allow_always"@, j);
}

/// Declining a permission request selects its first one-time refusal (`reject_once`)
/// whenever it offers one.
pub proof fn law_declining_selects_the_one_time_refusal(m: Json, os: Seq<Json>, j: int)
    requires
        json_path(m, seq!["params"@, "options"@]) == Some(Json::Array(os)),
        0 <= j < os.len(),
        option_kind_is(os[j], "reject_once"@),
        forall|k: int| 0 <= k < j ==> !option_kind_is(#[trigger] os[k], "reject_once"@),
    ensures
        permission_reply_of(m, DecisionView::Decline) == selecting(option_id_or(os[j], "reject_once"@)),
{
    lemma_first_option_of_kind(os, "reject_once"@, j);
}

/// Cancelling a permission request answers `cancelled`, whatever it offers.
pub proof fn law_cancelling_answers_cancelled(m: Json)
    ensures
        permission_reply_of(m, DecisionView::Cancel) == Json::Object(
            seq![("outcome"@, Json::Object(seq![("outcome"@, Json::Str("cancelled"@))]))],
        ),
{
}

/// A decision that carries the provider's own reply is sent as it is.
pub proof fn law_provider_replies_are_sent_as_they_are(m: Json, p: Json)
    ensures
        permission_reply_of(m, DecisionView::ProviderSpecific(p)) == p,
{
}

/// When the request offers options but none of the kinds asked for, the last option is
/// selected; when it offers no options at all, the decision's own one-time kind is
/// named.
pub proof fn law_permission_replies_without_a_matching_option(m: Json, os: Seq<Json>, d: DecisionView)
    requires
        d == DecisionView::Accept || d == DecisionView::AcceptForSession,
        json_path(m, seq!["params"@, "options"@]) == Some(Json::Array(os)),
        forall|k: int|
            0 <= k < os.len() ==> !option_kind_is(#[trigger] os[k], "allow_once"@) && !option_kind_is(
                os[k],
                "allow_always"@,
            ),
    ensures
        os.len() > 0 ==> permission_reply_of(m, d) == selecting(option_id_or(os.last(), "allow_once"@)),
        os.len() == 0 ==> permission_reply_of(m, d) == selecting("allow_once"@),
{
    lemma_no_option_of_kind(os, "allow_once"@);
    lemma_no_option_of_kind(os, "allow_always"@);
}

/// A request that lists no options is answered with the one-time kind of the decision.
pub proof fn law_permission_replies_without_options(m: Json)
    requires
        json_path(m, seq!["params"@, "options"@]) is None,
    ensures
        permission_reply_of(m, DecisionView::Accept) == selecting("allow_once"@),
        permission_reply_of(m, DecisionView::AcceptForSession) == selecting("allow_once"@),
        permission_reply_of(m, DecisionView::Decline) == selecting("reject_once"@),
{
}

} // verus!
