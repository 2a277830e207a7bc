//! Turn settings sent to Codex and the model and mode options read back from it.
use vstd::prelude::*;
use crate::json::{Json, JsonValue, json_get, json_path, json_as_str, json_as_array, first_str, first_bool,
    get, at, as_str, as_array, values_view, obj2, jstr, path_view, entries_view, lemma_object_view};
use crate::message_paths::{model_id_at, model_id_paths, model_display_at, model_display_paths,
    model_is_default_at, model_is_default_paths, model_default_effort_at, model_default_effort_paths,
    effort_item_at, effort_item_paths, mode_id_at, mode_id_paths, mode_label_at, mode_label_paths,
    mode_effort_at, mode_effort_paths};
use crate::codex::text_or;
use crate::codex_questions::{member_text, member_str, strings_among, strings_among_exec};
use crate::events::opt_s;
use crate::model::SessionId;
use crate::text::{owned, str_eq, strings_view};

verus! {

/// How hard a model reasons.
#[derive(Clone, Copy, Debug, PartialEq, Eq, Structural)]
pub enum AgentReasoningEffort {
    Off,
    Minimal,
    Low,
    Medium,
    High,
    Xhigh,
}

/// The effort a wire word names.
pub open spec fn effort_of(s: Seq<char>) -> Option<AgentReasoningEffort> {
    if s == "none"@ {
        Some(AgentReasoningEffort::Off)
    } else if s == "minimal"@ {
        Some(AgentReasoningEffort::Minimal)
    } else if s == "low"@ {
        Some(AgentReasoningEffort::Low)
    } else if s == "medium"@ {
        Some(AgentReasoningEffort::Medium)
    } else if s == "high"@ {
        Some(AgentReasoningEffort::High)
    } else if s == "xhigh"@ {
        Some(AgentReasoningEffort::Xhigh)
    } else {
        None
    }
}

/// The wire word of an effort.
pub open spec fn effort_wire(e: AgentReasoningEffort) -> Seq<char> {
    match e {
        AgentReasoningEffort::Off => "none"@,
        AgentReasoningEffort::Minimal => "minimal"@,
        AgentReasoningEffort::Low => "low"@,
        AgentReasoningEffort::Medium => "medium"@,
        AgentReasoningEffort::High => "high"@,
        AgentReasoningEffort::Xhigh => "xhigh"@,
    }
}

/// The effort a wire word names.
pub fn agent_reasoning_effort(value: &str) -> (r: Option<AgentReasoningEffort>)
    ensures
        r == effort_of(value@),
{
    if str_eq(value, "none") {
        Some(AgentReasoningEffort::Off)
    } else if str_eq(value, "minimal") {
        Some(AgentReasoningEffort::Minimal)
    } else if str_eq(value, "low") {
        Some(AgentReasoningEffort::Low)
    } else if str_eq(value, "medium") {
        Some(AgentReasoningEffort::Medium)
    } else if str_eq(value, "high") {
        Some(AgentReasoningEffort::High)
    } else if str_eq(value, "xhigh") {
        Some(AgentReasoningEffort::Xhigh)
    } else {
        None
    }
}

/// The wire word of an effort.
pub fn codex_reasoning_effort(effort: &AgentReasoningEffort) -> (r: &'static str)
    ensures
        r@ == effort_wire(*effort),
{
    match effort {
        AgentReasoningEffort::Off => "none",
        AgentReasoningEffort::Minimal => "minimal",
        AgentReasoningEffort::Low => "low",
        AgentReasoningEffort::Medium => "medium",
        AgentReasoningEffort::High => "high",
        AgentReasoningEffort::Xhigh => "xhigh",
    }
}

/// An effort sent to Codex is read back as the same effort.
pub proof fn law_effort_round_trip(e: AgentReasoningEffort)
    ensures
        effort_of(effort_wire(e)) == Some(e),
{
    reveal_strlit("none");
    reveal_strlit("minimal");
    reveal_strlit("low");
    reveal_strlit("medium");
    reveal_strlit("high");
    reveal_strlit("xhigh");
    assert("none"@.len() == 4 && "low"@.len() == 3 && "high"@.len() == 4 && "xhigh"@.len() == 5);
    assert("minimal"@.len() == 7 && "medium"@.len() == 6);
    assert("none"@ != "high"@) by {
        assert("none"@[0] != "high"@[0]);
    }
}

/// The settings a user chose for a turn.
#[derive(Clone, Debug, PartialEq, Eq)]
pub struct AgentTurnSettings {
    pub model: Option<String>,
    pub reasoning_effort: Option<AgentReasoningEffort>,
    pub collaboration_mode: Option<String>,
}

/// A turn the runner starts on Codex.
#[derive(Clone, Debug)]
pub struct CodexTurnRequest {
    pub session_id: SessionId,
    pub workspace_path: String,
    pub external_session_id: Option<String>,
    pub prompt: String,
    pub settings: Option<AgentTurnSettings>,
}

/// The parameters of `thread/start`: the workspace, approvals on request by the user,
/// a read-only sandbox, started by the provider's own startup.
pub open spec fn thread_start_params_of(workspace: Seq<char>) -> Json {
    Json::Object(
        seq![
            ("approvalPolicy"@, Json::Str("on-request"@)),
            ("approvalsReviewer"@, Json::Str("user"@)),
            ("cwd"@, Json::Str(workspace)),
            ("sandbox"@, Json::Str("read-only"@)),
            ("sessionStartSource"@, Json::Str("startup"@)),
        ],
    )
}

fn object_of(entries: Vec<(String, JsonValue)>) -> (r: JsonValue)
    ensures
        r@ == Json::Object(entries_view(entries@)),
{
    proof {
        lemma_object_view(entries);
    }
    JsonValue::Object(entries)
}

fn push_entry(entries: &mut Vec<(String, JsonValue)>, key: &str, value: JsonValue)
    ensures
        entries_view(final(entries)@) == entries_view(old(entries)@).push((key@, value@)),
{
    let ghost before = entries@;
    let ghost vv = value@;
    entries.push((owned(key), value));
    proof {
        assert(entries_view(entries@) =~= entries_view(before).push((key@, vv)));
    }
}

/// The parameters of `thread/start`.
pub fn codex_thread_start_params(workspace_path: &str) -> (r: JsonValue)
    ensures
        r@ == thread_start_params_of(workspace_path@),
{
    let mut e: Vec<(String, JsonValue)> = Vec::new();
    proof {
        assert(entries_view(e@) =~= Seq::<(Seq<char>, Json)>::empty());
    }
    push_entry(&mut e, "approvalPolicy", jstr("on-request"));
    push_entry(&mut e, "approvalsReviewer", jstr("user"));
    push_entry(&mut e, "cwd", jstr(workspace_path));
    push_entry(&mut e, "sandbox", jstr("read-only"));
    push_entry(&mut e, "sessionStartSource", jstr("startup"));
    proof {
        assert(entries_view(e@) =~= seq![
            ("approvalPolicy"@, Json::Str("on-request"@)),
            ("approvalsReviewer"@, Json::Str("user"@)),
            ("cwd"@, Json::Str(workspace_path@)),
            ("sandbox"@, Json::Str("read-only"@)),
            ("sessionStartSource"@, Json::Str("startup"@)),
        ]);
    }
    object_of(e)
}

pub struct TurnSettingsView {
    pub model: Option<Seq<char>>,
    pub reasoning_effort: Option<AgentReasoningEffort>,
    pub collaboration_mode: Option<Seq<char>>,
}

pub open spec fn settings_view(s: Option<AgentTurnSettings>) -> Option<TurnSettingsView> {
    match s {
        Some(x) => Some(
            TurnSettingsView {
                model: opt_s(x.model),
                reasoning_effort: x.reasoning_effort,
                collaboration_mode: opt_s(x.collaboration_mode),
            },
        ),
        None => None,
    }
}

/// `entries` with `(key, value)` added when `value` is present.
pub open spec fn with_entry(
    entries: Seq<(Seq<char>, Json)>,
    key: Seq<char>,
    value: Option<Json>,
) -> Seq<(Seq<char>, Json)> {
    match value {
        Some(v) => entries.push((key, v)),
        None => entries,
    }
}

/// The collaboration mode payload: the mode, with the model (or `null`) and the
/// effort (or `null`) it runs with.
pub open spec fn collaboration_mode_of(mode: Seq<char>, s: TurnSettingsView) -> Json {
    Json::Object(
        seq![
            ("mode"@, Json::Str(mode)),
            (
                "settings"@,
                Json::Object(
                    seq![
                        ("model"@, text_or_null(s.model)),
                        ("reasoning_effort"@, effort_or_null(s.reasoning_effort)),
                    ],
                ),
            ),
        ],
    )
}

/// Some text as a string, nothing as `null`.
pub open spec fn text_or_null(o: Option<Seq<char>>) -> Json {
    if o is Some {
        Json::Str(o.unwrap())
    } else {
        Json::Null
    }
}

/// Some effort as its wire word, nothing as `null`.
pub open spec fn effort_or_null(o: Option<AgentReasoningEffort>) -> Json {
    if o is Some {
        Json::Str(effort_wire(o.unwrap()))
    } else {
        Json::Null
    }
}

/// The parameters of `turn/start`: the thread, the workspace, approvals on request, a
/// read-only sandbox without network, the prompt as text input, and the chosen model,
/// effort and collaboration mode when there are any.
pub open spec fn turn_start_params_of(thread_id: Seq<char>, workspace: Seq<char>, prompt: Seq<char>, settings: Option<TurnSettingsView>) -> Json {
    let e0 = seq![("approvalPolicy"@, Json::Str("on-request"@)), ("approvalsReviewer"@, Json::Str("user"@))];
    let e1 = with_entry(e0, "collaborationMode"@, turn_mode_of(settings)).push(("cwd"@, Json::Str(workspace)));
    let e2 = with_entry(e1, "effort"@, turn_effort_of(settings)).push(("input"@, prompt_input(prompt)));
    let e3 = with_entry(e2, "model"@, turn_model_of(settings)).push(("sandboxPolicy"@, read_only_sandbox())).push(
        ("threadId"@, Json::Str(thread_id)),
    );
    Json::Object(e3)
}

/// The chosen model, as a parameter.
pub open spec fn turn_model_of(settings: Option<TurnSettingsView>) -> Option<Json> {
    match settings {
        Some(s) => match s.model {
            Some(m) => Some(Json::Str(m)),
            None => None,
        },
        None => None,
    }
}

/// The chosen effort, as a parameter.
pub open spec fn turn_effort_of(settings: Option<TurnSettingsView>) -> Option<Json> {
    match settings {
        Some(s) => match s.reasoning_effort {
            Some(e) => Some(Json::Str(effort_wire(e))),
            None => None,
        },
        None => None,
    }
}

/// The chosen collaboration mode, as a parameter.
pub open spec fn turn_mode_of(settings: Option<TurnSettingsView>) -> Option<Json> {
    match settings {
        Some(s) => match s.collaboration_mode {
            Some(m) => Some(collaboration_mode_of(m, s)),
            None => None,
        },
        None => None,
    }
}

/// The prompt as text input.
pub open spec fn prompt_input(prompt: Seq<char>) -> Json {
    Json::Array(seq![Json::Object(seq![("text"@, Json::Str(prompt)), ("type"@, Json::Str("text"@))])])
}

/// A read-only sandbox without network.
pub open spec fn read_only_sandbox() -> Json {
    Json::Object(seq![("networkAccess"@, Json::Bool(false)), ("type"@, Json::Str("readOnly"@))])
}

pub open spec fn opt_value_view(o: Option<JsonValue>) -> Option<Json> {
    match o {
        Some(v) => Some(v@),
        None => None,
    }
}

fn turn_settings_values(settings: &Option<AgentTurnSettings>) -> (r: (Option<JsonValue>, Option<JsonValue>, Option<JsonValue>))
    ensures
        opt_value_view(r.0) == turn_model_of(settings_view(*settings)),
        opt_value_view(r.1) == turn_effort_of(settings_view(*settings)),
        opt_value_view(r.2) == turn_mode_of(settings_view(*settings)),
{
    match settings {
        Some(s) => {
            let model = match &s.model {
                Some(m) => Some(jstr(m.as_str())),
                None => None,
            };
            let effort = match &s.reasoning_effort {
                Some(e) => Some(jstr(codex_reasoning_effort(e))),
                None => None,
            };
            let mode = match &s.collaboration_mode {
                Some(m) => {
                    let model_value = match &s.model {
                        Some(x) => jstr(x.as_str()),
                        None => JsonValue::Null,
                    };
                    let effort_value = match &s.reasoning_effort {
                        Some(e) => jstr(codex_reasoning_effort(e)),
                        None => JsonValue::Null,
                    };
                    Some(obj2("mode", jstr(m.as_str()), "settings", obj2("model", model_value, "reasoning_effort", effort_value)))
                },
                None => None,
            };
            (model, effort, mode)
        },
        None => (None, None, None),
    }
}

fn push_opt_entry(entries: &mut Vec<(String, JsonValue)>, key: &str, value: Option<JsonValue>)
    ensures
        entries_view(final(entries)@) == with_entry(
            entries_view(old(entries)@),
            key@,
            match value {
                Some(v) => Some(v@),
                None => None,
            },
        ),
{
    match value {
        Some(v) => push_entry(entries, key, v),
        None => {},
    }
}

/// The parameters of `turn/start`.
pub fn codex_turn_start_params(thread_id: &str, request: &CodexTurnRequest) -> (r: JsonValue)
    ensures
        r@ == turn_start_params_of(thread_id@, request.workspace_path@, request.prompt@, settings_view(request.settings)),
{
    let (model, effort, mode) = turn_settings_values(&request.settings);
    let mut e: Vec<(String, JsonValue)> = Vec::new();
    proof {
        assert(entries_view(e@) =~= Seq::<(Seq<char>, Json)>::empty());
    }
    push_entry(&mut e, "approvalPolicy", jstr("on-request"));
    push_entry(&mut e, "approvalsReviewer", jstr("user"));
    push_opt_entry(&mut e, "collaborationMode", mode);
    push_entry(&mut e, "cwd", jstr(request.workspace_path.as_str()));
    push_opt_entry(&mut e, "effort", effort);
    let text_item = obj2("text", jstr(request.prompt.as_str()), "type", jstr("text"));
    let ghost tv = text_item@;
    let mut input = Vec::new();
    input.push(text_item);
    let input = JsonValue::Array(input);
    proof {
        match input@ {
            Json::Array(x) => {
                assert(x =~= seq![tv]);
            },
            _ => {},
        }
        assert(input@ == prompt_input(request.prompt@));
    }
    push_entry(&mut e, "input", input);
    push_opt_entry(&mut e, "model", model);
    push_entry(&mut e, "sandboxPolicy", obj2("networkAccess", JsonValue::Bool(false), "type", jstr("readOnly")));
    push_entry(&mut e, "threadId", jstr(thread_id));
    proof {
        let settings = settings_view(request.settings);
        let e0 = seq![("approvalPolicy"@, Json::Str("on-request"@)), ("approvalsReviewer"@, Json::Str("user"@))];
        let e1 = with_entry(e0, "collaborationMode"@, turn_mode_of(settings)).push(
            ("cwd"@, Json::Str(request.workspace_path@)),
        );
        let e2 = with_entry(e1, "effort"@, turn_effort_of(settings)).push(("input"@, prompt_input(request.prompt@)));
        let e3 = with_entry(e2, "model"@, turn_model_of(settings)).push(("sandboxPolicy"@, read_only_sandbox())).push(
            ("threadId"@, Json::Str(thread_id@)),
        );
        assert(seq![("approvalPolicy"@, Json::Str("on-request"@))].push(("approvalsReviewer"@, Json::Str("user"@))) =~= e0);
        assert(entries_view(e@) =~= e3);
    }
    object_of(e)
}

// ---------------------------------------------------------------------------
// Model and mode options
// ---------------------------------------------------------------------------

/// A model the user can choose.
#[derive(Clone, Debug, PartialEq, Eq)]
pub struct AgentModelOption {
    pub id: String,
    pub display_name: String,
    pub description: Option<String>,
    pub is_default: bool,
    pub default_reasoning_effort: Option<AgentReasoningEffort>,
    pub supported_reasoning_efforts: Vec<AgentReasoningEffort>,
    pub input_modalities: Vec<String>,
}

pub struct ModelView {
    pub id: Seq<char>,
    pub display_name: Seq<char>,
    pub description: Option<Seq<char>>,
    pub is_default: bool,
    pub default_reasoning_effort: Option<AgentReasoningEffort>,
    pub supported_reasoning_efforts: Seq<AgentReasoningEffort>,
    pub input_modalities: Seq<Seq<char>>,
}

impl View for AgentModelOption {
    type V = ModelView;

    open spec fn view(&self) -> ModelView {
        ModelView {
            id: self.id@,
            display_name: self.display_name@,
            description: opt_s(self.description),
            is_default: self.is_default,
            default_reasoning_effort: self.default_reasoning_effort,
            supported_reasoning_efforts: self.supported_reasoning_efforts@,
            input_modalities: strings_view(self.input_modalities@),
        }
    }
}

pub open spec fn models_view(v: Seq<AgentModelOption>) -> Seq<ModelView> {
    v.map_values(|m: AgentModelOption| m@)
}

/// A collaboration mode the user can choose.
#[derive(Clone, Debug, PartialEq, Eq)]
pub struct AgentCollaborationMode {
    pub id: String,
    pub label: String,
    pub model: Option<String>,
    pub reasoning_effort: Option<AgentReasoningEffort>,
}

pub struct ModeView {
    pub id: Seq<char>,
    pub label: Seq<char>,
    pub model: Option<Seq<char>>,
    pub reasoning_effort: Option<AgentReasoningEffort>,
}

impl View for AgentCollaborationMode {
    type V = ModeView;

    open spec fn view(&self) -> ModeView {
        ModeView { id: self.id@, label: self.label@, model: opt_s(self.model), reasoning_effort: self.reasoning_effort }
    }
}

pub open spec fn modes_view(v: Seq<AgentCollaborationMode>) -> Seq<ModeView> {
    v.map_values(|m: AgentCollaborationMode| m@)
}

/// The models and modes a user can choose.
#[derive(Clone, Debug, PartialEq, Eq)]
pub struct AgentOptions {
    pub models: Vec<AgentModelOption>,
    pub collaboration_modes: Vec<AgentCollaborationMode>,
}

/// `result.data` of a list response, as items.
pub open spec fn data_items(m: Json) -> Seq<Json> {
    match json_path(m, seq!["result"@, "data"@]) {
        Some(x) => match json_as_array(x) {
            Some(a) => a,
            None => Seq::empty(),
        },
        None => Seq::empty(),
    }
}

fn data_items_exec(m: &JsonValue) -> (r: Option<&Vec<JsonValue>>)
    ensures
        match r {
            Some(a) => values_view(a@) == data_items(m@),
            None => data_items(m@) == Seq::<Json>::empty(),
        },
{
    let path: [&str; 2] = ["result", "data"];
    proof {
        assert(path_view(path@) =~= seq!["result"@, "data"@]);
    }
    match at(m, &path) {
        Some(x) => as_array(x),
        None => None,
    }
}

/// The member `a`, else the member `b`, when it is an array.
pub open spec fn either_items(v: Json, a: Seq<char>, b: Seq<char>) -> Seq<Json> {
    let found = match json_get(v, a) {
        Some(x) => Some(x),
        None => json_get(v, b),
    };
    match found {
        Some(x) => match json_as_array(x) {
            Some(items) => items,
            None => Seq::empty(),
        },
        None => Seq::empty(),
    }
}

fn either_items_exec<'a>(v: &'a JsonValue, a: &str, b: &str) -> (r: Option<&'a Vec<JsonValue>>)
    ensures
        match r {
            Some(x) => values_view(x@) == either_items(v@, a@, b@),
            None => either_items(v@, a@, b@) == Seq::<Json>::empty(),
        },
{
    let found = match get(v, a) {
        Some(x) => Some(x),
        None => get(v, b),
    };
    match found {
        Some(x) => as_array(x),
        None => None,
    }
}

/// The efforts a model supports: each entry naming a known effort, as text or by
/// `effort`, `id` or `value`.
pub open spec fn efforts_of(a: Seq<Json>) -> Seq<AgentReasoningEffort>
    decreases a.len(),
{
    if a.len() == 0 {
        Seq::empty()
    } else {
        let word = match json_as_str(a.last()) {
            Some(s) => Some(s),
            None => first_str(a.last(), effort_item_paths()),
        };
        let effort = match word {
            Some(w) => effort_of(w),
            None => None,
        };
        match effort {
            Some(e) => efforts_of(a.drop_last()).push(e),
            None => efforts_of(a.drop_last()),
        }
    }
}

fn efforts(a: &Vec<JsonValue>) -> (r: Vec<AgentReasoningEffort>)
    ensures
        r@ == efforts_of(values_view(a@)),
{
    let ghost av = values_view(a@);
    let mut out: Vec<AgentReasoningEffort> = Vec::new();
    let mut i: usize = 0;
    proof {
        assert(av.subrange(0, 0) =~= Seq::<Json>::empty());
    }
    while i < a.len()
        invariant
            i <= a.len(),
            av == values_view(a@),
            out@ == efforts_of(av.subrange(0, i as int)),
        decreases a.len() - i,
    {
        proof {
            assert(av.subrange(0, i + 1).drop_last() =~= av.subrange(0, i as int));
            assert(av.subrange(0, i + 1).last() == a@[i as int]@);
        }
        let word = match as_str(&a[i]) {
            Some(s) => Some(s),
            None => effort_item_at(&a[i]),
        };
        let effort = match word {
            Some(w) => agent_reasoning_effort(w),
            None => None,
        };
        match effort {
            Some(e) => {
                out.push(e);
            },
            None => {},
        }
        i = i + 1;
    }
    proof {
        assert(av.subrange(0, a@.len() as int) =~= av);
    }
    out
}

/// The option of one model entry, unless it is hidden or has no id.
pub open spec fn model_of(m: Json) -> Option<ModelView> {
    if first_bool(m, seq![seq!["hidden"@]]) == Some(true) {
        None
    } else {
        match first_str(m, model_id_paths()) {
            Some(id) => Some(
                ModelView {
                    id,
                    display_name: text_or(first_str(m, model_display_paths()), id),
                    description: member_text(m, "description"@),
                    is_default: first_bool(m, model_is_default_paths()) == Some(true),
                    default_reasoning_effort: match first_str(m, model_default_effort_paths()) {
                        Some(w) => effort_of(w),
                        None => None,
                    },
                    supported_reasoning_efforts: efforts_of(
                        either_items(m, "supportedReasoningEfforts"@, "supported_reasoning_efforts"@),
                    ),
                    input_modalities: strings_among(either_items(m, "inputModalities"@, "input_modalities"@)),
                },
            ),
            None => None,
        }
    }
}

/// The options of the model entries.
pub open spec fn models_of(a: Seq<Json>) -> Seq<ModelView>
    decreases a.len(),
{
    if a.len() == 0 {
        Seq::empty()
    } else {
        match model_of(a.last()) {
            Some(m) => models_of(a.drop_last()).push(m),
            None => models_of(a.drop_last()),
        }
    }
}

fn model_option(m: &JsonValue) -> (r: Option<AgentModelOption>)
    ensures
        match r {
            Some(x) => model_of(m@) == Some(x@),
            None => model_of(m@) is None,
        },
{
    let hidden_path: [&[&str]; 1] = [&["hidden"]];
    proof {
        assert(crate::json::paths_view(hidden_path@) =~~= seq![seq!["hidden"@]]);
    }
    if crate::json::first_bool_at(m, &hidden_path) == Some(true) {
        return None;
    }
    let id = match model_id_at(m) {
        Some(id) => id,
        None => return None,
    };
    let display_name = match model_display_at(m) {
        Some(d) => owned(d),
        None => owned(id),
    };
    let description = match member_str(m, "description") {
        Some(d) => Some(owned(d)),
        None => None,
    };
    let default_reasoning_effort = match model_default_effort_at(m) {
        Some(w) => agent_reasoning_effort(w),
        None => None,
    };
    let supported = match either_items_exec(m, "supportedReasoningEfforts", "supported_reasoning_efforts") {
        Some(a) => efforts(a),
        None => {
            let v = Vec::new();
            proof {
                assert(v@ =~= efforts_of(Seq::<Json>::empty()));
            }
            v
        },
    };
    let modalities = match either_items_exec(m, "inputModalities", "input_modalities") {
        Some(a) => strings_among_exec(a),
        None => {
            let v = Vec::new();
            proof {
                assert(strings_view(v@) =~= strings_among(Seq::<Json>::empty()));
            }
            v
        },
    };
    Some(AgentModelOption {
        id: owned(id),
        display_name,
        description,
        is_default: model_is_default_at(m) == Some(true),
        default_reasoning_effort,
        supported_reasoning_efforts: supported,
        input_modalities: modalities,
    })
}

/// The models of a `model/list` response, hidden ones left out.
pub fn codex_model_options(m: &JsonValue) -> (r: Vec<AgentModelOption>)
    ensures
        models_view(r@) == models_of(data_items(m@)),
{
    let mut out: Vec<AgentModelOption> = Vec::new();
    proof {
        assert(models_view(out@) =~= Seq::<ModelView>::empty());
    }
    match data_items_exec(m) {
        Some(a) => {
            let ghost av = values_view(a@);
            let mut i: usize = 0;
            proof {
                assert(av.subrange(0, 0) =~= Seq::<Json>::empty());
            }
            while i < a.len()
                invariant
                    i <= a.len(),
                    av == values_view(a@),
                    models_view(out@) == models_of(av.subrange(0, i as int)),
                decreases a.len() - i,
            {
                proof {
                    assert(av.subrange(0, i + 1).drop_last() =~= av.subrange(0, i as int));
                    assert(av.subrange(0, i + 1).last() == a@[i as int]@);
                }
                match model_option(&a[i]) {
                    Some(x) => {
                        let ghost before = out@;
                        let ghost xv = x@;
                        out.push(x);
                        proof {
                            assert(models_view(out@) =~= models_view(before).push(xv));
                        }
                    },
                    None => {},
                }
                i = i + 1;
            }
            proof {
                assert(av.subrange(0, a@.len() as int) =~= av);
            }
        },
        None => {},
    }
    out
}

/// The mode of one mode entry, when it has an id.
pub open spec fn mode_of(m: Json) -> Option<ModeView> {
    match first_str(m, mode_id_paths()) {
        Some(id) => Some(
            ModeView {
                id,
                label: text_or(first_str(m, mode_label_paths()), id),
                model: member_text(m, "model"@),
                reasoning_effort: match first_str(m, mode_effort_paths()) {
                    Some(w) => effort_of(w),
                    None => None,
                },
            },
        ),
        None => None,
    }
}

/// The modes of the mode entries.
pub open spec fn modes_of(a: Seq<Json>) -> Seq<ModeView>
    decreases a.len(),
{
    if a.len() == 0 {
        Seq::empty()
    } else {
        match mode_of(a.last()) {
            Some(m) => modes_of(a.drop_last()).push(m),
            None => modes_of(a.drop_last()),
        }
    }
}

/// The collaboration modes of a `collaborationMode/list` response.
pub fn codex_collaboration_modes(m: &JsonValue) -> (r: Vec<AgentCollaborationMode>)
    ensures
        modes_view(r@) == modes_of(data_items(m@)),
{
    let mut out: Vec<AgentCollaborationMode> = Vec::new();
    proof {
        assert(modes_view(out@) =~= Seq::<ModeView>::empty());
    }
    match data_items_exec(m) {
        Some(a) => {
            let ghost av = values_view(a@);
            let mut i: usize = 0;
            proof {
                assert(av.subrange(0, 0) =~= Seq::<Json>::empty());
            }
            while i < a.len()
                invariant
                    i <= a.len(),
                    av == values_view(a@),
                    modes_view(out@) == modes_of(av.subrange(0, i as int)),
                decreases a.len() - i,
            {
                proof {
                    assert(av.subrange(0, i + 1).drop_last() =~= av.subrange(0, i as int));
                    assert(av.subrange(0, i + 1).last() == a@[i as int]@);
                }
                let x = &a[i];
                match mode_id_at(x) {
                    Some(id) => {
                        let mode = AgentCollaborationMode {
                            id: owned(id),
                            label: match mode_label_at(x) {
                                Some(l) => owned(l),
                                None => owned(id),
                            },
                            model: match member_str(x, "model") {
                                Some(s) => Some(owned(s)),
                                None => None,
                            },
                            reasoning_effort: match mode_effort_at(x) {
                                Some(w) => agent_reasoning_effort(w),
                                None => None,
                            },
                        };
                        let ghost before = out@;
                        let ghost mv = mode@;
                        out.push(mode);
                        proof {
                            assert(modes_view(out@) =~= modes_view(before).push(mv));
                        }
                    },
                    None => {},
                }
                i = i + 1;
            }
            proof {
                assert(av.subrange(0, a@.len() as int) =~= av);
            }
        },
        None => {},
    }
    out
}

/// The models and modes of the two list responses.
pub fn codex_agent_options_from_responses(models: &JsonValue, modes: &JsonValue) -> (r: AgentOptions)
    ensures
        models_view(r.models@) == models_of(data_items(models@)),
        modes_view(r.collaboration_modes@) == modes_of(data_items(modes@)),
{
    AgentOptions { models: codex_model_options(models), collaboration_modes: codex_collaboration_modes(modes) }
}


// ---------------------------------------------------------------------------
// Filling in a turn's settings
// ---------------------------------------------------------------------------

/// Whether a turn's settings name a collaboration mode but no model, so that the
/// provider's models and modes decide the rest.
pub open spec fn settings_need_options(s: Option<TurnSettingsView>) -> bool {
    match s {
        Some(x) => x.collaboration_mode is Some && x.model is None,
        None => false,
    }
}

/// The first mode with id `id`.
pub open spec fn find_mode(modes: Seq<ModeView>, id: Seq<char>) -> Option<ModeView>
    decreases modes.len(),
{
    if modes.len() == 0 {
        None
    } else if modes[0].id == id {
        Some(modes[0])
    } else {
        find_mode(modes.drop_first(), id)
    }
}

/// The id of the first default model.
pub open spec fn first_default_model(models: Seq<ModelView>) -> Option<Seq<char>>
    decreases models.len(),
{
    if models.len() == 0 {
        None
    } else if models[0].is_default {
        Some(models[0].id)
    } else {
        first_default_model(models.drop_first())
    }
}

/// The model a turn runs with when nothing else chose one: the first default model,
/// else the first model.
pub open spec fn fallback_model(models: Seq<ModelView>) -> Option<Seq<char>> {
    match first_default_model(models) {
        Some(id) => Some(id),
        None => if models.len() > 0 {
            Some(models[0].id)
        } else {
            None
        },
    }
}

/// A turn's settings filled in from the provider's models and modes, where they name a
/// mode but no model: the mode's model, and its effort unless one was chosen; then,
/// when still no model, the fallback model. Other settings stay as they are.
pub open spec fn normalized_settings_of(s: Option<TurnSettingsView>, models: Seq<ModelView>, modes: Seq<ModeView>) -> Option<
    TurnSettingsView,
> {
    if !settings_need_options(s) {
        s
    } else {
        let x = s.unwrap();
        let with_mode = match find_mode(modes, x.collaboration_mode.unwrap()) {
            Some(mode) => TurnSettingsView {
                model: mode.model,
                reasoning_effort: match x.reasoning_effort {
                    Some(e) => Some(e),
                    None => mode.reasoning_effort,
                },
                collaboration_mode: x.collaboration_mode,
            },
            None => x,
        };
        Some(
            match with_mode.model {
                Some(_) => with_mode,
                None => TurnSettingsView {
                    model: fallback_model(models),
                    reasoning_effort: with_mode.reasoning_effort,
                    collaboration_mode: with_mode.collaboration_mode,
                },
            },
        )
    }
}

/// Whether filling in `settings` needs the provider's models and modes.
pub fn turn_settings_need_options(settings: &Option<AgentTurnSettings>) -> (r: bool)
    ensures
        r == settings_need_options(settings_view(*settings)),
{
    match settings {
        Some(s) => s.collaboration_mode.is_some() && s.model.is_none(),
        None => false,
    }
}

fn mode_position(modes: &Vec<AgentCollaborationMode>, id: &str) -> (r: Option<usize>)
    ensures
        match r {
            Some(i) => i < modes@.len() && find_mode(modes_view(modes@), id@) == Some(modes@[i as int]@),
            None => find_mode(modes_view(modes@), id@) is None,
        },
{
    let ghost mv = modes_view(modes@);
    let mut i: usize = 0;
    proof {
        assert(mv.subrange(0, mv.len() as int) =~= mv);
    }
    while i < modes.len()
        invariant
            mv == modes_view(modes@),
            mv.len() == modes@.len(),
            i <= modes.len(),
            find_mode(mv, id@) == find_mode(mv.subrange(i as int, mv.len() as int), id@),
        decreases modes.len() - i,
    {
        let ghost rest = mv.subrange(i as int, mv.len() as int);
        assert(rest[0] == modes@[i as int]@);
        assert(rest.drop_first() =~= mv.subrange(i + 1, mv.len() as int));
        if str_eq(modes[i].id.as_str(), id) {
            return Some(i);
        }
        i = i + 1;
    }
    None
}

fn fallback_model_id(models: &Vec<AgentModelOption>) -> (r: Option<String>)
    ensures
        opt_s(r) == fallback_model(models_view(models@)),
{
    let ghost mv = models_view(models@);
    let mut i: usize = 0;
    proof {
        assert(mv.subrange(0, mv.len() as int) =~= mv);
    }
    while i < models.len()
        invariant
            mv == models_view(models@),
            mv.len() == models@.len(),
            i <= models.len(),
            first_default_model(mv) == first_default_model(mv.subrange(i as int, mv.len() as int)),
        decreases models.len() - i,
    {
        let ghost rest = mv.subrange(i as int, mv.len() as int);
        assert(rest[0] == models@[i as int]@);
        assert(rest.drop_first() =~= mv.subrange(i + 1, mv.len() as int));
        if models[i].is_default {
            return Some(owned(models[i].id.as_str()));
        }
        i = i + 1;
    }
    if models.len() > 0 {
        assert(mv[0] == models@[0]@);
        Some(owned(models[0].id.as_str()))
    } else {
        None
    }
}

/// A turn's settings filled in from the provider's models and modes (see
/// `normalized_settings_of`); settings that need no filling in come back unchanged.
pub fn normalize_turn_settings(settings: Option<AgentTurnSettings>, options: &AgentOptions) -> (r: Option<
    AgentTurnSettings,
>)
    ensures
        settings_view(r) == normalized_settings_of(
            settings_view(settings),
            models_view(options.models@),
            modes_view(options.collaboration_modes@),
        ),
{
    if !turn_settings_need_options(&settings) {
        return settings;
    }
    let s = match settings {
        Some(s) => s,
        None => return None,
    };
    let AgentTurnSettings { model, reasoning_effort, collaboration_mode } = s;
    let mode_id = match collaboration_mode {
        Some(m) => m,
        None => return None,
    };
    let (model, reasoning_effort) = match mode_position(&options.collaboration_modes, mode_id.as_str()) {
        Some(i) => {
            let mode = &options.collaboration_modes[i];
            let m = match &mode.model {
                Some(m) => Some(owned(m.as_str())),
                None => None,
            };
            let e = match reasoning_effort {
                Some(e) => Some(e),
                None => mode.reasoning_effort,
            };
            (m, e)
        },
        None => (model, reasoning_effort),
    };
    let model = match model {
        Some(m) => Some(m),
        None => fallback_model_id(&options.models),
    };
    Some(AgentTurnSettings { model, reasoning_effort, collaboration_mode: Some(mode_id) })
}


/// A model the user chose is never replaced, and neither is a reasoning effort the
/// user chose.
pub proof fn law_chosen_settings_are_kept(s: TurnSettingsView, models: Seq<ModelView>, modes: Seq<ModeView>)
    ensures
        s.model is Some ==> normalized_settings_of(Some(s), models, modes) == Some(s),
        s.reasoning_effort is Some ==> normalized_settings_of(Some(s), models, modes).unwrap().reasoning_effort
            == s.reasoning_effort,
        normalized_settings_of(Some(s), models, modes).unwrap().collaboration_mode == s.collaboration_mode,
{
}

} // verus!
