//! Provider slash commands: the commands the runner offers for Codex, and the JSON-RPC
//! request each one becomes.
use vstd::prelude::*;
use crate::json::{Json, JsonValue, json_get, json_as_str, first_str, first_bool, get, as_str, json_clone,
    obj1, obj2, obj3, jstr, entries_view, lemma_object_view, paths_view, first_bool_at};
use crate::message_paths::{review_base_at, review_base_paths, review_commit_at, review_commit_paths,
    review_custom_at, review_custom_paths};
use crate::codex_runtime::{SlashCommandDangerLevel, command_id_of, command_id_for_method, danger_level_of,
    danger_level_for_command};
use crate::events::opt_s;
use crate::provider_commands::{CodexProviderCommand, CommandView, category_name, provider_command_manifest,
    manifest};
use crate::text::{owned, str_eq, concat2, concat3, trim, trim_ws, strings_view};

verus! {

/// What kind of value a slash command argument takes.
#[derive(Clone, Copy, Debug, PartialEq, Eq, Structural)]
pub enum SlashCommandArgumentKind {
    Number,
    Rest,
}

/// Who runs a slash command.
#[derive(Clone, Copy, Debug, PartialEq, Eq, Structural)]
pub enum SlashCommandTarget {
    Provider,
}

/// One argument of a slash command.
#[derive(Clone, Debug, PartialEq, Eq)]
pub struct SlashCommandArgument {
    pub name: String,
    pub kind: SlashCommandArgumentKind,
    pub required: bool,
    pub description: Option<String>,
    pub choices: Vec<String>,
}

pub struct ArgumentView {
    pub name: Seq<char>,
    pub kind: SlashCommandArgumentKind,
    pub required: bool,
    pub description: Option<Seq<char>>,
    pub choices: Seq<Seq<char>>,
}

impl View for SlashCommandArgument {
    type V = ArgumentView;

    open spec fn view(&self) -> ArgumentView {
        ArgumentView {
            name: self.name@,
            kind: self.kind,
            required: self.required,
            description: opt_s(self.description),
            choices: strings_view(self.choices@),
        }
    }
}

pub open spec fn arguments_view(v: Seq<SlashCommandArgument>) -> Seq<ArgumentView> {
    v.map_values(|a: SlashCommandArgument| a@)
}

/// A slash command the runner offers.
#[derive(Clone, Debug, PartialEq, Eq)]
pub struct SlashCommandDefinition {
    pub id: String,
    pub name: String,
    pub aliases: Vec<String>,
    pub description: String,
    pub category: String,
    pub provider_id: Option<String>,
    pub target: SlashCommandTarget,
    pub danger_level: SlashCommandDangerLevel,
    pub arguments: Vec<SlashCommandArgument>,
    pub examples: Vec<String>,
}

pub struct DefinitionView {
    pub id: Seq<char>,
    pub name: Seq<char>,
    pub aliases: Seq<Seq<char>>,
    pub description: Seq<char>,
    pub category: Seq<char>,
    pub provider_id: Option<Seq<char>>,
    pub target: SlashCommandTarget,
    pub danger_level: SlashCommandDangerLevel,
    pub arguments: Seq<ArgumentView>,
    pub examples: Seq<Seq<char>>,
}

impl View for SlashCommandDefinition {
    type V = DefinitionView;

    open spec fn view(&self) -> DefinitionView {
        DefinitionView {
            id: self.id@,
            name: self.name@,
            aliases: strings_view(self.aliases@),
            description: self.description@,
            category: self.category@,
            provider_id: opt_s(self.provider_id),
            target: self.target,
            danger_level: self.danger_level,
            arguments: arguments_view(self.arguments@),
            examples: strings_view(self.examples@),
        }
    }
}

pub open spec fn definitions_view(v: Seq<SlashCommandDefinition>) -> Seq<DefinitionView> {
    v.map_values(|d: SlashCommandDefinition| d@)
}

/// A native Codex slash command with no arguments yet, safe, for the provider.
pub open spec fn slash(id: Seq<char>, name: Seq<char>, description: Seq<char>) -> DefinitionView {
    DefinitionView {
        id,
        name,
        aliases: Seq::empty(),
        description,
        category: "provider"@,
        provider_id: Some("codex"@),
        target: SlashCommandTarget::Provider,
        danger_level: SlashCommandDangerLevel::Safe,
        arguments: Seq::empty(),
        examples: Seq::empty(),
    }
}

/// A definition with one more argument.
pub open spec fn with_argument(
    d: DefinitionView,
    name: Seq<char>,
    kind: SlashCommandArgumentKind,
    required: bool,
    description: Seq<char>,
) -> DefinitionView {
    DefinitionView {
        arguments: d.arguments.push(
            ArgumentView { name, kind, required, description: Some(description), choices: Seq::empty() },
        ),
        ..d
    }
}

/// The native Codex slash commands.
pub open spec fn native_slash_commands() -> Seq<DefinitionView> {
    seq![
        slash("codex.compact"@, "compact"@, "Start native Codex context compaction."@),
        with_argument(
            slash("codex.review"@, "review"@, "Start a native Codex code review."@),
            "target"@,
            SlashCommandArgumentKind::Rest,
            false,
            "Review target flags"@,
        ),
        with_argument(
            slash("codex.steer"@, "steer"@, "Steer the active Codex turn."@),
            "input"@,
            SlashCommandArgumentKind::Rest,
            true,
            "Text to steer with"@,
        ),
        slash("codex.fork"@, "fork"@, "Fork the current Codex thread."@),
        slash("codex.archive"@, "archive"@, "Archive the current Codex thread."@),
        slash("codex.unarchive"@, "unarchive"@, "Unarchive the current Codex thread."@),
        with_argument(
            DefinitionView {
                danger_level: SlashCommandDangerLevel::Dangerous,
                ..slash("codex.rollback"@, "rollback"@, "Drop recent turns from Codex history. Does not revert files."@)
            },
            "numTurns"@,
            SlashCommandArgumentKind::Number,
            true,
            "Number of turns"@,
        ),
        with_argument(
            DefinitionView {
                danger_level: SlashCommandDangerLevel::Dangerous,
                aliases: seq!["sh"@],
                ..slash("codex.shell"@, "shell"@, "Run an unsandboxed provider-native shell command."@)
            },
            "command"@,
            SlashCommandArgumentKind::Rest,
            true,
            "Shell command"@,
        ),
    ]
}

fn no_strings() -> (r: Vec<String>)
    ensures
        strings_view(r@) == Seq::<Seq<char>>::empty(),
{
    let v = Vec::new();
    proof {
        assert(strings_view(v@) =~= Seq::<Seq<char>>::empty());
    }
    v
}

fn codex_slash_command(id: &str, name: &str, description: &str) -> (r: SlashCommandDefinition)
    ensures
        r@ == slash(id@, name@, description@),
{
    let arguments: Vec<SlashCommandArgument> = Vec::new();
    proof {
        assert(arguments_view(arguments@) =~= Seq::<ArgumentView>::empty());
    }
    SlashCommandDefinition {
        id: owned(id),
        name: owned(name),
        aliases: no_strings(),
        description: owned(description),
        category: owned("provider"),
        provider_id: Some(owned("codex")),
        target: SlashCommandTarget::Provider,
        danger_level: SlashCommandDangerLevel::Safe,
        arguments,
        examples: no_strings(),
    }
}

fn add_argument(
    d: &mut SlashCommandDefinition,
    name: &str,
    kind: SlashCommandArgumentKind,
    required: bool,
    description: &str,
)
    ensures
        final(d)@ == with_argument(old(d)@, name@, kind, required, description@),
{
    let ghost before = d.arguments@;
    d.arguments.push(
        SlashCommandArgument {
            name: owned(name),
            kind,
            required,
            description: Some(owned(description)),
            choices: no_strings(),
        },
    );
    proof {
        assert(arguments_view(d.arguments@) =~= arguments_view(before).push(d.arguments@.last()@));
    }
}

fn push_definition(v: &mut Vec<SlashCommandDefinition>, d: SlashCommandDefinition)
    ensures
        definitions_view(final(v)@) == definitions_view(old(v)@).push(d@),
{
    let ghost before = v@;
    v.push(d);
    proof {
        assert(definitions_view(v@) =~= definitions_view(before).push(d@));
    }
}

/// The native Codex slash commands.
pub fn codex_provider_slash_commands() -> (r: Vec<SlashCommandDefinition>)
    ensures
        definitions_view(r@) == native_slash_commands(),
{
    let mut v: Vec<SlashCommandDefinition> = Vec::new();
    proof {
        assert(definitions_view(v@) =~= Seq::<DefinitionView>::empty());
    }
    push_definition(&mut v, codex_slash_command("codex.compact", "compact", "Start native Codex context compaction."));
    let mut review = codex_slash_command("codex.review", "review", "Start a native Codex code review.");
    add_argument(&mut review, "target", SlashCommandArgumentKind::Rest, false, "Review target flags");
    push_definition(&mut v, review);
    let mut steer = codex_slash_command("codex.steer", "steer", "Steer the active Codex turn.");
    add_argument(&mut steer, "input", SlashCommandArgumentKind::Rest, true, "Text to steer with");
    push_definition(&mut v, steer);
    push_definition(&mut v, codex_slash_command("codex.fork", "fork", "Fork the current Codex thread."));
    push_definition(&mut v, codex_slash_command("codex.archive", "archive", "Archive the current Codex thread."));
    push_definition(&mut v, codex_slash_command("codex.unarchive", "unarchive", "Unarchive the current Codex thread."));
    let mut rollback = codex_slash_command(
        "codex.rollback",
        "rollback",
        "Drop recent turns from Codex history. Does not revert files.",
    );
    rollback.danger_level = SlashCommandDangerLevel::Dangerous;
    add_argument(&mut rollback, "numTurns", SlashCommandArgumentKind::Number, true, "Number of turns");
    push_definition(&mut v, rollback);
    let mut shell = codex_slash_command("codex.shell", "shell", "Run an unsandboxed provider-native shell command.");
    shell.danger_level = SlashCommandDangerLevel::Dangerous;
    let ghost no_alias = shell.aliases@;
    shell.aliases.push(owned("sh"));
    proof {
        assert(strings_view(shell.aliases@) =~= seq!["sh"@]);
    }
    add_argument(&mut shell, "command", SlashCommandArgumentKind::Rest, true, "Shell command");
    push_definition(&mut v, shell);
    proof {
        assert(definitions_view(v@) =~= native_slash_commands());
    }
    v
}

/// The slash command of a manifest command: its command id, its method as name, its
/// label, its category under `codex/`, its danger level, one optional rest argument
/// for the JSON params, and itself as example.
pub open spec fn manifest_definition_of(c: CommandView) -> DefinitionView {
    DefinitionView {
        id: command_id_of(c.method),
        name: c.method,
        aliases: Seq::empty(),
        description: c.label,
        category: "codex/"@ + category_name(c.category),
        provider_id: Some("codex"@),
        target: SlashCommandTarget::Provider,
        danger_level: danger_level_of(c.availability),
        arguments: seq![
            ArgumentView {
                name: "params"@,
                kind: SlashCommandArgumentKind::Rest,
                required: false,
                description: Some(
                    "JSON params for `"@ + c.method + "`; schema "@ + c.params_type + " -> "@ + c.response_type,
                ),
                choices: Seq::empty(),
            },
        ],
        examples: seq!["/"@ + c.method],
    }
}

/// The slash command of a manifest command.
pub fn slash_definition_for_provider_command(c: &CodexProviderCommand) -> (r: SlashCommandDefinition)
    ensures
        r@ == manifest_definition_of(c@),
{
    let mut description = concat3("JSON params for `", c.method, "`; schema ");
    description.append(c.schema.params_type);
    description.append(" -> ");
    description.append(c.schema.response_type);
    let mut arguments: Vec<SlashCommandArgument> = Vec::new();
    arguments.push(
        SlashCommandArgument {
            name: owned("params"),
            kind: SlashCommandArgumentKind::Rest,
            required: false,
            description: Some(description),
            choices: no_strings(),
        },
    );
    let ghost av = arguments@[0]@;
    proof {
        assert(arguments_view(arguments@) =~= seq![av]);
    }
    let mut examples: Vec<String> = Vec::new();
    examples.push(concat2("/", c.method));
    proof {
        assert(strings_view(examples@) =~= seq!["/"@ + c@.method]);
    }
    SlashCommandDefinition {
        id: command_id_for_method(c.method),
        name: owned(c.method),
        aliases: no_strings(),
        description: owned(c.label),
        category: concat2("codex/", c.category.as_str()),
        provider_id: Some(owned("codex")),
        target: SlashCommandTarget::Provider,
        danger_level: danger_level_for_command(c),
        arguments,
        examples,
    }
}

/// The slash commands of every manifest command, in manifest order.
pub fn codex_provider_commands() -> (r: Vec<SlashCommandDefinition>)
    ensures
        definitions_view(r@) == manifest().map_values(|c: CommandView| manifest_definition_of(c)),
{
    let commands = provider_command_manifest();
    let mut out: Vec<SlashCommandDefinition> = Vec::new();
    let mut i: usize = 0;
    while i < commands.len()
        invariant
            i <= commands.len(),
            commands@.map_values(|c: CodexProviderCommand| c@) == manifest(),
            definitions_view(out@) =~= manifest().subrange(0, i as int).map_values(
                |c: CommandView| manifest_definition_of(c),
            ),
        decreases commands.len() - i,
    {
        proof {
            assert(manifest()[i as int] == commands@[i as int]@);
        }
        push_definition(&mut out, slash_definition_for_provider_command(&commands[i]));
        i = i + 1;
    }
    proof {
        assert(manifest().subrange(0, commands@.len() as int) =~= manifest());
    }
    out
}

// ---------------------------------------------------------------------------
// Requests
// ---------------------------------------------------------------------------

/// A slash command a user runs.
#[derive(Debug, PartialEq)]
pub struct SlashCommandRequest {
    pub command_id: String,
    pub universal_command_id: Option<String>,
    pub idempotency_key: Option<String>,
    pub arguments: JsonValue,
    pub raw_input: String,
    pub confirmed: bool,
}

/// `value.as_u64()`.
pub open spec fn json_as_u64(v: Json) -> Option<u64> {
    match v {
        Json::UInt(u) => Some(u),
        Json::Int(i) => if i >= 0 {
            Some(i as u64)
        } else {
            None
        },
        _ => None,
    }
}

/// A required text argument: its trimmed text, unless that is empty.
pub open spec fn string_argument_of(arguments: Json, name: Seq<char>) -> Result<Seq<char>, Seq<char>> {
    match json_get(arguments, name) {
        Some(v) => match json_as_str(v) {
            Some(s) => if trim_ws(s).len() > 0 {
                Ok(trim_ws(s))
            } else {
                Err("missing required argument `"@ + name + "`"@)
            },
            None => Err("missing required argument `"@ + name + "`"@),
        },
        None => Err("missing required argument `"@ + name + "`"@),
    }
}

/// A required positive integer argument.
pub open spec fn number_argument_of(arguments: Json, name: Seq<char>) -> Result<u64, Seq<char>> {
    match json_get(arguments, name) {
        Some(v) => match json_as_u64(v) {
            Some(n) => if n > 0 {
                Ok(n)
            } else {
                Err("missing required positive integer argument `"@ + name + "`"@)
            },
            None => Err("missing required positive integer argument `"@ + name + "`"@),
        },
        None => Err("missing required positive integer argument `"@ + name + "`"@),
    }
}

pub open spec fn text_result(r: Result<String, String>) -> Result<Seq<char>, Seq<char>> {
    match r {
        Ok(s) => Ok(s@),
        Err(e) => Err(e@),
    }
}

/// A required text argument.
pub fn string_argument(arguments: &JsonValue, name: &str) -> (r: Result<String, String>)
    ensures
        text_result(r) == string_argument_of(arguments@, name@),
{
    match get(arguments, name) {
        Some(v) => match as_str(v) {
            Some(s) => {
                let t = trim(s);
                if t.unicode_len() > 0 {
                    return Ok(owned(t));
                }
            },
            None => {},
        },
        None => {},
    }
    Err(concat3("missing required argument `", name, "`"))
}

/// A required positive integer argument.
pub fn number_argument(arguments: &JsonValue, name: &str) -> (r: Result<u64, String>)
    ensures
        match r {
            Ok(n) => number_argument_of(arguments@, name@) == Ok::<u64, Seq<char>>(n),
            Err(e) => number_argument_of(arguments@, name@) == Err::<u64, Seq<char>>(e@),
        },
{
    let n: Option<u64> = match get(arguments, name) {
        Some(v) => match v {
            JsonValue::UInt(u) => Some(*u),
            JsonValue::Int(i) => if *i >= 0 {
                Some(*i as u64)
            } else {
                None
            },
            _ => None,
        },
        None => None,
    };
    match n {
        Some(x) => if x > 0 {
            Ok(x)
        } else {
            Err(concat3("missing required positive integer argument `", name, "`"))
        },
        None => Err(concat3("missing required positive integer argument `", name, "`")),
    }
}

/// What a review reviews: a base branch, a commit, custom instructions, or the
/// uncommitted changes.
pub open spec fn review_target_of(arguments: Json) -> Json {
    match first_str(arguments, review_base_paths()) {
        Some(branch) => Json::Object(seq![("branch"@, Json::Str(branch)), ("type"@, Json::Str("baseBranch"@))]),
        None => match first_str(arguments, review_commit_paths()) {
            Some(sha) => Json::Object(seq![("sha"@, Json::Str(sha)), ("type"@, Json::Str("commit"@))]),
            None => match first_str(arguments, review_custom_paths()) {
                Some(i) => if trim_ws(i).len() > 0 {
                    Json::Object(seq![("instructions"@, Json::Str(i)), ("type"@, Json::Str("custom"@))])
                } else {
                    Json::Object(seq![("type"@, Json::Str("uncommittedChanges"@))])
                },
                None => Json::Object(seq![("type"@, Json::Str("uncommittedChanges"@))]),
            },
        },
    }
}

/// What a review reviews.
pub fn codex_review_target(arguments: &JsonValue) -> (r: JsonValue)
    ensures
        r@ == review_target_of(arguments@),
{
    match review_base_at(arguments) {
        Some(branch) => obj2("branch", jstr(branch), "type", jstr("baseBranch")),
        None => match review_commit_at(arguments) {
            Some(sha) => obj2("sha", jstr(sha), "type", jstr("commit")),
            None => match review_custom_at(arguments) {
                Some(i) => if trim(i).unicode_len() > 0 {
                    obj2("instructions", jstr(i), "type", jstr("custom"))
                } else {
                    obj1("type", jstr("uncommittedChanges"))
                },
                None => obj1("type", jstr("uncommittedChanges")),
            },
        },
    }
}

/// Whether a review is delivered detached or inline.
pub open spec fn review_delivery_of(arguments: Json) -> Json {
    if first_bool(arguments, seq![seq!["detached"@]]) == Some(true) {
        Json::Str("detached"@)
    } else {
        Json::Str("inline"@)
    }
}

/// Whether a review is delivered detached or inline.
pub fn codex_review_delivery(arguments: &JsonValue) -> (r: JsonValue)
    ensures
        r@ == review_delivery_of(arguments@),
{
    let paths: [&[&str]; 1] = [&["detached"]];
    proof {
        assert(paths_view(paths@) =~~= seq![seq!["detached"@]]);
    }
    if first_bool_at(arguments, &paths) == Some(true) {
        jstr("detached")
    } else {
        jstr("inline")
    }
}

/// The text of a one-item text input.
pub open spec fn text_input(text: Seq<char>) -> Json {
    Json::Array(seq![Json::Object(seq![("text"@, Json::Str(text)), ("type"@, Json::Str("text"@))])])
}

fn text_input_exec(text: &str) -> (r: JsonValue)
    ensures
        r@ == text_input(text@),
{
    let item = obj2("text", jstr(text), "type", jstr("text"));
    let ghost iv = item@;
    let mut v = Vec::new();
    v.push(item);
    let r = JsonValue::Array(v);
    proof {
        match r@ {
            Json::Array(x) => {
                assert(x =~= seq![iv]);
            },
            _ => {},
        }
    }
    r
}

/// The JSON-RPC method and params a slash command becomes, or why it cannot run.
pub open spec fn command_request_of(
    thread_id: Seq<char>,
    command_id: Seq<char>,
    arguments: Json,
    turn_id: Option<Seq<char>>,
    workspace: Seq<char>,
) -> Result<(Seq<char>, Json), Seq<char>> {
    let thread = ("threadId"@, Json::Str(thread_id));
    if command_id == "codex.compact"@ {
        Ok(("thread/compact/start"@, Json::Object(seq![thread])))
    } else if command_id == "codex.review"@ {
        Ok(
            (
                "review/start"@,
                Json::Object(
                    seq![
                        ("delivery"@, review_delivery_of(arguments)),
                        ("target"@, review_target_of(arguments)),
                        thread,
                    ],
                ),
            ),
        )
    } else if command_id == "codex.steer"@ {
        match turn_id {
            None => Err("codex /steer requires an active turn"@),
            Some(turn) => match string_argument_of(arguments, "input"@) {
                Err(e) => Err(e),
                Ok(input) => Ok(
                    (
                        "turn/steer"@,
                        Json::Object(seq![("expectedTurnId"@, Json::Str(turn)), ("input"@, text_input(input)), thread]),
                    ),
                ),
            },
        }
    } else if command_id == "codex.fork"@ {
        Ok(
            (
                "thread/fork"@,
                Json::Object(
                    seq![
                        ("approvalPolicy"@, Json::Str("on-request"@)),
                        ("approvalsReviewer"@, Json::Str("user"@)),
                        ("cwd"@, Json::Str(workspace)),
                        ("excludeTurns"@, Json::Bool(false)),
                        ("persistExtendedHistory"@, Json::Bool(true)),
                        thread,
                    ],
                ),
            ),
        )
    } else if command_id == "codex.archive"@ {
        Ok(("thread/archive"@, Json::Object(seq![thread])))
    } else if command_id == "codex.unarchive"@ {
        Ok(("thread/unarchive"@, Json::Object(seq![thread])))
    } else if command_id == "codex.rollback"@ {
        match number_argument_of(arguments, "numTurns"@) {
            Err(e) => Err(e),
            Ok(n) => Ok(("thread/rollback"@, Json::Object(seq![("numTurns"@, Json::UInt(n)), thread]))),
        }
    } else if command_id == "codex.shell"@ {
        match string_argument_of(arguments, "command"@) {
            Err(e) => Err(e),
            Ok(c) => Ok(("thread/shellCommand"@, Json::Object(seq![("command"@, Json::Str(c)), thread]))),
        }
    } else {
        Err("unsupported codex provider command `"@ + command_id + "`"@)
    }
}

pub open spec fn request_result(r: Result<(&'static str, JsonValue), String>) -> Result<(Seq<char>, Json), Seq<char>> {
    match r {
        Ok((m, p)) => Ok((m@, p@)),
        Err(e) => Err(e@),
    }
}

fn object6(
    k1: &str,
    v1: JsonValue,
    k2: &str,
    v2: JsonValue,
    k3: &str,
    v3: JsonValue,
    k4: &str,
    v4: JsonValue,
    k5: &str,
    v5: JsonValue,
    k6: &str,
    v6: JsonValue,
) -> (r: JsonValue)
    ensures
        r@ == Json::Object(seq![(k1@, v1@), (k2@, v2@), (k3@, v3@), (k4@, v4@), (k5@, v5@), (k6@, v6@)]),
{
    let ghost e = seq![(k1@, v1@), (k2@, v2@), (k3@, v3@), (k4@, v4@), (k5@, v5@), (k6@, v6@)];
    let mut entries: Vec<(String, JsonValue)> = Vec::new();
    entries.push((owned(k1), v1));
    entries.push((owned(k2), v2));
    entries.push((owned(k3), v3));
    entries.push((owned(k4), v4));
    entries.push((owned(k5), v5));
    entries.push((owned(k6), v6));
    proof {
        lemma_object_view(entries);
        assert(entries_view(entries@) =~= e);
    }
    JsonValue::Object(entries)
}

/// The JSON-RPC method and params a slash command becomes, or why it cannot run.
pub fn codex_provider_command_request(
    thread_id: &str,
    request: &SlashCommandRequest,
    turn_id: Option<&str>,
    workspace_path: &str,
) -> (r: Result<(&'static str, JsonValue), String>)
    ensures
        request_result(r) == command_request_of(
            thread_id@,
            request.command_id@,
            request.arguments@,
            crate::json::opt_str(turn_id),
            workspace_path@,
        ),
{
    let id = request.command_id.as_str();
    let args = &request.arguments;
    if str_eq(id, "codex.compact") {
        Ok(("thread/compact/start", obj1("threadId", jstr(thread_id))))
    } else if str_eq(id, "codex.review") {
        Ok((
            "review/start",
            obj3(
                "delivery",
                codex_review_delivery(args),
                "target",
                codex_review_target(args),
                "threadId",
                jstr(thread_id),
            ),
        ))
    } else if str_eq(id, "codex.steer") {
        match turn_id {
            None => Err(owned("codex /steer requires an active turn")),
            Some(turn) => match string_argument(args, "input") {
                Err(e) => Err(e),
                Ok(input) => Ok((
                    "turn/steer",
                    obj3(
                        "expectedTurnId",
                        jstr(turn),
                        "input",
                        text_input_exec(input.as_str()),
                        "threadId",
                        jstr(thread_id),
                    ),
                )),
            },
        }
    } else if str_eq(id, "codex.fork") {
        Ok((
            "thread/fork",
            object6(
                "approvalPolicy",
                jstr("on-request"),
                "approvalsReviewer",
                jstr("user"),
                "cwd",
                jstr(workspace_path),
                "excludeTurns",
                JsonValue::Bool(false),
                "persistExtendedHistory",
                JsonValue::Bool(true),
                "threadId",
                jstr(thread_id),
            ),
        ))
    } else if str_eq(id, "codex.archive") {
        Ok(("thread/archive", obj1("threadId", jstr(thread_id))))
    } else if str_eq(id, "codex.unarchive") {
        Ok(("thread/unarchive", obj1("threadId", jstr(thread_id))))
    } else if str_eq(id, "codex.rollback") {
        match number_argument(args, "numTurns") {
            Err(e) => Err(e),
            Ok(n) => Ok(("thread/rollback", obj2("numTurns", JsonValue::UInt(n), "threadId", jstr(thread_id)))),
        }
    } else if str_eq(id, "codex.shell") {
        match string_argument(args, "command") {
            Err(e) => Err(e),
            Ok(c) => Ok(("thread/shellCommand", obj2("command", jstr(c.as_str()), "threadId", jstr(thread_id)))),
        }
    } else {
        Err(concat3("unsupported codex provider command `", id, "`"))
    }
}

/// The message shown once a slash command ran.
pub open spec fn command_message_of(command_id: Seq<char>) -> Seq<char> {
    if command_id == "codex.compact"@ {
        "Codex compaction started."@
    } else if command_id == "codex.review"@ {
        "Codex review started."@
    } else if command_id == "codex.steer"@ {
        "Codex turn steering submitted."@
    } else if command_id == "codex.fork"@ {
        "Codex thread forked."@
    } else if command_id == "codex.archive"@ {
        "Codex thread archived."@
    } else if command_id == "codex.unarchive"@ {
        "Codex thread unarchived."@
    } else if command_id == "codex.rollback"@ {
        "Codex rollback completed."@
    } else if command_id == "codex.shell"@ {
        "Codex shell command submitted."@
    } else {
        "Codex provider command executed."@
    }
}

/// The message shown once a slash command ran.
pub fn codex_provider_command_message(command_id: &str) -> (r: &'static str)
    ensures
        r@ == command_message_of(command_id@),
{
    if str_eq(command_id, "codex.compact") {
        "Codex compaction started."
    } else if str_eq(command_id, "codex.review") {
        "Codex review started."
    } else if str_eq(command_id, "codex.steer") {
        "Codex turn steering submitted."
    } else if str_eq(command_id, "codex.fork") {
        "Codex thread forked."
    } else if str_eq(command_id, "codex.archive") {
        "Codex thread archived."
    } else if str_eq(command_id, "codex.unarchive") {
        "Codex thread unarchived."
    } else if str_eq(command_id, "codex.rollback") {
        "Codex rollback completed."
    } else if str_eq(command_id, "codex.shell") {
        "Codex shell command submitted."
    } else {
        "Codex provider command executed."
    }
}


// ---------------------------------------------------------------------------
// Running provider commands
// ---------------------------------------------------------------------------

/// What running a slash command produced.
#[derive(Debug, PartialEq)]
pub struct SlashCommandResult {
    pub accepted: bool,
    pub message: String,
    pub provider_payload: Option<JsonValue>,
}

pub struct CommandResultView {
    pub accepted: bool,
    pub message: Seq<char>,
    pub provider_payload: Option<Json>,
}

impl View for SlashCommandResult {
    type V = CommandResultView;

    open spec fn view(&self) -> CommandResultView {
        CommandResultView {
            accepted: self.accepted,
            message: self.message@,
            provider_payload: crate::events::opt_j(self.provider_payload),
        }
    }
}

/// A refused command: not accepted, with the message and a payload naming the command.
pub open spec fn unsupported_command_result_of(command_id: Seq<char>, message: Seq<char>) -> CommandResultView {
    CommandResultView {
        accepted: false,
        message,
        provider_payload: Some(
            Json::Object(
                seq![
                    ("command_id"@, Json::Str(command_id)),
                    ("message"@, Json::Str(message)),
                    ("status"@, Json::Str("unsupported"@)),
                ],
            ),
        ),
    }
}

/// A command Codex ran: accepted, with the method, the request and Codex's response.
pub open spec fn executed_command_result_of(method: Seq<char>, params: Json, response: Json) -> CommandResultView {
    CommandResultView {
        accepted: true,
        message: "Codex `"@ + method + "` executed."@,
        provider_payload: Some(
            Json::Object(seq![("method"@, Json::Str(method)), ("request"@, params), ("response"@, response)]),
        ),
    }
}

/// A refused provider command.
pub fn unsupported_command_result(command_id: &str, message: &str) -> (r: SlashCommandResult)
    ensures
        r@ == unsupported_command_result_of(command_id@, message@),
{
    SlashCommandResult {
        accepted: false,
        message: owned(message),
        provider_payload: Some(obj3("command_id", jstr(command_id), "message", jstr(message), "status", jstr("unsupported"))),
    }
}

/// The result of a provider command Codex ran.
pub fn executed_command_result(method: &str, params: JsonValue, response: JsonValue) -> (r: SlashCommandResult)
    ensures
        r@ == executed_command_result_of(method@, params@, response@),
{
    SlashCommandResult {
        accepted: true,
        message: concat3("Codex `", method, "` executed."),
        provider_payload: Some(obj3("method", jstr(method), "request", params, "response", response)),
    }
}

/// What to do with a provider command request.
#[derive(Debug, PartialEq)]
pub enum ProviderCommandPlan {
    /// Answer without asking Codex.
    Refuse(SlashCommandResult),
    /// Call `method` on Codex; for thread maintenance, once the session's thread is
    /// resumed.
    Run { method: String, needs_thread: bool },
}

pub enum PlanView {
    Refuse(CommandResultView),
    Run { method: Seq<char>, needs_thread: bool },
}

impl View for ProviderCommandPlan {
    type V = PlanView;

    open spec fn view(&self) -> PlanView {
        match self {
            ProviderCommandPlan::Refuse(r) => PlanView::Refuse(r@),
            ProviderCommandPlan::Run { method, needs_thread } => PlanView::Run { method: method@, needs_thread: *needs_thread },
        }
    }
}

/// The plan for a provider command: refused when the method it names is not in the
/// manifest, or when the manifest does not let it run (unconfirmed, guarded, or
/// never); else run, after resuming the thread for thread maintenance.
pub open spec fn provider_command_plan_of(command_id: Seq<char>, confirmed: bool) -> PlanView {
    let method = crate::codex_runtime::method_of_command_id(command_id);
    match crate::provider_commands::find_command(manifest(), method) {
        None => PlanView::Refuse(unsupported_command_result_of(command_id, "Codex provider command is not known."@)),
        Some(c) => if !crate::codex_runtime::execution_allowed(c, confirmed) {
            PlanView::Refuse(
                unsupported_command_result_of(
                    command_id,
                    "Codex provider command is guarded or unsupported in this live pass."@,
                ),
            )
        } else {
            PlanView::Run {
                method,
                needs_thread: c.category == crate::provider_commands::CodexProviderCommandCategory::ThreadMaintenance,
            }
        },
    }
}

/// Decides whether and how to run a provider command request.
pub fn plan_provider_command(request: &SlashCommandRequest) -> (r: ProviderCommandPlan)
    ensures
        r@ == provider_command_plan_of(request.command_id@, request.confirmed),
{
    let method = crate::codex_runtime::method_from_command_id(request.command_id.as_str());
    match crate::provider_commands::provider_command(method.as_str()) {
        None => ProviderCommandPlan::Refuse(
            unsupported_command_result(request.command_id.as_str(), "Codex provider command is not known."),
        ),
        Some(c) => if !crate::codex_runtime::provider_command_execution_allowed(&c, request.confirmed) {
            ProviderCommandPlan::Refuse(
                unsupported_command_result(
                    request.command_id.as_str(),
                    "Codex provider command is guarded or unsupported in this live pass.",
                ),
            )
        } else {
            let needs_thread = match c.category {
                crate::provider_commands::CodexProviderCommandCategory::ThreadMaintenance => true,
                _ => false,
            };
            ProviderCommandPlan::Run { method, needs_thread }
        },
    }
}

/// The parameters sent with a provider command: the arguments when they are an object,
/// the object a non-blank string argument holds (`parsed`: that string read as JSON,
/// when it is JSON), else none; with the session's thread added as `threadId` unless
/// given.
pub open spec fn provider_command_params_of(arguments: Json, parsed: Option<Json>, thread: Option<Seq<char>>) -> Json {
    let base = match arguments {
        Json::Object(o) => o,
        Json::Str(s) => if trim_ws(s).len() > 0 {
            match parsed {
                Some(Json::Object(o)) => o,
                _ => Seq::empty(),
            }
        } else {
            Seq::empty()
        },
        _ => Seq::empty(),
    };
    Json::Object(
        if crate::json::entries_get(base, "threadId"@) is Some {
            base
        } else {
            match thread {
                Some(t) => base.push(("threadId"@, Json::Str(t))),
                None => base,
            }
        },
    )
}

/// The parameters of a provider command (see `provider_command_params_of`).
pub fn provider_command_params(arguments: &JsonValue, parsed: Option<JsonValue>, native_thread_id: Option<&str>) -> (r:
    JsonValue)
    ensures
        r@ == provider_command_params_of(arguments@, crate::events::opt_j(parsed), crate::json::opt_str(native_thread_id)),
{
    let args = json_clone(arguments);
    let entries: Vec<(String, JsonValue)> = match args {
        JsonValue::Object(o) => {
            proof {
                lemma_object_view(o);
            }
            o
        },
        JsonValue::Str(s) => if trim(s.as_str()).unicode_len() > 0 {
            match parsed {
                Some(JsonValue::Object(o)) => {
                    proof {
                        lemma_object_view(o);
                    }
                    o
                },
                _ => Vec::new(),
            }
        } else {
            Vec::new()
        },
        _ => Vec::new(),
    };
    proof {
        if !(arguments@ is Object) && !(arguments@ is Str && trim_ws(arguments@->Str_0).len() > 0 && crate::events::opt_j(
            parsed,
        ) matches Some(Json::Object(_))) {
            assert(entries_view(entries@) =~= Seq::<(Seq<char>, Json)>::empty());
        }
        lemma_object_view(entries);
    }
    let obj = JsonValue::Object(entries);
    let has_thread = get(&obj, "threadId").is_some();
    let mut entries = match obj {
        JsonValue::Object(e) => e,
        _ => Vec::new(),
    };
    if !has_thread {
        match native_thread_id {
            Some(t) => {
                let ghost before = entries_view(entries@);
                entries.push((owned("threadId"), jstr(t)));
                proof {
                    assert(entries_view(entries@) =~= before.push(("threadId"@, Json::Str(t@))));
                }
            },
            None => {},
        }
    }
    proof {
        lemma_object_view(entries);
    }
    JsonValue::Object(entries)
}

} // verus!

verus! {

/// Without the user's confirmation only a command the manifest marks supported runs:
/// a guarded, experimental, gated, disabled or unsupported command never does.
pub proof fn law_unconfirmed_requests_run_only_supported_commands(command_id: Seq<char>)
    ensures
        provider_command_plan_of(command_id, false) matches PlanView::Run { method, .. } ==> (crate::provider_commands::find_command(
            manifest(),
            method,
        ) matches Some(c) && c.availability == crate::provider_commands::CodexProviderCommandAvailability::Supported),
{
}

/// A command runs only when the manifest marks it supported, or when it is guarded
/// thread maintenance and the user confirmed it.
pub proof fn law_commands_run_only_when_supported_or_confirmed(command_id: Seq<char>, confirmed: bool)
    ensures
        provider_command_plan_of(command_id, confirmed) matches PlanView::Run { method, .. } ==> (crate::provider_commands::find_command(
            manifest(),
            method,
        ) matches Some(c) && (c.availability == crate::provider_commands::CodexProviderCommandAvailability::Supported
            || (confirmed && c.availability == crate::provider_commands::CodexProviderCommandAvailability::Guarded
            && c.category == crate::provider_commands::CodexProviderCommandCategory::ThreadMaintenance))),
{
}

/// An unconfirmed request for a guarded command is refused, and says so.
pub proof fn law_guarded_commands_wait_for_confirmation(command_id: Seq<char>)
    requires
        crate::provider_commands::find_command(manifest(), crate::codex_runtime::method_of_command_id(command_id)) matches Some(
            c,
        ) && c.availability == crate::provider_commands::CodexProviderCommandAvailability::Guarded,
    ensures
        provider_command_plan_of(command_id, false) matches PlanView::Refuse(r) && !r.accepted && r.message
            == "Codex provider command is guarded or unsupported in this live pass."@,
{
}

/// Confirmation lets guarded thread maintenance run, with the session's thread.
pub proof fn law_confirmed_thread_maintenance_runs(command_id: Seq<char>)
    requires
        crate::provider_commands::find_command(manifest(), crate::codex_runtime::method_of_command_id(command_id)) matches Some(
            c,
        ) && c.availability == crate::provider_commands::CodexProviderCommandAvailability::Guarded && c.category
            == crate::provider_commands::CodexProviderCommandCategory::ThreadMaintenance,
    ensures
        provider_command_plan_of(command_id, true) == (PlanView::Run {
            method: crate::codex_runtime::method_of_command_id(command_id),
            needs_thread: true,
        }),
{
}

} // verus!
