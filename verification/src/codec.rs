//! The Codex app-server JSON-RPC codec: request encoding with correlation of responses
//! to the requests that caused them, and classification of inbound frames.
use vstd::prelude::*;
use crate::json::{Json, JsonValue, obj2, obj3, json_clone, json_get, json_as_str, json_as_i64, get, as_str, as_i64};
use crate::text::{str_eq, push_char, int_decimal, i64_decimal};
use crate::model::NativeRef;

verus! {

pub const CODEX_APP_SERVER_PROTOCOL: &'static str = "codex/app-server/v2";

/// A JSON-RPC request id.
#[derive(Debug, PartialEq)]
pub enum RequestId {
    String(String),
    Integer(i64),
}

pub enum RequestIdView {
    String(Seq<char>),
    Integer(i64),
}

impl View for RequestId {
    type V = RequestIdView;

    open spec fn view(&self) -> RequestIdView {
        match self {
            RequestId::String(s) => RequestIdView::String(s@),
            RequestId::Integer(i) => RequestIdView::Integer(*i),
        }
    }
}

/// The `Display` text of a request id.
pub open spec fn request_id_text(id: RequestIdView) -> Seq<char> {
    match id {
        RequestIdView::String(s) => s,
        RequestIdView::Integer(i) => int_decimal(i as int),
    }
}

/// The JSON form of a request id.
pub open spec fn request_id_json(id: RequestIdView) -> Json {
    match id {
        RequestIdView::String(s) => Json::Str(s),
        RequestIdView::Integer(i) => Json::Int(i),
    }
}

/// A request id read from JSON: a string, or an integer that fits `i64`.
pub open spec fn parse_request_id(v: Json) -> Option<RequestIdView> {
    match v {
        Json::Str(s) => Some(RequestIdView::String(s)),
        Json::Int(i) => Some(RequestIdView::Integer(i)),
        Json::UInt(u) => if u <= i64::MAX {
            Some(RequestIdView::Integer(u as i64))
        } else {
            None
        },
        _ => None,
    }
}

impl RequestId {
    pub fn eq(&self, other: &RequestId) -> (r: bool)
        ensures
            r == (self@ == other@),
    {
        match (self, other) {
            (RequestId::String(a), RequestId::String(b)) => str_eq(a.as_str(), b.as_str()),
            (RequestId::Integer(a), RequestId::Integer(b)) => *a == *b,
            _ => false,
        }
    }

    pub fn copy(&self) -> (r: RequestId)
        ensures
            r@ == self@,
    {
        match self {
            RequestId::String(s) => RequestId::String(s.clone()),
            RequestId::Integer(i) => RequestId::Integer(*i),
        }
    }

    /// `to_string()`: the id's text.
    pub fn to_text(&self) -> (r: String)
        ensures
            r@ == request_id_text(self@),
    {
        match self {
            RequestId::String(s) => s.clone(),
            RequestId::Integer(i) => i64_decimal(*i),
        }
    }

    /// The id as JSON.
    pub fn to_json(&self) -> (r: JsonValue)
        ensures
            r@ == request_id_json(self@),
    {
        match self {
            RequestId::String(s) => JsonValue::Str(s.clone()),
            RequestId::Integer(i) => JsonValue::Int(*i),
        }
    }

    /// Reads a request id from JSON.
    pub fn from_json(v: &JsonValue) -> (r: Option<RequestId>)
        ensures
            match r {
                Some(id) => parse_request_id(v@) == Some(id@),
                None => parse_request_id(v@) is None,
            },
    {
        match v {
            JsonValue::Str(s) => Some(RequestId::String(s.clone())),
            JsonValue::Int(i) => Some(RequestId::Integer(*i)),
            JsonValue::UInt(u) => if *u <= i64::MAX as u64 {
                Some(RequestId::Integer(*u as i64))
            } else {
                None
            },
            _ => None,
        }
    }
}

/// The error object of a JSON-RPC error response.
#[derive(Debug, PartialEq)]
pub struct JSONRPCErrorError {
    pub code: i64,
    pub data: Option<JsonValue>,
    pub message: String,
}

#[derive(Debug, PartialEq)]
pub struct CodexKnownClientResponse {
    pub method: String,
}

#[derive(Debug, PartialEq)]
pub struct CodexKnownServerRequest {
    pub method: String,
}

#[derive(Debug, PartialEq)]
pub struct CodexKnownServerNotification {
    pub method: String,
}

/// One inbound line, classified.
#[derive(Debug, PartialEq)]
pub enum CodexDecodedFrame {
    ClientResponse(CodexClientResponseFrame),
    ClientError(CodexClientErrorFrame),
    ServerRequest(CodexServerRequestFrame),
    ServerNotification(CodexServerNotificationFrame),
    Malformed(CodexMalformedFrame),
}

#[derive(Debug, PartialEq)]
pub struct CodexClientResponseFrame {
    pub request_id: RequestId,
    pub method: Option<String>,
    pub result: JsonValue,
    pub decoded: Option<CodexKnownClientResponse>,
    pub raw_payload: JsonValue,
}

#[derive(Debug, PartialEq)]
pub struct CodexClientErrorFrame {
    pub request_id: RequestId,
    pub method: Option<String>,
    pub error: JSONRPCErrorError,
    pub raw_payload: JsonValue,
}

#[derive(Debug, PartialEq)]
pub struct CodexServerRequestFrame {
    pub request_id: RequestId,
    pub method: String,
    pub decoded: Option<CodexKnownServerRequest>,
    pub raw_payload: JsonValue,
}

#[derive(Debug, PartialEq)]
pub struct CodexServerNotificationFrame {
    pub method: String,
    pub decoded: Option<CodexKnownServerNotification>,
    pub raw_payload: JsonValue,
}

#[derive(Debug, PartialEq)]
pub struct CodexMalformedFrame {
    pub line: String,
    pub error: String,
}

/// The JSON-RPC shape of a parsed message, in the order the message kinds are tried:
/// request, notification, response, error.
pub enum MessageShape {
    Request(RequestIdView, Seq<char>),
    Notification(Seq<char>),
    Response(RequestIdView, Json),
    Error(RequestIdView, i64, Seq<char>, Option<Json>),
    Invalid,
}

/// An optional member: absent and `null` both read as nothing.
pub open spec fn optional_member(v: Json, key: Seq<char>) -> Option<Json> {
    match json_get(v, key) {
        Some(Json::Null) => None,
        other => other,
    }
}

pub open spec fn member_request_id(v: Json) -> Option<RequestIdView> {
    match json_get(v, "id"@) {
        Some(id) => parse_request_id(id),
        None => None,
    }
}

pub open spec fn member_str(v: Json, key: Seq<char>) -> Option<Seq<char>> {
    match json_get(v, key) {
        Some(x) => json_as_str(x),
        None => None,
    }
}

pub open spec fn error_object(v: Json) -> Option<(i64, Seq<char>, Option<Json>)> {
    match json_get(v, "error"@) {
        Some(e) => match (json_get(e, "code"@), member_str(e, "message"@)) {
            (Some(c), Some(m)) => match json_as_i64(c) {
                Some(code) => if e is Object {
                    Some((code, m, optional_member(e, "data"@)))
                } else {
                    None
                },
                None => None,
            },
            _ => None,
        },
        None => None,
    }
}

pub open spec fn message_shape(v: Json) -> MessageShape {
    if v is Object && member_request_id(v) is Some && member_str(v, "method"@) is Some {
        MessageShape::Request(member_request_id(v).unwrap(), member_str(v, "method"@).unwrap())
    } else if v is Object && member_str(v, "method"@) is Some {
        MessageShape::Notification(member_str(v, "method"@).unwrap())
    } else if v is Object && member_request_id(v) is Some && json_get(v, "result"@) is Some {
        MessageShape::Response(member_request_id(v).unwrap(), json_get(v, "result"@).unwrap())
    } else if v is Object && member_request_id(v) is Some && error_object(v) is Some {
        let (code, m, data) = error_object(v).unwrap();
        MessageShape::Error(member_request_id(v).unwrap(), code, m, data)
    } else {
        MessageShape::Invalid
    }
}

/// The error text of a value that is JSON but no JSON-RPC message.
pub open spec fn not_a_message_error() -> Seq<char> {
    "data did not match any variant of untagged enum JSONRPCMessage"@
}

/// `line.trim_end_matches(['\r', '\n'])`.
pub open spec fn trim_line_end(s: Seq<char>) -> Seq<char>
    decreases s.len(),
{
    if s.len() > 0 && (s.last() == '\r' || s.last() == '\n') {
        trim_line_end(s.drop_last())
    } else {
        s
    }
}

/// The text of a line that is parsed as JSON: the line without its trailing `\r`/`\n`.
pub fn frame_text(line: &str) -> (r: String)
    ensures
        r@ == trim_line_end(line@),
{
    let n = line.unicode_len();
    let mut end: usize = n;
    assert(line@.subrange(0, n as int) =~= line@);
    while end > 0 && (line.get_char(end - 1) == '\r' || line.get_char(end - 1) == '\n')
        invariant
            n == line@.len(),
            end <= n,
            trim_line_end(line@) == trim_line_end(line@.subrange(0, end as int)),
        decreases end,
    {
        assert(line@.subrange(0, end as int).drop_last() =~= line@.subrange(0, end - 1));
        end = end - 1;
    }
    assert(trim_line_end(line@.subrange(0, end as int)) == line@.subrange(0, end as int));
    let mut r = String::new();
    let mut i: usize = 0;
    while i < end
        invariant
            n == line@.len(),
            trim_line_end(line@) == line@.subrange(0, end as int),
            end <= n,
            i <= end,
            r@ =~= line@.subrange(0, i as int),
        decreases end - i,
    {
        push_char(&mut r, line.get_char(i));
        i = i + 1;
    }
    r
}

pub open spec fn client_request_methods() -> Seq<Seq<char>> {
    seq![
        "initialize"@, "thread/start"@, "thread/resume"@, "thread/fork"@, "thread/archive"@,
        "thread/unsubscribe"@, "thread/increment_elicitation"@, "thread/decrement_elicitation"@,
        "thread/name/set"@, "thread/goal/set"@, "thread/goal/get"@, "thread/goal/clear"@,
        "thread/metadata/update"@, "thread/memoryMode/set"@, "memory/reset"@, "thread/unarchive"@,
        "thread/compact/start"@, "thread/shellCommand"@, "thread/approveGuardianDeniedAction"@,
        "thread/backgroundTerminals/clean"@, "thread/rollback"@, "thread/list"@,
        "thread/loaded/list"@, "thread/read"@, "thread/turns/list"@, "thread/inject_items"@,
        "skills/list"@, "hooks/list"@, "marketplace/add"@, "marketplace/remove"@,
        "marketplace/upgrade"@, "plugin/list"@, "plugin/read"@, "app/list"@, "device/key/create"@,
        "device/key/public"@, "device/key/sign"@, "fs/readFile"@, "fs/writeFile"@,
        "fs/createDirectory"@, "fs/getMetadata"@, "fs/readDirectory"@, "fs/remove"@, "fs/copy"@,
        "fs/watch"@, "fs/unwatch"@, "skills/config/write"@, "plugin/install"@,
        "plugin/uninstall"@, "turn/start"@, "turn/steer"@, "turn/interrupt"@,
        "thread/realtime/start"@, "thread/realtime/appendAudio"@, "thread/realtime/appendText"@,
        "thread/realtime/stop"@, "thread/realtime/listVoices"@, "review/start"@, "model/list"@,
        "modelProvider/capabilities/read"@, "experimentalFeature/list"@,
        "experimentalFeature/enablement/set"@, "collaborationMode/list"@,
        "mock/experimentalMethod"@, "mcpServer/oauth/login"@, "config/mcpServer/reload"@,
        "mcpServerStatus/list"@, "mcpServer/resource/read"@, "mcpServer/tool/call"@,
        "windowsSandbox/setupStart"@, "account/login/start"@, "account/login/cancel"@,
        "account/logout"@, "account/rateLimits/read"@, "account/sendAddCreditsNudgeEmail"@,
        "feedback/upload"@, "command/exec"@, "command/exec/write"@, "command/exec/terminate"@,
        "command/exec/resize"@, "config/read"@, "externalAgentConfig/detect"@,
        "externalAgentConfig/import"@, "config/value/write"@, "config/batchWrite"@,
        "configRequirements/read"@, "account/read"@, "GetConversationSummary"@,
        "GitDiffToRemote"@, "GetAuthStatus"@, "FuzzyFileSearch"@,
        "fuzzyFileSearch/sessionStart"@, "fuzzyFileSearch/sessionUpdate"@,
        "fuzzyFileSearch/sessionStop"@,
    ]
}

pub open spec fn server_request_methods() -> Seq<Seq<char>> {
    seq![
        "item/commandExecution/requestApproval"@, "item/fileChange/requestApproval"@,
        "item/tool/requestUserInput"@, "mcpServer/elicitation/request"@,
        "item/permissions/requestApproval"@, "item/tool/call"@,
        "account/chatgptAuthTokens/refresh"@, "ApplyPatchApproval"@, "ExecCommandApproval"@,
    ]
}

pub open spec fn server_notification_methods() -> Seq<Seq<char>> {
    seq![
        "error"@, "thread/started"@, "thread/status/changed"@, "thread/archived"@,
        "thread/unarchived"@, "thread/closed"@, "skills/changed"@, "thread/name/updated"@,
        "thread/goal/updated"@, "thread/goal/cleared"@, "thread/tokenUsage/updated"@,
        "turn/started"@, "hook/started"@, "turn/completed"@, "hook/completed"@,
        "turn/diff/updated"@, "turn/plan/updated"@, "item/started"@,
        "item/autoApprovalReview/started"@, "item/autoApprovalReview/completed"@,
        "item/completed"@, "rawResponseItem/completed"@, "item/agentMessage/delta"@,
        "item/plan/delta"@, "command/exec/outputDelta"@, "item/commandExecution/outputDelta"@,
        "item/commandExecution/terminalInteraction"@, "item/fileChange/outputDelta"@,
        "item/fileChange/patchUpdated"@, "serverRequest/resolved"@, "item/mcpToolCall/progress"@,
        "mcpServer/oauthLogin/completed"@, "mcpServer/startupStatus/updated"@,
        "account/updated"@, "account/rateLimits/updated"@, "app/list/updated"@,
        "remoteControl/status/changed"@, "externalAgentConfig/import/completed"@,
        "fs/changed"@, "item/reasoning/summaryTextDelta"@, "item/reasoning/summaryPartAdded"@,
        "item/reasoning/textDelta"@, "thread/compacted"@, "model/rerouted"@,
        "model/verification"@, "warning"@, "guardianWarning"@, "deprecationNotice"@,
        "configWarning"@, "fuzzyFileSearch/sessionUpdated"@, "fuzzyFileSearch/sessionCompleted"@,
        "thread/realtime/started"@, "thread/realtime/itemAdded"@,
        "thread/realtime/transcript/delta"@, "thread/realtime/transcript/done"@,
        "thread/realtime/outputAudio/delta"@, "thread/realtime/sdp"@,
        "thread/realtime/error"@, "thread/realtime/closed"@, "windows/worldWritableWarning"@,
        "windowsSandbox/setupCompleted"@, "account/login/completed"@,
    ]
}

/// Whether `method` is among `names`.
pub fn name_in(method: &str, names: &[&str]) -> (r: bool)
    ensures
        r == names@.map_values(|s: &str| s@).contains(method@),
{
    let ghost nv = names@.map_values(|s: &str| s@);
    let mut i: usize = 0;
    while i < names.len()
        invariant
            nv == names@.map_values(|s: &str| s@),
            i <= names.len(),
            forall|j: int| 0 <= j < i ==> nv[j] != method@,
        decreases names.len() - i,
    {
        if str_eq(names[i], method) {
            assert(nv[i as int] == method@);
            return true;
        }
        i = i + 1;
    }
    false
}

/// A method the client (the runner) may send to the Codex app-server.
pub fn is_known_client_request_method(method: &str) -> (r: bool)
    ensures
        r == client_request_methods().contains(method@),
{
    let names = [
        "initialize", "thread/start", "thread/resume", "thread/fork", "thread/archive",
        "thread/unsubscribe", "thread/increment_elicitation", "thread/decrement_elicitation",
        "thread/name/set", "thread/goal/set", "thread/goal/get", "thread/goal/clear",
        "thread/metadata/update", "thread/memoryMode/set", "memory/reset", "thread/unarchive",
        "thread/compact/start", "thread/shellCommand", "thread/approveGuardianDeniedAction",
        "thread/backgroundTerminals/clean", "thread/rollback", "thread/list",
        "thread/loaded/list", "thread/read", "thread/turns/list", "thread/inject_items",
        "skills/list", "hooks/list", "marketplace/add", "marketplace/remove",
        "marketplace/upgrade", "plugin/list", "plugin/read", "app/list", "device/key/create",
        "device/key/public", "device/key/sign", "fs/readFile", "fs/writeFile",
        "fs/createDirectory", "fs/getMetadata", "fs/readDirectory", "fs/remove", "fs/copy",
        "fs/watch", "fs/unwatch", "skills/config/write", "plugin/install",
        "plugin/uninstall", "turn/start", "turn/steer", "turn/interrupt",
        "thread/realtime/start", "thread/realtime/appendAudio", "thread/realtime/appendText",
        "thread/realtime/stop", "thread/realtime/listVoices", "review/start", "model/list",
        "modelProvider/capabilities/read", "experimentalFeature/list",
        "experimentalFeature/enablement/set", "collaborationMode/list",
        "mock/experimentalMethod", "mcpServer/oauth/login", "config/mcpServer/reload",
        "mcpServerStatus/list", "mcpServer/resource/read", "mcpServer/tool/call",
        "windowsSandbox/setupStart", "account/login/start", "account/login/cancel",
        "account/logout", "account/rateLimits/read", "account/sendAddCreditsNudgeEmail",
        "feedback/upload", "command/exec", "command/exec/write", "command/exec/terminate",
        "command/exec/resize", "config/read", "externalAgentConfig/detect",
        "externalAgentConfig/import", "config/value/write", "config/batchWrite",
        "configRequirements/read", "account/read", "GetConversationSummary",
        "GitDiffToRemote", "GetAuthStatus", "FuzzyFileSearch",
        "fuzzyFileSearch/sessionStart", "fuzzyFileSearch/sessionUpdate",
        "fuzzyFileSearch/sessionStop",
    ];
    let r = name_in(method, &names);
    proof {
        assert(names@.map_values(|s: &str| s@) =~= client_request_methods());
    }
    r
}

/// A request the Codex app-server may send to the client.
pub fn is_known_server_request_method(method: &str) -> (r: bool)
    ensures
        r == server_request_methods().contains(method@),
{
    let names = [
        "item/commandExecution/requestApproval", "item/fileChange/requestApproval",
        "item/tool/requestUserInput", "mcpServer/elicitation/request",
        "item/permissions/requestApproval", "item/tool/call",
        "account/chatgptAuthTokens/refresh", "ApplyPatchApproval", "ExecCommandApproval",
    ];
    let r = name_in(method, &names);
    proof {
        assert(names@.map_values(|s: &str| s@) =~= server_request_methods());
    }
    r
}

/// A notification the Codex app-server may send.
pub fn is_known_server_notification_method(method: &str) -> (r: bool)
    ensures
        r == server_notification_methods().contains(method@),
{
    let names = [
        "error", "thread/started", "thread/status/changed", "thread/archived",
        "thread/unarchived", "thread/closed", "skills/changed", "thread/name/updated",
        "thread/goal/updated", "thread/goal/cleared", "thread/tokenUsage/updated",
        "turn/started", "hook/started", "turn/completed", "hook/completed",
        "turn/diff/updated", "turn/plan/updated", "item/started",
        "item/autoApprovalReview/started", "item/autoApprovalReview/completed",
        "item/completed", "rawResponseItem/completed", "item/agentMessage/delta",
        "item/plan/delta", "command/exec/outputDelta", "item/commandExecution/outputDelta",
        "item/commandExecution/terminalInteraction", "item/fileChange/outputDelta",
        "item/fileChange/patchUpdated", "serverRequest/resolved", "item/mcpToolCall/progress",
        "mcpServer/oauthLogin/completed", "mcpServer/startupStatus/updated",
        "account/updated", "account/rateLimits/updated", "app/list/updated",
        "remoteControl/status/changed", "externalAgentConfig/import/completed",
        "fs/changed", "item/reasoning/summaryTextDelta", "item/reasoning/summaryPartAdded",
        "item/reasoning/textDelta", "thread/compacted", "model/rerouted",
        "model/verification", "warning", "guardianWarning", "deprecationNotice",
        "configWarning", "fuzzyFileSearch/sessionUpdated", "fuzzyFileSearch/sessionCompleted",
        "thread/realtime/started", "thread/realtime/itemAdded",
        "thread/realtime/transcript/delta", "thread/realtime/transcript/done",
        "thread/realtime/outputAudio/delta", "thread/realtime/sdp",
        "thread/realtime/error", "thread/realtime/closed", "windows/worldWritableWarning",
        "windowsSandbox/setupCompleted", "account/login/completed",
    ];
    let r = name_in(method, &names);
    proof {
        assert(names@.map_values(|s: &str| s@) =~= server_notification_methods());
    }
    r
}

/// The methods of the requests awaiting a response, keyed by request id.
pub open spec fn pending_view(ps: Seq<(RequestId, String)>) -> Map<RequestIdView, Seq<char>> {
    Map::new(
        |k: RequestIdView| exists|i: int| 0 <= i < ps.len() && ps[i].0@ == k,
        |k: RequestIdView| ps[choose|i: int| 0 <= i < ps.len() && ps[i].0@ == k].1@,
    )
}

pub open spec fn keys_unique(ps: Seq<(RequestId, String)>) -> bool {
    forall|i: int, j: int| 0 <= i < ps.len() && 0 <= j < ps.len() && i != j ==> ps[i].0@ != ps[j].0@
}

proof fn lemma_pending_lookup(ps: Seq<(RequestId, String)>, i: int)
    requires
        keys_unique(ps),
        0 <= i < ps.len(),
    ensures
        pending_view(ps).contains_key(ps[i].0@),
        pending_view(ps)[ps[i].0@] == ps[i].1@,
{
    let k = ps[i].0@;
    assert(exists|j: int| 0 <= j < ps.len() && ps[j].0@ == k);
    let c = choose|j: int| 0 <= j < ps.len() && ps[j].0@ == k;
    assert(c == i);
}

proof fn lemma_pending_push(ps: Seq<(RequestId, String)>, x: (RequestId, String))
    requires
        keys_unique(ps),
        !pending_view(ps).contains_key(x.0@),
    ensures
        keys_unique(ps.push(x)),
        pending_view(ps.push(x)) =~= pending_view(ps).insert(x.0@, x.1@),
{
    let qs = ps.push(x);
    assert forall|i: int, j: int| 0 <= i < qs.len() && 0 <= j < qs.len() && i != j implies qs[i].0@ != qs[j].0@ by {
        if i < ps.len() && j < ps.len() {
        } else if i < ps.len() {
            assert(ps[i].0@ == qs[i].0@);
        } else {
            assert(ps[j].0@ == qs[j].0@);
        }
    }
    assert forall|k: RequestIdView| #[trigger] pending_view(qs).contains_key(k) == pending_view(ps).insert(x.0@, x.1@).contains_key(k) by {
        if pending_view(ps).contains_key(k) {
            let i = choose|i: int| 0 <= i < ps.len() && ps[i].0@ == k;
            assert(qs[i] == ps[i]);
        }
        if pending_view(qs).contains_key(k) {
            let i = choose|i: int| 0 <= i < qs.len() && qs[i].0@ == k;
            if i < ps.len() {
                assert(qs[i] == ps[i]);
            }
        }
        if k == x.0@ {
            assert(qs[ps.len() as int] == x);
        }
    }
    assert forall|k: RequestIdView| #[trigger] pending_view(qs).contains_key(k) implies pending_view(qs)[k] == pending_view(ps).insert(x.0@, x.1@)[k] by {
        let i = choose|i: int| 0 <= i < qs.len() && qs[i].0@ == k;
        lemma_pending_lookup(qs, i);
        if i < ps.len() {
            assert(qs[i] == ps[i]);
            lemma_pending_lookup(ps, i);
        }
    }
}

proof fn lemma_pending_remove(ps: Seq<(RequestId, String)>, i: int)
    requires
        keys_unique(ps),
        0 <= i < ps.len(),
    ensures
        keys_unique(ps.remove(i)),
        pending_view(ps.remove(i)) =~= pending_view(ps).remove(ps[i].0@),
{
    let qs = ps.remove(i);
    assert forall|a: int, b: int| 0 <= a < qs.len() && 0 <= b < qs.len() && a != b implies qs[a].0@ != qs[b].0@ by {
        let a2 = if a < i { a } else { a + 1 };
        let b2 = if b < i { b } else { b + 1 };
        assert(qs[a] == ps[a2]);
        assert(qs[b] == ps[b2]);
    }
    assert forall|k: RequestIdView| #[trigger] pending_view(qs).contains_key(k) == pending_view(ps).remove(ps[i].0@).contains_key(k) by {
        if pending_view(ps).contains_key(k) && k != ps[i].0@ {
            let j = choose|j: int| 0 <= j < ps.len() && ps[j].0@ == k;
            let j2 = if j < i { j } else { j - 1 };
            assert(qs[j2] == ps[j]);
        }
        if pending_view(qs).contains_key(k) {
            let j = choose|j: int| 0 <= j < qs.len() && qs[j].0@ == k;
            let j2 = if j < i { j } else { j + 1 };
            assert(qs[j] == ps[j2]);
        }
    }
    assert forall|k: RequestIdView| #[trigger] pending_view(qs).contains_key(k) implies pending_view(qs)[k] == pending_view(ps).remove(ps[i].0@)[k] by {
        let j = choose|j: int| 0 <= j < qs.len() && qs[j].0@ == k;
        let j2 = if j < i { j } else { j + 1 };
        assert(qs[j] == ps[j2]);
        lemma_pending_lookup(qs, j);
        lemma_pending_lookup(ps, j2);
    }
}

/// Correlates Codex app-server requests with their responses.
#[derive(Debug, PartialEq)]
pub struct CodexCodec {
    next_request_id: i64,
    pending_methods: Vec<(RequestId, String)>,
}

pub struct CodecView {
    pub next_request_id: i64,
    pub pending: Map<RequestIdView, Seq<char>>,
}

impl View for CodexCodec {
    type V = CodecView;

    closed spec fn view(&self) -> CodecView {
        CodecView { next_request_id: self.next_request_id, pending: pending_view(self.pending_methods@) }
    }
}

pub open spec fn known_client_response(method: Option<Seq<char>>) -> Option<Seq<char>> {
    match method {
        Some(m) => if client_request_methods().contains(m) {
            Some(m)
        } else {
            None
        },
        None => None,
    }
}

pub open spec fn opt_known(d: Option<CodexKnownClientResponse>) -> Option<Seq<char>> {
    match d {
        Some(k) => Some(k.method@),
        None => None,
    }
}

/// What a parsed line decodes to, given the methods of the pending requests.
pub open spec fn frame_matches(
    pending: Map<RequestIdView, Seq<char>>,
    line: Seq<char>,
    parsed: Result<Json, Seq<char>>,
    f: CodexDecodedFrame,
) -> bool {
    match parsed {
        Err(e) => f matches CodexDecodedFrame::Malformed(m) && m.line@ == line && m.error@ == e,
        Ok(v) => match message_shape(v) {
            MessageShape::Invalid => f matches CodexDecodedFrame::Malformed(m) && m.line@ == line
                && m.error@ == not_a_message_error(),
            MessageShape::Request(id, method) => f matches CodexDecodedFrame::ServerRequest(r)
                && r.request_id@ == id && r.method@ == method && r.raw_payload@ == v && (match r.decoded {
                Some(k) => k.method@ == method && server_request_methods().contains(method),
                None => !server_request_methods().contains(method),
            }),
            MessageShape::Notification(method) => f matches CodexDecodedFrame::ServerNotification(n)
                && n.method@ == method && n.raw_payload@ == v && (match n.decoded {
                Some(k) => k.method@ == method && server_notification_methods().contains(method),
                None => !server_notification_methods().contains(method),
            }),
            MessageShape::Response(id, result) => f matches CodexDecodedFrame::ClientResponse(r)
                && r.request_id@ == id && opt_string(r.method) == (if pending.contains_key(id) {
                Some(pending[id])
            } else {
                None
            }) && r.result@ == result && r.raw_payload@ == v && opt_known(r.decoded)
                == known_client_response(opt_string(r.method)),
            MessageShape::Error(id, code, message, data) => f matches CodexDecodedFrame::ClientError(e)
                && e.request_id@ == id && opt_string(e.method) == (if pending.contains_key(id) {
                Some(pending[id])
            } else {
                None
            }) && e.error.code == code && e.error.message@ == message && opt_json_owned(e.error.data)
                == data && e.raw_payload@ == v,
        },
    }
}

pub open spec fn opt_json_owned(d: Option<JsonValue>) -> Option<Json> {
    match d {
        Some(x) => Some(x@),
        None => None,
    }
}

pub open spec fn opt_string(r: Option<String>) -> Option<Seq<char>> {
    match r {
        Some(x) => Some(x@),
        None => None,
    }
}

/// Whether a parsed line is a response or error answering a request (and so settles it).
pub open spec fn answered_id(parsed: Result<Json, Seq<char>>) -> Option<RequestIdView> {
    match parsed {
        Ok(v) => match message_shape(v) {
            MessageShape::Response(id, _) => Some(id),
            MessageShape::Error(id, _, _, _) => Some(id),
            _ => None,
        },
        Err(_) => None,
    }
}

/// The JSON message of an encoded request.
pub open spec fn request_message(id: RequestIdView, method: Seq<char>, params: Json) -> Json {
    Json::Object(seq![("id"@, request_id_json(id)), ("method"@, Json::Str(method)), ("params"@, params)])
}

/// The JSON message of an encoded response.
pub open spec fn response_message(id: RequestIdView, result: Json) -> Json {
    Json::Object(seq![("id"@, request_id_json(id)), ("result"@, result)])
}

impl CodexCodec {
    pub closed spec fn wf(&self) -> bool {
        keys_unique(self.pending_methods@)
    }

    pub fn new() -> (r: Self)
        ensures
            r.wf(),
            r@.next_request_id == 1,
            r@.pending == Map::<RequestIdView, Seq<char>>::empty(),
    {
        let r = CodexCodec { next_request_id: 1, pending_methods: Vec::new() };
        proof {
            assert(pending_view(r.pending_methods@) =~= Map::<RequestIdView, Seq<char>>::empty());
        }
        r
    }

    fn find_pending(&self, id: &RequestId) -> (r: Option<usize>)
        requires
            self.wf(),
        ensures
            match r {
                Some(i) => i < self.pending_methods@.len() && self.pending_methods@[i as int].0@ == id@,
                None => !self@.pending.contains_key(id@),
            },
    {
        let mut i: usize = 0;
        while i < self.pending_methods.len()
            invariant
                i <= self.pending_methods@.len(),
                forall|j: int| 0 <= j < i ==> self.pending_methods@[j].0@ != id@,
            decreases self.pending_methods.len() - i,
        {
            if self.pending_methods[i].0.eq(id) {
                return Some(i);
            }
            i = i + 1;
        }
        None
    }

    /// The id the next encoded request gets.
    pub fn next_request_id(&self) -> (r: i64)
        ensures
            r == self@.next_request_id,
    {
        self.next_request_id
    }

    /// Encodes a request with the next numeric id and remembers its method.
    pub fn encode_request(&mut self, method: &str, params: JsonValue) -> (r: (RequestId, JsonValue))
        requires
            old(self).wf(),
            old(self)@.next_request_id < i64::MAX,
        ensures
            final(self).wf(),
            r.0@ == RequestIdView::Integer(old(self)@.next_request_id),
            final(self)@.next_request_id == old(self)@.next_request_id + 1,
            final(self)@.pending == old(self)@.pending.insert(r.0@, method@),
            r.1@ == request_message(r.0@, method@, params@),
    {
        let request_id = RequestId::Integer(self.next_request_id);
        self.next_request_id = self.next_request_id + 1;
        self.encode_request_with_id(request_id, method, params)
    }

    /// Encodes a request with the given id and remembers its method (replacing the
    /// method of a pending request with the same id).
    pub fn encode_request_with_id(&mut self, request_id: RequestId, method: &str, params: JsonValue) -> (r: (RequestId, JsonValue))
        requires
            old(self).wf(),
        ensures
            final(self).wf(),
            r.0@ == request_id@,
            final(self)@.next_request_id == old(self)@.next_request_id,
            final(self)@.pending == old(self)@.pending.insert(request_id@, method@),
            r.1@ == request_message(request_id@, method@, params@),
    {
        let ghost ps = self.pending_methods@;
        match self.find_pending(&request_id) {
            Some(i) => {
                let key = self.pending_methods[i].0.copy();
                self.pending_methods.set(i, (key, method.to_owned()));
                proof {
                    assert(self.pending_methods@[i as int].0@ == ps[i as int].0@);
                    assert forall|a: int, b: int| 0 <= a < self.pending_methods@.len() && 0 <= b < self.pending_methods@.len() && a != b implies self.pending_methods@[a].0@ != self.pending_methods@[b].0@ by {
                        if a != i as int { assert(self.pending_methods@[a] == ps[a]); }
                        if b != i as int { assert(self.pending_methods@[b] == ps[b]); }
                    }
                    assert(pending_view(self.pending_methods@) =~= pending_view(ps).insert(request_id@, method@)) by {
                        assert forall|k: RequestIdView| #[trigger] pending_view(self.pending_methods@).contains_key(k) == pending_view(ps).insert(request_id@, method@).contains_key(k) by {
                            if pending_view(ps).contains_key(k) {
                                let j = choose|j: int| 0 <= j < ps.len() && ps[j].0@ == k;
                                assert(self.pending_methods@[j].0@ == ps[j].0@);
                            }
                            if pending_view(self.pending_methods@).contains_key(k) {
                                let j = choose|j: int| 0 <= j < self.pending_methods@.len() && self.pending_methods@[j].0@ == k;
                                if j != i as int { assert(self.pending_methods@[j] == ps[j]); }
                            }
                            if k == request_id@ {
                                assert(self.pending_methods@[i as int].0@ == k);
                            }
                        }
                        assert forall|k: RequestIdView| #[trigger] pending_view(self.pending_methods@).contains_key(k) implies pending_view(self.pending_methods@)[k] == pending_view(ps).insert(request_id@, method@)[k] by {
                            let j = choose|j: int| 0 <= j < self.pending_methods@.len() && self.pending_methods@[j].0@ == k;
                            lemma_pending_lookup(self.pending_methods@, j);
                            if j != i as int {
                                assert(self.pending_methods@[j] == ps[j]);
                                lemma_pending_lookup(ps, j);
                            }
                        }
                    }
                }
            },
            None => {
                let entry = (request_id.copy(), method.to_owned());
                proof {
                    lemma_pending_push(ps, entry);
                }
                self.pending_methods.push(entry);
            },
        }
        let message = obj3("id", request_id.to_json(), "method", JsonValue::Str(method.to_owned()), "params", params);
        (request_id, message)
    }

    /// The JSON message answering `request_id` with `result`.
    pub fn encode_response(request_id: RequestId, result: JsonValue) -> (r: JsonValue)
        ensures
            r@ == response_message(request_id@, result@),
    {
        let message = obj2("id", request_id.to_json(), "result", result);
        message
    }
}

pub open spec fn parsed_view(p: Result<JsonValue, String>) -> Result<Json, Seq<char>> {
    match p {
        Ok(v) => Ok(v@),
        Err(e) => Err(e@),
    }
}

fn member_request_id_exec(v: &JsonValue) -> (r: Option<RequestId>)
    ensures
        match r {
            Some(id) => member_request_id(v@) == Some(id@),
            None => member_request_id(v@) is None,
        },
{
    match get(v, "id") {
        Some(x) => RequestId::from_json(x),
        None => None,
    }
}

fn member_str_exec(v: &JsonValue, key: &str) -> (r: Option<String>)
    ensures
        opt_string(r) == member_str(v@, key@),
{
    match get(v, key) {
        Some(x) => match as_str(x) {
            Some(t) => Some(t.to_owned()),
            None => None,
        },
        None => None,
    }
}

fn error_object_exec(v: &JsonValue) -> (r: Option<JSONRPCErrorError>)
    ensures
        match r {
            Some(e) => error_object(v@) == Some((e.code, e.message@, opt_json_owned(e.data))),
            None => error_object(v@) is None,
        },
{
    match get(v, "error") {
        Some(e) => {
            let code = match get(e, "code") {
                Some(c) => as_i64(c),
                None => None,
            };
            let message = member_str_exec(e, "message");
            match (code, message) {
                (Some(code), Some(message)) => {
                    let is_object = match e {
                        JsonValue::Object(_) => true,
                        _ => false,
                    };
                    if !is_object {
                        return None;
                    }
                    let data = match get(e, "data") {
                        Some(JsonValue::Null) => None,
                        Some(d) => Some(json_clone(d)),
                        None => None,
                    };
                    Some(JSONRPCErrorError { code, data, message })
                },
                _ => None,
            }
        },
        None => None,
    }
}

impl CodexCodec {
    /// Removes the pending request `id`, returning its method.
    fn take_pending(&mut self, id: &RequestId) -> (r: Option<String>)
        requires
            old(self).wf(),
        ensures
            final(self).wf(),
            final(self)@.next_request_id == old(self)@.next_request_id,
            final(self)@.pending == old(self)@.pending.remove(id@),
            opt_string(r) == (if old(self)@.pending.contains_key(id@) {
                Some(old(self)@.pending[id@])
            } else {
                None
            }),
    {
        let ghost ps = self.pending_methods@;
        match self.find_pending(id) {
            Some(i) => {
                proof {
                    lemma_pending_remove(ps, i as int);
                    lemma_pending_lookup(ps, i as int);
                }
                let (_, method) = self.pending_methods.remove(i);
                Some(method)
            },
            None => {
                proof {
                    assert(pending_view(ps).remove(id@) =~= pending_view(ps));
                }
                None
            },
        }
    }

    /// Classifies one inbound line, given the line and the outcome of parsing its text
    /// (see [`frame_text`]) as JSON. A response or error settles the pending request it
    /// answers and carries that request's method.
    pub fn decode_parsed(&mut self, line: &str, parsed: Result<JsonValue, String>) -> (f: CodexDecodedFrame)
        requires
            old(self).wf(),
        ensures
            final(self).wf(),
            frame_matches(old(self)@.pending, line@, parsed_view(parsed), f),
            final(self)@.next_request_id == old(self)@.next_request_id,
            final(self)@.pending == match answered_id(parsed_view(parsed)) {
                Some(id) => old(self)@.pending.remove(id),
                None => old(self)@.pending,
            },
    {
        let v = match parsed {
            Err(error) => {
                return CodexDecodedFrame::Malformed(CodexMalformedFrame { line: line.to_owned(), error });
            },
            Ok(v) => v,
        };
        let is_object = match &v {
            JsonValue::Object(_) => true,
            _ => false,
        };
        let id = member_request_id_exec(&v);
        let method = member_str_exec(&v, "method");
        if !is_object {
            return CodexDecodedFrame::Malformed(CodexMalformedFrame {
                line: line.to_owned(),
                error: crate::text::owned("data did not match any variant of untagged enum JSONRPCMessage"),
            });
        }
        match (id, method) {
            (Some(id), Some(method)) => {
                let decoded = if is_known_server_request_method(method.as_str()) {
                    Some(CodexKnownServerRequest { method: method.clone() })
                } else {
                    None
                };
                return CodexDecodedFrame::ServerRequest(CodexServerRequestFrame {
                    request_id: id,
                    method,
                    decoded,
                    raw_payload: v,
                });
            },
            (None, Some(method)) => {
                let decoded = if is_known_server_notification_method(method.as_str()) {
                    Some(CodexKnownServerNotification { method: method.clone() })
                } else {
                    None
                };
                return CodexDecodedFrame::ServerNotification(CodexServerNotificationFrame {
                    method,
                    decoded,
                    raw_payload: v,
                });
            },
            (Some(id), None) => {
                let result = match get(&v, "result") {
                    Some(r) => Some(json_clone(r)),
                    None => None,
                };
                match result {
                    Some(result) => {
                        let method = self.take_pending(&id);
                        let decoded = match &method {
                            Some(m) => if is_known_client_request_method(m.as_str()) {
                                Some(CodexKnownClientResponse { method: m.clone() })
                            } else {
                                None
                            },
                            None => None,
                        };
                        return CodexDecodedFrame::ClientResponse(CodexClientResponseFrame {
                            request_id: id,
                            method,
                            result,
                            decoded,
                            raw_payload: v,
                        });
                    },
                    None => {},
                }
                match error_object_exec(&v) {
                    Some(error) => {
                        let method = self.take_pending(&id);
                        return CodexDecodedFrame::ClientError(CodexClientErrorFrame {
                            request_id: id,
                            method,
                            error,
                            raw_payload: v,
                        });
                    },
                    None => {},
                }
            },
            (None, None) => {},
        }
        CodexDecodedFrame::Malformed(CodexMalformedFrame {
            line: line.to_owned(),
            error: crate::text::owned("data did not match any variant of untagged enum JSONRPCMessage"),
        })
    }
}

/// The native method, kind, id and payload of a frame.
pub trait CodexNativeFrame {
    fn native_method(&self) -> Option<&str>;

    fn native_kind(&self) -> &'static str;

    fn native_id(&self) -> Option<String>;

    fn raw_payload(&self) -> Option<&JsonValue>;
}

pub open spec fn frame_method(f: CodexDecodedFrame) -> Option<Seq<char>> {
    match f {
        CodexDecodedFrame::ClientResponse(r) => opt_string(r.method),
        CodexDecodedFrame::ClientError(e) => opt_string(e.method),
        CodexDecodedFrame::ServerRequest(r) => Some(r.method@),
        CodexDecodedFrame::ServerNotification(n) => Some(n.method@),
        CodexDecodedFrame::Malformed(_) => None,
    }
}

pub open spec fn frame_kind(f: CodexDecodedFrame) -> Seq<char> {
    match f {
        CodexDecodedFrame::ClientResponse(_) => "client_response"@,
        CodexDecodedFrame::ClientError(_) => "client_error"@,
        CodexDecodedFrame::ServerRequest(_) => "server_request"@,
        CodexDecodedFrame::ServerNotification(_) => "server_notification"@,
        CodexDecodedFrame::Malformed(_) => "malformed"@,
    }
}

pub open spec fn frame_native_id(f: CodexDecodedFrame) -> Option<Seq<char>> {
    match f {
        CodexDecodedFrame::ClientResponse(r) => Some(request_id_text(r.request_id@)),
        CodexDecodedFrame::ClientError(e) => Some(request_id_text(e.request_id@)),
        CodexDecodedFrame::ServerRequest(r) => Some(request_id_text(r.request_id@)),
        _ => None,
    }
}

pub open spec fn frame_raw_payload(f: CodexDecodedFrame) -> Option<Json> {
    match f {
        CodexDecodedFrame::ClientResponse(r) => Some(r.raw_payload@),
        CodexDecodedFrame::ClientError(e) => Some(e.raw_payload@),
        CodexDecodedFrame::ServerRequest(r) => Some(r.raw_payload@),
        CodexDecodedFrame::ServerNotification(n) => Some(n.raw_payload@),
        CodexDecodedFrame::Malformed(_) => None,
    }
}

impl CodexNativeFrame for CodexDecodedFrame {
    fn native_method(&self) -> (r: Option<&str>)
        ensures
            crate::json::opt_str(r) == frame_method(*self),
    {
        match self {
            CodexDecodedFrame::ClientResponse(frame) => match &frame.method {
                Some(m) => Some(m.as_str()),
                None => None,
            },
            CodexDecodedFrame::ClientError(frame) => match &frame.method {
                Some(m) => Some(m.as_str()),
                None => None,
            },
            CodexDecodedFrame::ServerRequest(frame) => Some(frame.method.as_str()),
            CodexDecodedFrame::ServerNotification(frame) => Some(frame.method.as_str()),
            CodexDecodedFrame::Malformed(_) => None,
        }
    }

    fn native_kind(&self) -> (r: &'static str)
        ensures
            r@ == frame_kind(*self),
    {
        match self {
            CodexDecodedFrame::ClientResponse(_) => "client_response",
            CodexDecodedFrame::ClientError(_) => "client_error",
            CodexDecodedFrame::ServerRequest(_) => "server_request",
            CodexDecodedFrame::ServerNotification(_) => "server_notification",
            CodexDecodedFrame::Malformed(_) => "malformed",
        }
    }

    fn native_id(&self) -> (r: Option<String>)
        ensures
            opt_string(r) == frame_native_id(*self),
    {
        match self {
            CodexDecodedFrame::ClientResponse(frame) => Some(frame.request_id.to_text()),
            CodexDecodedFrame::ClientError(frame) => Some(frame.request_id.to_text()),
            CodexDecodedFrame::ServerRequest(frame) => Some(frame.request_id.to_text()),
            _ => None,
        }
    }

    fn raw_payload(&self) -> (r: Option<&JsonValue>)
        ensures
            crate::json::opt_json(r) == frame_raw_payload(*self),
    {
        match self {
            CodexDecodedFrame::ClientResponse(frame) => Some(&frame.raw_payload),
            CodexDecodedFrame::ClientError(frame) => Some(&frame.raw_payload),
            CodexDecodedFrame::ServerRequest(frame) => Some(&frame.raw_payload),
            CodexDecodedFrame::ServerNotification(frame) => Some(&frame.raw_payload),
            CodexDecodedFrame::Malformed(_) => None,
        }
    }
}

/// The native reference of a frame.
pub fn native_ref_for_frame(frame: &CodexDecodedFrame) -> (r: NativeRef)
    ensures
        r.protocol@ == CODEX_APP_SERVER_PROTOCOL@,
        opt_string(r.method) == frame_method(*frame),
        opt_string(r.kind) == Some(frame_kind(*frame)),
        opt_string(r.native_id) == frame_native_id(*frame),
        r.summary is None && r.hash is None && r.pointer is None,
        opt_json_owned(r.raw_payload) == frame_raw_payload(*frame),
{
    NativeRef {
        protocol: CODEX_APP_SERVER_PROTOCOL.to_owned(),
        method: match frame.native_method() {
            Some(m) => Some(m.to_owned()),
            None => None,
        },
        kind: Some(frame.native_kind().to_owned()),
        native_id: frame.native_id(),
        summary: None,
        hash: None,
        pointer: None,
        raw_payload: match frame.raw_payload() {
            Some(p) => Some(json_clone(p)),
            None => None,
        },
    }
}

/// The native reference of a decoded frame; for a malformed line, the payload holds the
/// line and the parse error.
pub fn native_ref_for_decoded_frame(frame: &CodexDecodedFrame) -> (r: NativeRef)
    ensures
        r.protocol@ == CODEX_APP_SERVER_PROTOCOL@,
        opt_string(r.method) == frame_method(*frame),
        opt_string(r.kind) == Some(frame_kind(*frame)),
        opt_string(r.native_id) == frame_native_id(*frame),
        r.summary is None && r.hash is None && r.pointer is None,
        opt_json_owned(r.raw_payload) == match *frame {
            CodexDecodedFrame::Malformed(m) => Some(
                Json::Object(seq![("line"@, Json::Str(m.line@)), ("error"@, Json::Str(m.error@))]),
            ),
            _ => frame_raw_payload(*frame),
        },
{
    let mut native = native_ref_for_frame(frame);
    if let CodexDecodedFrame::Malformed(malformed) = frame {
        native.raw_payload = Some(
            obj2(
                "line",
                JsonValue::Str(malformed.line.clone()),
                "error",
                JsonValue::Str(malformed.error.clone()),
            ),
        );
    }
    native
}

/// A response to a request the codec encoded carries that request's method (decoded
/// when the method is a known client request), and settles it.
pub proof fn law_response_correlates_with_request(
    pending: Map<RequestIdView, Seq<char>>,
    id: RequestIdView,
    method: Seq<char>,
    line: Seq<char>,
    v: Json,
    f: CodexDecodedFrame,
)
    requires
        message_shape(v) is Response,
        message_shape(v)->Response_0 == id,
        frame_matches(pending.insert(id, method), line, Ok(v), f),
    ensures
        f matches CodexDecodedFrame::ClientResponse(r) && opt_string(r.method) == Some(method) && (opt_known(
            r.decoded,
        ) is Some <==> client_request_methods().contains(method)),
        answered_id(Ok(v)) == Some(id),
        !pending.insert(id, method).remove(id).contains_key(id),
{
}

} // verus!
