//! Codex reducer tables: how each Codex thread item and server notification maps to
//! universal events, and the classification helpers the reducer applies.
use vstd::prelude::*;
use crate::json::{Json, JsonValue, json_get, json_as_str, json_as_array, get, as_str};
use crate::text::{str_eq, owned, is_blank, blank};
use crate::model::{ItemRole, TurnStatus, SessionStatus, ProviderNotificationSeverity};

verus! {

/// A Codex construct and the universal events it maps to.
#[derive(Debug, Clone, Copy, Eq, PartialEq)]
pub struct CodexReducerMapping {
    pub codex: &'static str,
    pub mapping: &'static str,
}

pub open spec fn mappings_view(v: Seq<CodexReducerMapping>) -> Seq<(Seq<char>, Seq<char>)> {
    v.map_values(|m: CodexReducerMapping| (m.codex@, m.mapping@))
}

pub open spec fn thread_item_mappings_spec() -> Seq<(Seq<char>, Seq<char>)> {
    seq![
        ("AgentMessage"@, "item.created assistant text plus content.completed text"@),
        ("CollabAgentToolCall"@, "item.created tool subkind collab_agent/subagent"@),
        ("CommandExecution"@, "item.created command tool with command/output/status"@),
        ("ContextCompaction"@, "item.created system native plus compaction notification"@),
        ("DynamicToolCall"@, "item.created unsupported dynamic tool native row"@),
        ("EnteredReviewMode"@, "item.created system native plus review notification"@),
        ("ExitedReviewMode"@, "item.created system native plus review notification"@),
        ("FileChange"@, "item.created file_change tool plus diff.updated"@),
        ("HookPrompt"@, "item.created system native text"@),
        ("ImageGeneration"@, "item.created native image_generation row"@),
        ("ImageView"@, "item.created native image row"@),
        ("McpToolCall"@, "item.created mcp tool with arguments/result/error"@),
        ("Plan"@, "item.created assistant plan text plus plan.updated"@),
        ("Reasoning"@, "item.created assistant reasoning summary/raw content"@),
        ("UserMessage"@, "item.created user text/native content"@),
        ("WebSearch"@, "item.created tool subkind web_search"@),
    ]
}
/// How each Codex thread item variant is reduced.
pub fn thread_item_mappings() -> (r: Vec<CodexReducerMapping>)
    ensures
        mappings_view(r@) == thread_item_mappings_spec(),
{
    let mut v: Vec<CodexReducerMapping> = Vec::new();
    v.push(CodexReducerMapping { codex: "AgentMessage", mapping: "item.created assistant text plus content.completed text" });
    v.push(CodexReducerMapping { codex: "CollabAgentToolCall", mapping: "item.created tool subkind collab_agent/subagent" });
    v.push(CodexReducerMapping { codex: "CommandExecution", mapping: "item.created command tool with command/output/status" });
    v.push(CodexReducerMapping { codex: "ContextCompaction", mapping: "item.created system native plus compaction notification" });
    v.push(CodexReducerMapping { codex: "DynamicToolCall", mapping: "item.created unsupported dynamic tool native row" });
    v.push(CodexReducerMapping { codex: "EnteredReviewMode", mapping: "item.created system native plus review notification" });
    v.push(CodexReducerMapping { codex: "ExitedReviewMode", mapping: "item.created system native plus review notification" });
    v.push(CodexReducerMapping { codex: "FileChange", mapping: "item.created file_change tool plus diff.updated" });
    v.push(CodexReducerMapping { codex: "HookPrompt", mapping: "item.created system native text" });
    v.push(CodexReducerMapping { codex: "ImageGeneration", mapping: "item.created native image_generation row" });
    v.push(CodexReducerMapping { codex: "ImageView", mapping: "item.created native image row" });
    v.push(CodexReducerMapping { codex: "McpToolCall", mapping: "item.created mcp tool with arguments/result/error" });
    v.push(CodexReducerMapping { codex: "Plan", mapping: "item.created assistant plan text plus plan.updated" });
    v.push(CodexReducerMapping { codex: "Reasoning", mapping: "item.created assistant reasoning summary/raw content" });
    v.push(CodexReducerMapping { codex: "UserMessage", mapping: "item.created user text/native content" });
    v.push(CodexReducerMapping { codex: "WebSearch", mapping: "item.created tool subkind web_search" });
    proof {
        assert(mappings_view(v@) =~= thread_item_mappings_spec());
    }
    v
}

pub open spec fn server_notification_mappings_spec() -> Seq<(Seq<char>, Seq<char>)> {
    seq![
        ("account/login/completed"@, "provider.notification account"@),
        ("account/rateLimits/updated"@, "usage.updated plus account rate notification"@),
        ("account/updated"@, "provider.notification account"@),
        ("app/list/updated"@, "provider.notification apps"@),
        ("command/exec/outputDelta"@, "native.unknown one-off command output delta with raw payload"@),
        ("configWarning"@, "provider.notification warning"@),
        ("deprecationNotice"@, "provider.notification warning"@),
        ("error"@, "error.reported"@),
        ("externalAgentConfig/import/completed"@, "provider.notification external_agent_config"@),
        ("fs/changed"@, "provider.notification fs_watch"@),
        ("fuzzyFileSearch/sessionCompleted"@, "provider.notification fuzzy_file_search"@),
        ("fuzzyFileSearch/sessionUpdated"@, "provider.notification fuzzy_file_search"@),
        ("guardianWarning"@, "provider.notification warning"@),
        ("hook/completed"@, "provider.notification hook"@),
        ("hook/started"@, "provider.notification hook"@),
        ("item/agentMessage/delta"@, "content.delta text"@),
        ("item/autoApprovalReview/completed"@, "provider.notification approval_review"@),
        ("item/autoApprovalReview/started"@, "provider.notification approval_review"@),
        ("item/commandExecution/outputDelta"@, "content.delta command_output"@),
        ("item/commandExecution/terminalInteraction"@, "content.delta terminal_input"@),
        ("item/completed"@, "item completion mapping plus content.completed when applicable"@),
        ("item/fileChange/outputDelta"@, "content.delta command_output"@),
        ("item/fileChange/patchUpdated"@, "diff.updated"@),
        ("item/mcpToolCall/progress"@, "content.delta provider_status"@),
        ("item/plan/delta"@, "content.delta text plus partial plan.updated"@),
        ("item/reasoning/summaryPartAdded"@, "provider.notification reasoning"@),
        ("item/reasoning/summaryTextDelta"@, "content.delta reasoning"@),
        ("item/reasoning/textDelta"@, "content.delta reasoning raw"@),
        ("item/started"@, "item.created streaming"@),
        ("mcpServer/oauthLogin/completed"@, "provider.notification mcp_oauth"@),
        ("mcpServer/startupStatus/updated"@, "provider.notification mcp_status"@),
        ("model/rerouted"@, "provider.notification model"@),
        ("model/verification"@, "provider.notification model"@),
        ("rawResponseItem/completed"@, "native.unknown raw response item"@),
        ("remoteControl/status/changed"@, "provider.notification remote_control"@),
        ("serverRequest/resolved"@, "provider.notification unresolved_server_request_resolved for Stage 6"@),
        ("skills/changed"@, "provider.notification skills"@),
        ("thread/archived"@, "session.status_changed archived"@),
        ("thread/closed"@, "session.status_changed stopped"@),
        ("thread/compacted"@, "provider.notification compaction"@),
        ("thread/goal/cleared"@, "provider.notification thread_goal"@),
        ("thread/goal/updated"@, "provider.notification thread_goal"@),
        ("thread/name/updated"@, "session.metadata_changed"@),
        ("thread/realtime/closed"@, "provider.notification realtime"@),
        ("thread/realtime/error"@, "error.reported plus realtime notification"@),
        ("thread/realtime/itemAdded"@, "native.unknown realtime item raw payload"@),
        ("thread/realtime/outputAudio/delta"@, "native.unknown realtime audio raw payload"@),
        ("thread/realtime/sdp"@, "provider.notification realtime"@),
        ("thread/realtime/started"@, "provider.notification realtime"@),
        ("thread/realtime/transcript/delta"@, "content.delta text"@),
        ("thread/realtime/transcript/done"@, "content.completed text"@),
        ("thread/started"@, "provider.notification thread_started metadata reconciliation"@),
        ("thread/status/changed"@, "session.status_changed"@),
        ("thread/tokenUsage/updated"@, "usage.updated"@),
        ("thread/unarchived"@, "session.status_changed idle"@),
        ("turn/completed"@, "turn.completed/interrupted/failed/status_changed"@),
        ("turn/diff/updated"@, "diff.updated"@),
        ("turn/plan/updated"@, "plan.updated"@),
        ("turn/started"@, "turn.started"@),
        ("warning"@, "provider.notification warning"@),
        ("windows/worldWritableWarning"@, "provider.notification warning"@),
        ("windowsSandbox/setupCompleted"@, "provider.notification windows_sandbox"@),
    ]
}
/// How each Codex server notification is reduced.
pub fn server_notification_mappings() -> (r: Vec<CodexReducerMapping>)
    ensures
        mappings_view(r@) == server_notification_mappings_spec(),
{
    let mut v: Vec<CodexReducerMapping> = Vec::new();
    v.push(CodexReducerMapping { codex: "account/login/completed", mapping: "provider.notification account" });
    v.push(CodexReducerMapping { codex: "account/rateLimits/updated", mapping: "usage.updated plus account rate notification" });
    v.push(CodexReducerMapping { codex: "account/updated", mapping: "provider.notification account" });
    v.push(CodexReducerMapping { codex: "app/list/updated", mapping: "provider.notification apps" });
    v.push(CodexReducerMapping { codex: "command/exec/outputDelta", mapping: "native.unknown one-off command output delta with raw payload" });
    v.push(CodexReducerMapping { codex: "configWarning", mapping: "provider.notification warning" });
    v.push(CodexReducerMapping { codex: "deprecationNotice", mapping: "provider.notification warning" });
    v.push(CodexReducerMapping { codex: "error", mapping: "error.reported" });
    v.push(CodexReducerMapping { codex: "externalAgentConfig/import/completed", mapping: "provider.notification external_agent_config" });
    v.push(CodexReducerMapping { codex: "fs/changed", mapping: "provider.notification fs_watch" });
    v.push(CodexReducerMapping { codex: "fuzzyFileSearch/sessionCompleted", mapping: "provider.notification fuzzy_file_search" });
    v.push(CodexReducerMapping { codex: "fuzzyFileSearch/sessionUpdated", mapping: "provider.notification fuzzy_file_search" });
    v.push(CodexReducerMapping { codex: "guardianWarning", mapping: "provider.notification warning" });
    v.push(CodexReducerMapping { codex: "hook/completed", mapping: "provider.notification hook" });
    v.push(CodexReducerMapping { codex: "hook/started", mapping: "provider.notification hook" });
    v.push(CodexReducerMapping { codex: "item/agentMessage/delta", mapping: "content.delta text" });
    v.push(CodexReducerMapping { codex: "item/autoApprovalReview/completed", mapping: "provider.notification approval_review" });
    v.push(CodexReducerMapping { codex: "item/autoApprovalReview/started", mapping: "provider.notification approval_review" });
    v.push(CodexReducerMapping { codex: "item/commandExecution/outputDelta", mapping: "content.delta command_output" });
    v.push(CodexReducerMapping { codex: "item/commandExecution/terminalInteraction", mapping: "content.delta terminal_input" });
    v.push(CodexReducerMapping { codex: "item/completed", mapping: "item completion mapping plus content.completed when applicable" });
    v.push(CodexReducerMapping { codex: "item/fileChange/outputDelta", mapping: "content.delta command_output" });
    v.push(CodexReducerMapping { codex: "item/fileChange/patchUpdated", mapping: "diff.updated" });
    v.push(CodexReducerMapping { codex: "item/mcpToolCall/progress", mapping: "content.delta provider_status" });
    v.push(CodexReducerMapping { codex: "item/plan/delta", mapping: "content.delta text plus partial plan.updated" });
    v.push(CodexReducerMapping { codex: "item/reasoning/summaryPartAdded", mapping: "provider.notification reasoning" });
    v.push(CodexReducerMapping { codex: "item/reasoning/summaryTextDelta", mapping: "content.delta reasoning" });
    v.push(CodexReducerMapping { codex: "item/reasoning/textDelta", mapping: "content.delta reasoning raw" });
    v.push(CodexReducerMapping { codex: "item/started", mapping: "item.created streaming" });
    v.push(CodexReducerMapping { codex: "mcpServer/oauthLogin/completed", mapping: "provider.notification mcp_oauth" });
    v.push(CodexReducerMapping { codex: "mcpServer/startupStatus/updated", mapping: "provider.notification mcp_status" });
    v.push(CodexReducerMapping { codex: "model/rerouted", mapping: "provider.notification model" });
    v.push(CodexReducerMapping { codex: "model/verification", mapping: "provider.notification model" });
    v.push(CodexReducerMapping { codex: "rawResponseItem/completed", mapping: "native.unknown raw response item" });
    v.push(CodexReducerMapping { codex: "remoteControl/status/changed", mapping: "provider.notification remote_control" });
    v.push(CodexReducerMapping { codex: "serverRequest/resolved", mapping: "provider.notification unresolved_server_request_resolved for Stage 6" });
    v.push(CodexReducerMapping { codex: "skills/changed", mapping: "provider.notification skills" });
    v.push(CodexReducerMapping { codex: "thread/archived", mapping: "session.status_changed archived" });
    v.push(CodexReducerMapping { codex: "thread/closed", mapping: "session.status_changed stopped" });
    v.push(CodexReducerMapping { codex: "thread/compacted", mapping: "provider.notification compaction" });
    v.push(CodexReducerMapping { codex: "thread/goal/cleared", mapping: "provider.notification thread_goal" });
    v.push(CodexReducerMapping { codex: "thread/goal/updated", mapping: "provider.notification thread_goal" });
    v.push(CodexReducerMapping { codex: "thread/name/updated", mapping: "session.metadata_changed" });
    v.push(CodexReducerMapping { codex: "thread/realtime/closed", mapping: "provider.notification realtime" });
    v.push(CodexReducerMapping { codex: "thread/realtime/error", mapping: "error.reported plus realtime notification" });
    v.push(CodexReducerMapping { codex: "thread/realtime/itemAdded", mapping: "native.unknown realtime item raw payload" });
    v.push(CodexReducerMapping { codex: "thread/realtime/outputAudio/delta", mapping: "native.unknown realtime audio raw payload" });
    v.push(CodexReducerMapping { codex: "thread/realtime/sdp", mapping: "provider.notification realtime" });
    v.push(CodexReducerMapping { codex: "thread/realtime/started", mapping: "provider.notification realtime" });
    v.push(CodexReducerMapping { codex: "thread/realtime/transcript/delta", mapping: "content.delta text" });
    v.push(CodexReducerMapping { codex: "thread/realtime/transcript/done", mapping: "content.completed text" });
    v.push(CodexReducerMapping { codex: "thread/started", mapping: "provider.notification thread_started metadata reconciliation" });
    v.push(CodexReducerMapping { codex: "thread/status/changed", mapping: "session.status_changed" });
    v.push(CodexReducerMapping { codex: "thread/tokenUsage/updated", mapping: "usage.updated" });
    v.push(CodexReducerMapping { codex: "thread/unarchived", mapping: "session.status_changed idle" });
    v.push(CodexReducerMapping { codex: "turn/completed", mapping: "turn.completed/interrupted/failed/status_changed" });
    v.push(CodexReducerMapping { codex: "turn/diff/updated", mapping: "diff.updated" });
    v.push(CodexReducerMapping { codex: "turn/plan/updated", mapping: "plan.updated" });
    v.push(CodexReducerMapping { codex: "turn/started", mapping: "turn.started" });
    v.push(CodexReducerMapping { codex: "warning", mapping: "provider.notification warning" });
    v.push(CodexReducerMapping { codex: "windows/worldWritableWarning", mapping: "provider.notification warning" });
    v.push(CodexReducerMapping { codex: "windowsSandbox/setupCompleted", mapping: "provider.notification windows_sandbox" });
    proof {
        assert(mappings_view(v@) =~= server_notification_mappings_spec());
    }
    v
}


pub open spec fn reduced_notification_methods() -> Seq<Seq<char>> {
    server_notification_mappings_spec().map_values(|m: (Seq<char>, Seq<char>)| m.0)
}

/// A notification method the reducer maps.
pub fn is_known_reduced_notification(method: &str) -> (r: bool)
    ensures
        r == reduced_notification_methods().contains(method@),
{
    let mappings = server_notification_mappings();
    let mut i: usize = 0;
    while i < mappings.len()
        invariant
            mappings_view(mappings@) == server_notification_mappings_spec(),
            i <= mappings@.len(),
            forall|j: int| 0 <= j < i ==> reduced_notification_methods()[j] != method@,
        decreases mappings.len() - i,
    {
        assert(reduced_notification_methods()[i as int] == mappings@[i as int].codex@);
        if str_eq(mappings[i].codex, method) {
            return true;
        }
        i = i + 1;
    }
    false
}

pub open spec fn notification_category_spec(m: Seq<char>) -> (Seq<char>, Seq<char>, Option<ProviderNotificationSeverity>) {
    if m == "skills/changed"@ {
        ("skills"@, "Skills changed"@, Some(ProviderNotificationSeverity::Info))
    }     else if m == "thread/started"@ {
        ("thread"@, "Thread started"@, Some(ProviderNotificationSeverity::Info))
    }     else if m == "thread/goal/updated"@ || m == "thread/goal/cleared"@ {
        ("thread_goal"@, "Thread goal updated"@, Some(ProviderNotificationSeverity::Info))
    }     else if m == "hook/started"@ || m == "hook/completed"@ {
        ("hook"@, "Hook updated"@, Some(ProviderNotificationSeverity::Info))
    }     else if m == "item/autoApprovalReview/started"@ || m == "item/autoApprovalReview/completed"@ {
        ("approval_review"@, "Approval review"@, Some(ProviderNotificationSeverity::Info))
    }     else if m == "item/reasoning/summaryPartAdded"@ {
        ("reasoning"@, "Reasoning summary part"@, Some(ProviderNotificationSeverity::Debug))
    }     else if m == "mcpServer/oauthLogin/completed"@ {
        ("mcp_oauth"@, "MCP OAuth completed"@, Some(ProviderNotificationSeverity::Info))
    }     else if m == "mcpServer/startupStatus/updated"@ {
        ("mcp_status"@, "MCP server status"@, Some(ProviderNotificationSeverity::Info))
    }     else if m == "account/updated"@ || m == "account/login/completed"@ {
        ("account"@, "Account updated"@, Some(ProviderNotificationSeverity::Info))
    }     else if m == "account/rateLimits/updated"@ {
        ("account"@, "Rate limits updated"@, Some(ProviderNotificationSeverity::Info))
    }     else if m == "app/list/updated"@ {
        ("apps"@, "App list updated"@, Some(ProviderNotificationSeverity::Info))
    }     else if m == "remoteControl/status/changed"@ {
        ("remote_control"@, "Remote control status"@, Some(ProviderNotificationSeverity::Info))
    }     else if m == "externalAgentConfig/import/completed"@ {
        ("external_agent_config"@, "External agent import completed"@, Some(ProviderNotificationSeverity::Info))
    }     else if m == "fs/changed"@ {
        ("fs_watch"@, "Filesystem changed"@, Some(ProviderNotificationSeverity::Info))
    }     else if m == "thread/compacted"@ {
        ("compaction"@, "Thread compacted"@, Some(ProviderNotificationSeverity::Info))
    }     else if m == "model/rerouted"@ || m == "model/verification"@ {
        ("model"@, "Model update"@, Some(ProviderNotificationSeverity::Info))
    }     else if m == "warning"@ || m == "guardianWarning"@ || m == "deprecationNotice"@ || m == "configWarning"@ || m == "windows/worldWritableWarning"@ {
        ("warning"@, "Codex warning"@, Some(ProviderNotificationSeverity::Warning))
    }     else if m == "fuzzyFileSearch/sessionUpdated"@ || m == "fuzzyFileSearch/sessionCompleted"@ {
        ("fuzzy_file_search"@, "Fuzzy file search"@, Some(ProviderNotificationSeverity::Info))
    }     else if m == "thread/realtime/started"@ || m == "thread/realtime/sdp"@ || m == "thread/realtime/closed"@ {
        ("realtime"@, "Realtime status"@, Some(ProviderNotificationSeverity::Info))
    }     else if m == "windowsSandbox/setupCompleted"@ {
        ("windows_sandbox"@, "Windows sandbox setup"@, Some(ProviderNotificationSeverity::Info))
    } else {
        ("codex"@, "Codex notification"@, Some(ProviderNotificationSeverity::Info))
    }
}

/// The category, title and severity of a generic provider notification.
pub fn notification_category(method: &str) -> (r: (&'static str, &'static str, Option<ProviderNotificationSeverity>))
    ensures
        (r.0@, r.1@, r.2) == notification_category_spec(method@),
{
    if str_eq(method, "skills/changed") {
        ("skills", "Skills changed", Some(ProviderNotificationSeverity::Info))
    }     else if str_eq(method, "thread/started") {
        ("thread", "Thread started", Some(ProviderNotificationSeverity::Info))
    }     else if str_eq(method, "thread/goal/updated") || str_eq(method, "thread/goal/cleared") {
        ("thread_goal", "Thread goal updated", Some(ProviderNotificationSeverity::Info))
    }     else if str_eq(method, "hook/started") || str_eq(method, "hook/completed") {
        ("hook", "Hook updated", Some(ProviderNotificationSeverity::Info))
    }     else if str_eq(method, "item/autoApprovalReview/started") || str_eq(method, "item/autoApprovalReview/completed") {
        ("approval_review", "Approval review", Some(ProviderNotificationSeverity::Info))
    }     else if str_eq(method, "item/reasoning/summaryPartAdded") {
        ("reasoning", "Reasoning summary part", Some(ProviderNotificationSeverity::Debug))
    }     else if str_eq(method, "mcpServer/oauthLogin/completed") {
        ("mcp_oauth", "MCP OAuth completed", Some(ProviderNotificationSeverity::Info))
    }     else if str_eq(method, "mcpServer/startupStatus/updated") {
        ("mcp_status", "MCP server status", Some(ProviderNotificationSeverity::Info))
    }     else if str_eq(method, "account/updated") || str_eq(method, "account/login/completed") {
        ("account", "Account updated", Some(ProviderNotificationSeverity::Info))
    }     else if str_eq(method, "account/rateLimits/updated") {
        ("account", "Rate limits updated", Some(ProviderNotificationSeverity::Info))
    }     else if str_eq(method, "app/list/updated") {
        ("apps", "App list updated", Some(ProviderNotificationSeverity::Info))
    }     else if str_eq(method, "remoteControl/status/changed") {
        ("remote_control", "Remote control status", Some(ProviderNotificationSeverity::Info))
    }     else if str_eq(method, "externalAgentConfig/import/completed") {
        ("external_agent_config", "External agent import completed", Some(ProviderNotificationSeverity::Info))
    }     else if str_eq(method, "fs/changed") {
        ("fs_watch", "Filesystem changed", Some(ProviderNotificationSeverity::Info))
    }     else if str_eq(method, "thread/compacted") {
        ("compaction", "Thread compacted", Some(ProviderNotificationSeverity::Info))
    }     else if str_eq(method, "model/rerouted") || str_eq(method, "model/verification") {
        ("model", "Model update", Some(ProviderNotificationSeverity::Info))
    }     else if str_eq(method, "warning") || str_eq(method, "guardianWarning") || str_eq(method, "deprecationNotice") || str_eq(method, "configWarning") || str_eq(method, "windows/worldWritableWarning") {
        ("warning", "Codex warning", Some(ProviderNotificationSeverity::Warning))
    }     else if str_eq(method, "fuzzyFileSearch/sessionUpdated") || str_eq(method, "fuzzyFileSearch/sessionCompleted") {
        ("fuzzy_file_search", "Fuzzy file search", Some(ProviderNotificationSeverity::Info))
    }     else if str_eq(method, "thread/realtime/started") || str_eq(method, "thread/realtime/sdp") || str_eq(method, "thread/realtime/closed") {
        ("realtime", "Realtime status", Some(ProviderNotificationSeverity::Info))
    }     else if str_eq(method, "windowsSandbox/setupCompleted") {
        ("windows_sandbox", "Windows sandbox setup", Some(ProviderNotificationSeverity::Info))
    } else {
        ("codex", "Codex notification", Some(ProviderNotificationSeverity::Info))
    }
}

pub open spec fn item_title_spec(k: Seq<char>) -> Seq<char> {
    if k == "userMessage"@ {
        "User message"@
    }     else if k == "hookPrompt"@ {
        "Hook prompt"@
    }     else if k == "agentMessage"@ {
        "Agent message"@
    }     else if k == "plan"@ {
        "Plan"@
    }     else if k == "reasoning"@ {
        "Reasoning"@
    }     else if k == "commandExecution"@ {
        "Command"@
    }     else if k == "fileChange"@ {
        "File change"@
    }     else if k == "mcpToolCall"@ {
        "MCP tool"@
    }     else if k == "dynamicToolCall"@ {
        "Dynamic tool"@
    }     else if k == "collabAgentToolCall"@ {
        "Agent collaboration"@
    }     else if k == "webSearch"@ {
        "Web search"@
    }     else if k == "imageView"@ {
        "Image view"@
    }     else if k == "imageGeneration"@ {
        "Image generation"@
    }     else if k == "enteredReviewMode"@ {
        "Entered review mode"@
    }     else if k == "exitedReviewMode"@ {
        "Exited review mode"@
    }     else if k == "contextCompaction"@ {
        "Context compaction"@
    } else {
        "Codex item"@
    }
}

/// The title of a Codex item kind.
pub fn item_title(kind: &str) -> (r: String)
    ensures
        r@ == item_title_spec(kind@),
{
    let t = if str_eq(kind, "userMessage") {
        "User message"
    } else if str_eq(kind, "hookPrompt") {
        "Hook prompt"
    } else if str_eq(kind, "agentMessage") {
        "Agent message"
    } else if str_eq(kind, "plan") {
        "Plan"
    } else if str_eq(kind, "reasoning") {
        "Reasoning"
    } else if str_eq(kind, "commandExecution") {
        "Command"
    } else if str_eq(kind, "fileChange") {
        "File change"
    } else if str_eq(kind, "mcpToolCall") {
        "MCP tool"
    } else if str_eq(kind, "dynamicToolCall") {
        "Dynamic tool"
    } else if str_eq(kind, "collabAgentToolCall") {
        "Agent collaboration"
    } else if str_eq(kind, "webSearch") {
        "Web search"
    } else if str_eq(kind, "imageView") {
        "Image view"
    } else if str_eq(kind, "imageGeneration") {
        "Image generation"
    } else if str_eq(kind, "enteredReviewMode") {
        "Entered review mode"
    } else if str_eq(kind, "exitedReviewMode") {
        "Exited review mode"
    } else if str_eq(kind, "contextCompaction") {
        "Context compaction"
    } else {
        "Codex item"
    };
    owned(t)
}

pub open spec fn item_role_spec(k: Seq<char>) -> ItemRole {
    if k == "userMessage"@ {
        ItemRole::User
    } else if k == "agentMessage"@ || k == "plan"@ || k == "reasoning"@ {
        ItemRole::Assistant
    } else if k == "hookPrompt"@ || k == "contextCompaction"@ || k == "enteredReviewMode"@
        || k == "exitedReviewMode"@ {
        ItemRole::System
    } else {
        ItemRole::Tool
    }
}

/// The role of a Codex item kind.
pub fn item_role(kind: &str) -> (r: ItemRole)
    ensures
        r == item_role_spec(kind@),
{
    if str_eq(kind, "userMessage") {
        ItemRole::User
    } else if str_eq(kind, "agentMessage") || str_eq(kind, "plan") || str_eq(kind, "reasoning") {
        ItemRole::Assistant
    } else if str_eq(kind, "hookPrompt") || str_eq(kind, "contextCompaction") || str_eq(
        kind,
        "enteredReviewMode",
    ) || str_eq(kind, "exitedReviewMode") {
        ItemRole::System
    } else {
        ItemRole::Tool
    }
}

pub open spec fn turn_status_spec(status: Option<Json>) -> TurnStatus {
    match status {
        Some(v) => match json_as_str(v) {
            Some(s) => if s == "completed"@ {
                TurnStatus::Completed
            } else if s == "interrupted"@ {
                TurnStatus::Interrupted
            } else if s == "failed"@ {
                TurnStatus::Failed
            } else {
                TurnStatus::Running
            },
            None => TurnStatus::Running,
        },
        None => TurnStatus::Running,
    }
}

/// The universal status of a Codex turn status value.
pub fn codex_turn_status_to_universal(status: Option<&JsonValue>) -> (r: TurnStatus)
    ensures
        r == turn_status_spec(crate::json::opt_json(status)),
{
    match status {
        Some(v) => match as_str(v) {
            Some(s) => if str_eq(s, "completed") {
                TurnStatus::Completed
            } else if str_eq(s, "interrupted") {
                TurnStatus::Interrupted
            } else if str_eq(s, "failed") {
                TurnStatus::Failed
            } else {
                TurnStatus::Running
            },
            None => TurnStatus::Running,
        },
        None => TurnStatus::Running,
    }
}

/// Whether an array of flags holds the string `flag`.
pub open spec fn has_flag(flags: Seq<Json>, flag: Seq<char>) -> bool {
    exists|i: int| 0 <= i < flags.len() && flags[i] == Json::Str(flag)
}

pub open spec fn active_flags(status: Json) -> Seq<Json> {
    match json_get(status, "activeFlags"@) {
        Some(a) => match json_as_array(a) {
            Some(s) => s,
            None => Seq::empty(),
        },
        None => Seq::empty(),
    }
}

pub open spec fn thread_status_spec(status: Option<Json>) -> SessionStatus {
    match status {
        Some(st) => match json_get(st, "type"@) {
            Some(t) => match json_as_str(t) {
                Some(s) => if s == "idle"@ {
                    SessionStatus::Idle
                } else if s == "notLoaded"@ {
                    SessionStatus::Stopped
                } else if s == "systemError"@ {
                    SessionStatus::Failed
                } else if s == "active"@ {
                    if has_flag(active_flags(st), "waitingOnApproval"@) {
                        SessionStatus::WaitingForApproval
                    } else if has_flag(active_flags(st), "waitingOnUserInput"@) {
                        SessionStatus::WaitingForInput
                    } else {
                        SessionStatus::Running
                    }
                } else {
                    SessionStatus::Degraded
                },
                None => SessionStatus::Degraded,
            },
            None => SessionStatus::Degraded,
        },
        None => SessionStatus::Degraded,
    }
}

fn array_has_flag(status: &JsonValue, flag: &str) -> (r: bool)
    ensures
        r == has_flag(active_flags(status@), flag@),
{
    let flags = match get(status, "activeFlags") {
        Some(a) => a,
        None => {
            return false;
        },
    };
    match flags {
        JsonValue::Array(items) => {
            let ghost fv = active_flags(status@);
            let mut i: usize = 0;
            while i < items.len()
                invariant
                    fv == active_flags(status@),
                    *flags == JsonValue::Array(*items),
                    flags@ == Json::Array(fv),
                    fv.len() == items@.len(),
                    forall|j: int| 0 <= j < items@.len() ==> #[trigger] fv[j] == crate::json::json_view(items@[j]),
                    i <= items.len(),
                    forall|j: int| 0 <= j < i ==> fv[j] != Json::Str(flag@),
                decreases items.len() - i,
            {
                assert(fv[i as int] == crate::json::json_view(items@[i as int]));
                match as_str(&items[i]) {
                    Some(s) => if str_eq(s, flag) {
                        assert(fv[i as int] == Json::Str(flag@));
                        return true;
                    },
                    None => {},
                }
                i = i + 1;
            }
            false
        },
        _ => false,
    }
}

/// The universal session status of a Codex thread status object.
pub fn codex_thread_status_to_universal(status: Option<&JsonValue>) -> (r: SessionStatus)
    ensures
        r == thread_status_spec(crate::json::opt_json(status)),
{
    let st = match status {
        Some(st) => st,
        None => {
            return SessionStatus::Degraded;
        },
    };
    let t = match get(st, "type") {
        Some(t) => match as_str(t) {
            Some(s) => s,
            None => {
                return SessionStatus::Degraded;
            },
        },
        None => {
            return SessionStatus::Degraded;
        },
    };
    if str_eq(t, "idle") {
        SessionStatus::Idle
    } else if str_eq(t, "notLoaded") {
        SessionStatus::Stopped
    } else if str_eq(t, "systemError") {
        SessionStatus::Failed
    } else if str_eq(t, "active") {
        if array_has_flag(st, "waitingOnApproval") {
            SessionStatus::WaitingForApproval
        } else if array_has_flag(st, "waitingOnUserInput") {
            SessionStatus::WaitingForInput
        } else {
            SessionStatus::Running
        }
    } else {
        SessionStatus::Degraded
    }
}

/// A string that holds more than whitespace; nothing otherwise.
pub fn pipe_non_empty(s: String) -> (r: Option<String>)
    ensures
        match r {
            Some(x) => x@ == s@ && !blank(s@),
            None => blank(s@),
        },
{
    if is_blank(s.as_str()) {
        None
    } else {
        Some(s)
    }
}


} // verus!

verus! {

/// A Codex turn's status word gives its universal status: `completed`, `interrupted`
/// and `failed` end the turn as such; any other word, or none, leaves it running.
pub proof fn law_turn_status_words(word: Seq<char>)
    ensures
        turn_status_spec(Some(Json::Str("completed"@))) == TurnStatus::Completed,
        turn_status_spec(Some(Json::Str("interrupted"@))) == TurnStatus::Interrupted,
        turn_status_spec(Some(Json::Str("failed"@))) == TurnStatus::Failed,
        (word != "completed"@ && word != "interrupted"@ && word != "failed"@) ==> turn_status_spec(
            Some(Json::Str(word)),
        ) == TurnStatus::Running,
        turn_status_spec(None) == TurnStatus::Running,
{
    reveal_strlit("completed");
    reveal_strlit("interrupted");
    reveal_strlit("failed");
    assert("completed"@.len() != "interrupted"@.len() && "completed"@.len() != "failed"@.len());
    assert("interrupted"@.len() != "failed"@.len());
}

/// A Codex thread status gives the session's status by its `type`: `idle` is idle,
/// `notLoaded` stopped, `systemError` failed; `active` is waiting for approval when
/// flagged so, else waiting for input when flagged so, else running; anything else is
/// degraded.
pub proof fn law_thread_status_types(st: Json, word: Seq<char>)
    requires
        json_get(st, "type"@) == Some(Json::Str(word)),
    ensures
        word == "idle"@ ==> thread_status_spec(Some(st)) == SessionStatus::Idle,
        word == "notLoaded"@ ==> thread_status_spec(Some(st)) == SessionStatus::Stopped,
        word == "systemError"@ ==> thread_status_spec(Some(st)) == SessionStatus::Failed,
        word == "active"@ && has_flag(active_flags(st), "waitingOnApproval"@) ==> thread_status_spec(Some(st))
            == SessionStatus::WaitingForApproval,
        word == "active"@ && !has_flag(active_flags(st), "waitingOnApproval"@) && has_flag(
            active_flags(st),
            "waitingOnUserInput"@,
        ) ==> thread_status_spec(Some(st)) == SessionStatus::WaitingForInput,
        word == "active"@ && !has_flag(active_flags(st), "waitingOnApproval"@) && !has_flag(
            active_flags(st),
            "waitingOnUserInput"@,
        ) ==> thread_status_spec(Some(st)) == SessionStatus::Running,
        (word != "idle"@ && word != "notLoaded"@ && word != "systemError"@ && word != "active"@)
            ==> thread_status_spec(Some(st)) == SessionStatus::Degraded,
{
    reveal_strlit("idle");
    reveal_strlit("notLoaded");
    reveal_strlit("systemError");
    reveal_strlit("active");
    assert("idle"@.len() != "notLoaded"@.len() && "idle"@.len() != "systemError"@.len());
    assert("notLoaded"@.len() != "systemError"@.len() && "notLoaded"@.len() != "active"@.len());
    assert("systemError"@.len() != "active"@.len() && "idle"@.len() != "active"@.len());
}

} // verus!
