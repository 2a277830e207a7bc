//! The Codex provider command manifest: every Codex client request the runner exposes
//! as a provider command, with its policy, and the classification of every client
//! request.
use vstd::prelude::*;
use crate::text::{str_eq, owned, blank, is_ws};

verus! {

/// A Codex client request exposed as a provider command.
#[derive(Clone, Copy, Debug, PartialEq, Eq)]
pub struct CodexProviderCommand {
    pub method: &'static str,
    pub category: CodexProviderCommandCategory,
    pub label: &'static str,
    pub schema: CodexProviderCommandSchema,
    pub response_kind: CodexProviderCommandResponseKind,
    pub availability: CodexProviderCommandAvailability,
    pub raw_payload_display: RawPayloadDisplay,
}

#[derive(Clone, Copy, Debug, PartialEq, Eq)]
pub struct CodexProviderCommandSchema {
    pub params_type: &'static str,
    pub response_type: &'static str,
}

#[derive(Clone, Copy, Debug, PartialEq, Eq, Structural)]
pub enum CodexProviderCommandCategory {
    ThreadMaintenance,
    Memory,
    SkillsPluginsApps,
    Filesystem,
    AccountDeviceAuth,
    ConfigMcp,
    Realtime,
    Feedback,
    ShellBackgroundTerminals,
    ExternalAgentConfig,
    FuzzySearch,
    WindowsSandbox,
    MockExperimental,
}

#[derive(Clone, Copy, Debug, PartialEq, Eq, Structural)]
pub enum CodexProviderCommandResponseKind {
    CommandResult,
    QueryResult,
    SessionMutation,
    ProviderNotification,
    StreamHandle,
    StreamingUpdate,
    LongRunning,
    UnsupportedCompatibility,
}

#[derive(Clone, Copy, Debug, PartialEq, Eq, Structural)]
pub enum CodexProviderCommandAvailability {
    Supported,
    Guarded,
    Experimental,
    PlatformGated,
    Disabled,
    Unsupported,
}

#[derive(Clone, Copy, Debug, PartialEq, Eq, Structural)]
pub enum RawPayloadDisplay {
    Always,
    Never,
}

/// How a Codex client request is handled by the runner.
#[derive(Clone, Copy, Debug, PartialEq, Eq)]
pub struct CodexClientRequestDisposition {
    pub method: &'static str,
    pub disposition: CodexClientRequestDispositionKind,
    pub reason: &'static str,
}

#[derive(Clone, Copy, Debug, PartialEq, Eq, Structural)]
pub enum CodexClientRequestDispositionKind {
    Core,
    ProviderCommand,
    AdapterInternal,
    Deferred,
}

/// The mathematical view of a provider command.
pub struct CommandView {
    pub method: Seq<char>,
    pub category: CodexProviderCommandCategory,
    pub label: Seq<char>,
    pub params_type: Seq<char>,
    pub response_type: Seq<char>,
    pub response_kind: CodexProviderCommandResponseKind,
    pub availability: CodexProviderCommandAvailability,
    pub raw_payload_display: RawPayloadDisplay,
}

impl View for CodexProviderCommand {
    type V = CommandView;

    open spec fn view(&self) -> CommandView {
        CommandView {
            method: self.method@,
            category: self.category,
            label: self.label@,
            params_type: self.schema.params_type@,
            response_type: self.schema.response_type@,
            response_kind: self.response_kind,
            availability: self.availability,
            raw_payload_display: self.raw_payload_display,
        }
    }
}

/// The mathematical view of a disposition.
pub struct DispositionView {
    pub method: Seq<char>,
    pub disposition: CodexClientRequestDispositionKind,
    pub reason: Seq<char>,
}

impl View for CodexClientRequestDisposition {
    type V = DispositionView;

    open spec fn view(&self) -> DispositionView {
        DispositionView { method: self.method@, disposition: self.disposition, reason: self.reason@ }
    }
}

pub open spec fn category_name(c: CodexProviderCommandCategory) -> Seq<char> {
    match c {
        CodexProviderCommandCategory::ThreadMaintenance => "thread_maintenance"@,
        CodexProviderCommandCategory::Memory => "memory"@,
        CodexProviderCommandCategory::SkillsPluginsApps => "skills_plugins_apps"@,
        CodexProviderCommandCategory::Filesystem => "filesystem"@,
        CodexProviderCommandCategory::AccountDeviceAuth => "account_device_auth"@,
        CodexProviderCommandCategory::ConfigMcp => "config_mcp"@,
        CodexProviderCommandCategory::Realtime => "realtime"@,
        CodexProviderCommandCategory::Feedback => "feedback"@,
        CodexProviderCommandCategory::ShellBackgroundTerminals => "shell_background_terminals"@,
        CodexProviderCommandCategory::ExternalAgentConfig => "external_agent_config"@,
        CodexProviderCommandCategory::FuzzySearch => "fuzzy_search"@,
        CodexProviderCommandCategory::WindowsSandbox => "windows_sandbox"@,
        CodexProviderCommandCategory::MockExperimental => "mock_experimental"@,
    }
}

impl CodexProviderCommandCategory {
    /// The category's wire name.
    pub fn as_str(self) -> (r: &'static str)
        ensures
            r@ == category_name(self),
    {
        match self {
            CodexProviderCommandCategory::ThreadMaintenance => "thread_maintenance",
            CodexProviderCommandCategory::Memory => "memory",
            CodexProviderCommandCategory::SkillsPluginsApps => "skills_plugins_apps",
            CodexProviderCommandCategory::Filesystem => "filesystem",
            CodexProviderCommandCategory::AccountDeviceAuth => "account_device_auth",
            CodexProviderCommandCategory::ConfigMcp => "config_mcp",
            CodexProviderCommandCategory::Realtime => "realtime",
            CodexProviderCommandCategory::Feedback => "feedback",
            CodexProviderCommandCategory::ShellBackgroundTerminals => "shell_background_terminals",
            CodexProviderCommandCategory::ExternalAgentConfig => "external_agent_config",
            CodexProviderCommandCategory::FuzzySearch => "fuzzy_search",
            CodexProviderCommandCategory::WindowsSandbox => "windows_sandbox",
            CodexProviderCommandCategory::MockExperimental => "mock_experimental",
        }
    }
}

pub open spec fn cmd(
    method: Seq<char>,
    category: CodexProviderCommandCategory,
    label: Seq<char>,
    params_type: Seq<char>,
    response_type: Seq<char>,
    response_kind: CodexProviderCommandResponseKind,
    availability: CodexProviderCommandAvailability,
) -> CommandView {
    CommandView {
        method,
        category,
        label,
        params_type,
        response_type,
        response_kind,
        availability,
        raw_payload_display: RawPayloadDisplay::Always,
    }
}

pub open spec fn disp(
    method: Seq<char>,
    disposition: CodexClientRequestDispositionKind,
    reason: Seq<char>,
) -> DispositionView {
    DispositionView { method, disposition, reason }
}

pub fn schema(params_type: &'static str, response_type: &'static str) -> (r: CodexProviderCommandSchema)
    ensures
        r.params_type == params_type && r.response_type == response_type,
{
    CodexProviderCommandSchema { params_type, response_type }
}

pub fn command(
    method: &'static str,
    category: CodexProviderCommandCategory,
    label: &'static str,
    schema: CodexProviderCommandSchema,
    response_kind: CodexProviderCommandResponseKind,
    availability: CodexProviderCommandAvailability,
) -> (r: CodexProviderCommand)
    ensures
        r@ == cmd(method@, category, label@, schema.params_type@, schema.response_type@, response_kind, availability),
{
    CodexProviderCommand {
        method,
        category,
        label,
        schema,
        response_kind,
        availability,
        raw_payload_display: RawPayloadDisplay::Always,
    }
}

pub fn disposition(
    method: &'static str,
    kind: CodexClientRequestDispositionKind,
    reason: &'static str,
) -> (r: CodexClientRequestDisposition)
    ensures
        r@ == disp(method@, kind, reason@),
{
    CodexClientRequestDisposition { method, disposition: kind, reason }
}

pub open spec fn core_client_requests_spec() -> Seq<DispositionView> {
    seq![
        disp("thread/start"@, CodexClientRequestDispositionKind::Core, "UniversalCommand::StartSession owns Codex thread creation."@),
        disp("thread/resume"@, CodexClientRequestDispositionKind::Core, "UniversalCommand::LoadSession owns Codex thread resume."@),
        disp("thread/fork"@, CodexClientRequestDispositionKind::Core, "UniversalCommand::ForkSession owns Codex thread fork."@),
        disp("turn/start"@, CodexClientRequestDispositionKind::Core, "UniversalCommand::StartTurn owns Codex turn creation."@),
        disp("turn/steer"@, CodexClientRequestDispositionKind::Core, "UniversalCommand::SendUserInput owns steering active Codex turns."@),
        disp("turn/interrupt"@, CodexClientRequestDispositionKind::Core, "UniversalCommand::CancelTurn owns Codex turn interruption."@),
    ]
}

pub open spec fn adapter_internal_client_requests_spec() -> Seq<DispositionView> {
    seq![
        disp("initialize"@, CodexClientRequestDispositionKind::AdapterInternal, "Transport startup and capability discovery only."@),
        disp("thread/unsubscribe"@, CodexClientRequestDispositionKind::AdapterInternal, "Adapter session close/unsubscribe path, not a public chat command by default."@),
        disp("thread/list"@, CodexClientRequestDispositionKind::AdapterInternal, "Adapter discovery/import path."@),
        disp("thread/loaded/list"@, CodexClientRequestDispositionKind::AdapterInternal, "Adapter loaded-session discovery path."@),
        disp("thread/read"@, CodexClientRequestDispositionKind::AdapterInternal, "Adapter history and metadata reconciliation path."@),
        disp("thread/turns/list"@, CodexClientRequestDispositionKind::AdapterInternal, "Adapter paged history import path."@),
    ]
}

pub open spec fn deferred_client_requests_spec() -> Seq<DispositionView> {
    seq![
        disp("getConversationSummary"@, CodexClientRequestDispositionKind::Deferred, "Deprecated v1 compatibility API; no new universal event or provider command should depend on it."@),
        disp("gitDiffToRemote"@, CodexClientRequestDispositionKind::Deferred, "Deprecated v1 compatibility API; use current diff events and explicit provider notifications instead."@),
        disp("getAuthStatus"@, CodexClientRequestDispositionKind::Deferred, "Deprecated v1 compatibility API; account/read is the current provider command surface."@),
    ]
}

/// Client requests owned by universal commands.
pub fn core_client_requests() -> (r: Vec<CodexClientRequestDisposition>)
    ensures
        r@.map_values(|d: CodexClientRequestDisposition| d@) == core_client_requests_spec(),
{
    let mut v: Vec<CodexClientRequestDisposition> = Vec::new();
    v.push(disposition("thread/start", CodexClientRequestDispositionKind::Core, "UniversalCommand::StartSession owns Codex thread creation."));
    v.push(disposition("thread/resume", CodexClientRequestDispositionKind::Core, "UniversalCommand::LoadSession owns Codex thread resume."));
    v.push(disposition("thread/fork", CodexClientRequestDispositionKind::Core, "UniversalCommand::ForkSession owns Codex thread fork."));
    v.push(disposition("turn/start", CodexClientRequestDispositionKind::Core, "UniversalCommand::StartTurn owns Codex turn creation."));
    v.push(disposition("turn/steer", CodexClientRequestDispositionKind::Core, "UniversalCommand::SendUserInput owns steering active Codex turns."));
    v.push(disposition("turn/interrupt", CodexClientRequestDispositionKind::Core, "UniversalCommand::CancelTurn owns Codex turn interruption."));
    proof {
        assert(v@.map_values(|d: CodexClientRequestDisposition| d@) =~= core_client_requests_spec());
    }
    v
}

/// Client requests used by the adapter itself.
pub fn adapter_internal_client_requests() -> (r: Vec<CodexClientRequestDisposition>)
    ensures
        r@.map_values(|d: CodexClientRequestDisposition| d@) == adapter_internal_client_requests_spec(),
{
    let mut v: Vec<CodexClientRequestDisposition> = Vec::new();
    v.push(disposition("initialize", CodexClientRequestDispositionKind::AdapterInternal, "Transport startup and capability discovery only."));
    v.push(disposition("thread/unsubscribe", CodexClientRequestDispositionKind::AdapterInternal, "Adapter session close/unsubscribe path, not a public chat command by default."));
    v.push(disposition("thread/list", CodexClientRequestDispositionKind::AdapterInternal, "Adapter discovery/import path."));
    v.push(disposition("thread/loaded/list", CodexClientRequestDispositionKind::AdapterInternal, "Adapter loaded-session discovery path."));
    v.push(disposition("thread/read", CodexClientRequestDispositionKind::AdapterInternal, "Adapter history and metadata reconciliation path."));
    v.push(disposition("thread/turns/list", CodexClientRequestDispositionKind::AdapterInternal, "Adapter paged history import path."));
    proof {
        assert(v@.map_values(|d: CodexClientRequestDisposition| d@) =~= adapter_internal_client_requests_spec());
    }
    v
}

/// Deprecated client requests kept out of the manifest.
pub fn deferred_client_requests() -> (r: Vec<CodexClientRequestDisposition>)
    ensures
        r@.map_values(|d: CodexClientRequestDisposition| d@) == deferred_client_requests_spec(),
{
    let mut v: Vec<CodexClientRequestDisposition> = Vec::new();
    v.push(disposition("getConversationSummary", CodexClientRequestDispositionKind::Deferred, "Deprecated v1 compatibility API; no new universal event or provider command should depend on it."));
    v.push(disposition("gitDiffToRemote", CodexClientRequestDispositionKind::Deferred, "Deprecated v1 compatibility API; use current diff events and explicit provider notifications instead."));
    v.push(disposition("getAuthStatus", CodexClientRequestDispositionKind::Deferred, "Deprecated v1 compatibility API; account/read is the current provider command surface."));
    proof {
        assert(v@.map_values(|d: CodexClientRequestDisposition| d@) =~= deferred_client_requests_spec());
    }
    v
}

/// The provider command manifest.
pub open spec fn manifest() -> Seq<CommandView> {
    seq![
        cmd("thread/archive"@, CodexProviderCommandCategory::ThreadMaintenance, "Archive thread"@, "v2::ThreadArchiveParams"@, "v2::ThreadArchiveResponse"@, CodexProviderCommandResponseKind::SessionMutation, CodexProviderCommandAvailability::Guarded),
        cmd("thread/increment_elicitation"@, CodexProviderCommandCategory::ThreadMaintenance, "Increment elicitation hold"@, "v2::ThreadIncrementElicitationParams"@, "v2::ThreadIncrementElicitationResponse"@, CodexProviderCommandResponseKind::ProviderNotification, CodexProviderCommandAvailability::Experimental),
        cmd("thread/decrement_elicitation"@, CodexProviderCommandCategory::ThreadMaintenance, "Decrement elicitation hold"@, "v2::ThreadDecrementElicitationParams"@, "v2::ThreadDecrementElicitationResponse"@, CodexProviderCommandResponseKind::ProviderNotification, CodexProviderCommandAvailability::Experimental),
        cmd("thread/name/set"@, CodexProviderCommandCategory::ThreadMaintenance, "Rename thread"@, "v2::ThreadSetNameParams"@, "v2::ThreadSetNameResponse"@, CodexProviderCommandResponseKind::SessionMutation, CodexProviderCommandAvailability::Supported),
        cmd("thread/goal/set"@, CodexProviderCommandCategory::ThreadMaintenance, "Set thread goal"@, "v2::ThreadGoalSetParams"@, "v2::ThreadGoalSetResponse"@, CodexProviderCommandResponseKind::ProviderNotification, CodexProviderCommandAvailability::Experimental),
        cmd("thread/goal/get"@, CodexProviderCommandCategory::ThreadMaintenance, "Read thread goal"@, "v2::ThreadGoalGetParams"@, "v2::ThreadGoalGetResponse"@, CodexProviderCommandResponseKind::QueryResult, CodexProviderCommandAvailability::Experimental),
        cmd("thread/goal/clear"@, CodexProviderCommandCategory::ThreadMaintenance, "Clear thread goal"@, "v2::ThreadGoalClearParams"@, "v2::ThreadGoalClearResponse"@, CodexProviderCommandResponseKind::ProviderNotification, CodexProviderCommandAvailability::Experimental),
        cmd("thread/metadata/update"@, CodexProviderCommandCategory::ThreadMaintenance, "Update thread metadata"@, "v2::ThreadMetadataUpdateParams"@, "v2::ThreadMetadataUpdateResponse"@, CodexProviderCommandResponseKind::SessionMutation, CodexProviderCommandAvailability::Supported),
        cmd("thread/unarchive"@, CodexProviderCommandCategory::ThreadMaintenance, "Unarchive thread"@, "v2::ThreadUnarchiveParams"@, "v2::ThreadUnarchiveResponse"@, CodexProviderCommandResponseKind::SessionMutation, CodexProviderCommandAvailability::Guarded),
        cmd("thread/compact/start"@, CodexProviderCommandCategory::ThreadMaintenance, "Start compaction"@, "v2::ThreadCompactStartParams"@, "v2::ThreadCompactStartResponse"@, CodexProviderCommandResponseKind::LongRunning, CodexProviderCommandAvailability::Supported),
        cmd("thread/approveGuardianDeniedAction"@, CodexProviderCommandCategory::ThreadMaintenance, "Approve guardian denied action"@, "v2::ThreadApproveGuardianDeniedActionParams"@, "v2::ThreadApproveGuardianDeniedActionResponse"@, CodexProviderCommandResponseKind::ProviderNotification, CodexProviderCommandAvailability::Guarded),
        cmd("thread/rollback"@, CodexProviderCommandCategory::ThreadMaintenance, "Rollback thread"@, "v2::ThreadRollbackParams"@, "v2::ThreadRollbackResponse"@, CodexProviderCommandResponseKind::SessionMutation, CodexProviderCommandAvailability::Guarded),
        cmd("thread/inject_items"@, CodexProviderCommandCategory::ThreadMaintenance, "Inject native items"@, "v2::ThreadInjectItemsParams"@, "v2::ThreadInjectItemsResponse"@, CodexProviderCommandResponseKind::SessionMutation, CodexProviderCommandAvailability::Guarded),
        cmd("thread/memoryMode/set"@, CodexProviderCommandCategory::Memory, "Set memory mode"@, "v2::ThreadMemoryModeSetParams"@, "v2::ThreadMemoryModeSetResponse"@, CodexProviderCommandResponseKind::ProviderNotification, CodexProviderCommandAvailability::Experimental),
        cmd("memory/reset"@, CodexProviderCommandCategory::Memory, "Reset memory"@, "undefined"@, "v2::MemoryResetResponse"@, CodexProviderCommandResponseKind::CommandResult, CodexProviderCommandAvailability::Guarded),
        cmd("skills/list"@, CodexProviderCommandCategory::SkillsPluginsApps, "List skills"@, "v2::SkillsListParams"@, "v2::SkillsListResponse"@, CodexProviderCommandResponseKind::QueryResult, CodexProviderCommandAvailability::Supported),
        cmd("hooks/list"@, CodexProviderCommandCategory::SkillsPluginsApps, "List hooks"@, "v2::HooksListParams"@, "v2::HooksListResponse"@, CodexProviderCommandResponseKind::QueryResult, CodexProviderCommandAvailability::Supported),
        cmd("marketplace/add"@, CodexProviderCommandCategory::SkillsPluginsApps, "Add marketplace item"@, "v2::MarketplaceAddParams"@, "v2::MarketplaceAddResponse"@, CodexProviderCommandResponseKind::CommandResult, CodexProviderCommandAvailability::Guarded),
        cmd("marketplace/remove"@, CodexProviderCommandCategory::SkillsPluginsApps, "Remove marketplace item"@, "v2::MarketplaceRemoveParams"@, "v2::MarketplaceRemoveResponse"@, CodexProviderCommandResponseKind::CommandResult, CodexProviderCommandAvailability::Guarded),
        cmd("marketplace/upgrade"@, CodexProviderCommandCategory::SkillsPluginsApps, "Upgrade marketplace item"@, "v2::MarketplaceUpgradeParams"@, "v2::MarketplaceUpgradeResponse"@, CodexProviderCommandResponseKind::CommandResult, CodexProviderCommandAvailability::Guarded),
        cmd("plugin/list"@, CodexProviderCommandCategory::SkillsPluginsApps, "List plugins"@, "v2::PluginListParams"@, "v2::PluginListResponse"@, CodexProviderCommandResponseKind::QueryResult, CodexProviderCommandAvailability::Supported),
        cmd("plugin/read"@, CodexProviderCommandCategory::SkillsPluginsApps, "Read plugin"@, "v2::PluginReadParams"@, "v2::PluginReadResponse"@, CodexProviderCommandResponseKind::QueryResult, CodexProviderCommandAvailability::Supported),
        cmd("app/list"@, CodexProviderCommandCategory::SkillsPluginsApps, "List apps"@, "v2::AppsListParams"@, "v2::AppsListResponse"@, CodexProviderCommandResponseKind::QueryResult, CodexProviderCommandAvailability::Supported),
        cmd("skills/config/write"@, CodexProviderCommandCategory::SkillsPluginsApps, "Write skills config"@, "v2::SkillsConfigWriteParams"@, "v2::SkillsConfigWriteResponse"@, CodexProviderCommandResponseKind::CommandResult, CodexProviderCommandAvailability::Guarded),
        cmd("plugin/install"@, CodexProviderCommandCategory::SkillsPluginsApps, "Install plugin"@, "v2::PluginInstallParams"@, "v2::PluginInstallResponse"@, CodexProviderCommandResponseKind::CommandResult, CodexProviderCommandAvailability::Guarded),
        cmd("plugin/uninstall"@, CodexProviderCommandCategory::SkillsPluginsApps, "Uninstall plugin"@, "v2::PluginUninstallParams"@, "v2::PluginUninstallResponse"@, CodexProviderCommandResponseKind::CommandResult, CodexProviderCommandAvailability::Guarded),
        cmd("fs/readFile"@, CodexProviderCommandCategory::Filesystem, "Read file"@, "v2::FsReadFileParams"@, "v2::FsReadFileResponse"@, CodexProviderCommandResponseKind::QueryResult, CodexProviderCommandAvailability::Guarded),
        cmd("fs/writeFile"@, CodexProviderCommandCategory::Filesystem, "Write file"@, "v2::FsWriteFileParams"@, "v2::FsWriteFileResponse"@, CodexProviderCommandResponseKind::CommandResult, CodexProviderCommandAvailability::Guarded),
        cmd("fs/createDirectory"@, CodexProviderCommandCategory::Filesystem, "Create directory"@, "v2::FsCreateDirectoryParams"@, "v2::FsCreateDirectoryResponse"@, CodexProviderCommandResponseKind::CommandResult, CodexProviderCommandAvailability::Guarded),
        cmd("fs/getMetadata"@, CodexProviderCommandCategory::Filesystem, "Get filesystem metadata"@, "v2::FsGetMetadataParams"@, "v2::FsGetMetadataResponse"@, CodexProviderCommandResponseKind::QueryResult, CodexProviderCommandAvailability::Guarded),
        cmd("fs/readDirectory"@, CodexProviderCommandCategory::Filesystem, "Read directory"@, "v2::FsReadDirectoryParams"@, "v2::FsReadDirectoryResponse"@, CodexProviderCommandResponseKind::QueryResult, CodexProviderCommandAvailability::Guarded),
        cmd("fs/remove"@, CodexProviderCommandCategory::Filesystem, "Remove filesystem entry"@, "v2::FsRemoveParams"@, "v2::FsRemoveResponse"@, CodexProviderCommandResponseKind::CommandResult, CodexProviderCommandAvailability::Guarded),
        cmd("fs/copy"@, CodexProviderCommandCategory::Filesystem, "Copy filesystem entry"@, "v2::FsCopyParams"@, "v2::FsCopyResponse"@, CodexProviderCommandResponseKind::CommandResult, CodexProviderCommandAvailability::Guarded),
        cmd("fs/watch"@, CodexProviderCommandCategory::Filesystem, "Watch filesystem path"@, "v2::FsWatchParams"@, "v2::FsWatchResponse"@, CodexProviderCommandResponseKind::StreamHandle, CodexProviderCommandAvailability::Guarded),
        cmd("fs/unwatch"@, CodexProviderCommandCategory::Filesystem, "Stop filesystem watch"@, "v2::FsUnwatchParams"@, "v2::FsUnwatchResponse"@, CodexProviderCommandResponseKind::CommandResult, CodexProviderCommandAvailability::Guarded),
        cmd("device/key/create"@, CodexProviderCommandCategory::AccountDeviceAuth, "Create device key"@, "v2::DeviceKeyCreateParams"@, "v2::DeviceKeyCreateResponse"@, CodexProviderCommandResponseKind::CommandResult, CodexProviderCommandAvailability::Guarded),
        cmd("device/key/public"@, CodexProviderCommandCategory::AccountDeviceAuth, "Read public device key"@, "v2::DeviceKeyPublicParams"@, "v2::DeviceKeyPublicResponse"@, CodexProviderCommandResponseKind::QueryResult, CodexProviderCommandAvailability::Supported),
        cmd("device/key/sign"@, CodexProviderCommandCategory::AccountDeviceAuth, "Sign with device key"@, "v2::DeviceKeySignParams"@, "v2::DeviceKeySignResponse"@, CodexProviderCommandResponseKind::CommandResult, CodexProviderCommandAvailability::Guarded),
        cmd("account/login/start"@, CodexProviderCommandCategory::AccountDeviceAuth, "Start account login"@, "v2::LoginAccountParams"@, "v2::LoginAccountResponse"@, CodexProviderCommandResponseKind::LongRunning, CodexProviderCommandAvailability::Guarded),
        cmd("account/login/cancel"@, CodexProviderCommandCategory::AccountDeviceAuth, "Cancel account login"@, "v2::CancelLoginAccountParams"@, "v2::CancelLoginAccountResponse"@, CodexProviderCommandResponseKind::CommandResult, CodexProviderCommandAvailability::Supported),
        cmd("account/logout"@, CodexProviderCommandCategory::AccountDeviceAuth, "Log out account"@, "undefined"@, "v2::LogoutAccountResponse"@, CodexProviderCommandResponseKind::CommandResult, CodexProviderCommandAvailability::Guarded),
        cmd("account/rateLimits/read"@, CodexProviderCommandCategory::AccountDeviceAuth, "Read account rate limits"@, "undefined"@, "v2::GetAccountRateLimitsResponse"@, CodexProviderCommandResponseKind::QueryResult, CodexProviderCommandAvailability::Supported),
        cmd("account/sendAddCreditsNudgeEmail"@, CodexProviderCommandCategory::AccountDeviceAuth, "Send add-credits nudge email"@, "v2::SendAddCreditsNudgeEmailParams"@, "v2::SendAddCreditsNudgeEmailResponse"@, CodexProviderCommandResponseKind::CommandResult, CodexProviderCommandAvailability::Guarded),
        cmd("account/read"@, CodexProviderCommandCategory::AccountDeviceAuth, "Read account"@, "v2::GetAccountParams"@, "v2::GetAccountResponse"@, CodexProviderCommandResponseKind::QueryResult, CodexProviderCommandAvailability::Supported),
        cmd("config/read"@, CodexProviderCommandCategory::ConfigMcp, "Read config"@, "v2::ConfigReadParams"@, "v2::ConfigReadResponse"@, CodexProviderCommandResponseKind::QueryResult, CodexProviderCommandAvailability::Supported),
        cmd("config/value/write"@, CodexProviderCommandCategory::ConfigMcp, "Write config value"@, "v2::ConfigValueWriteParams"@, "v2::ConfigWriteResponse"@, CodexProviderCommandResponseKind::CommandResult, CodexProviderCommandAvailability::Guarded),
        cmd("config/batchWrite"@, CodexProviderCommandCategory::ConfigMcp, "Write config values"@, "v2::ConfigBatchWriteParams"@, "v2::ConfigWriteResponse"@, CodexProviderCommandResponseKind::CommandResult, CodexProviderCommandAvailability::Guarded),
        cmd("configRequirements/read"@, CodexProviderCommandCategory::ConfigMcp, "Read config requirements"@, "undefined"@, "v2::ConfigRequirementsReadResponse"@, CodexProviderCommandResponseKind::QueryResult, CodexProviderCommandAvailability::Supported),
        cmd("model/list"@, CodexProviderCommandCategory::ConfigMcp, "List models"@, "v2::ModelListParams"@, "v2::ModelListResponse"@, CodexProviderCommandResponseKind::QueryResult, CodexProviderCommandAvailability::Supported),
        cmd("modelProvider/capabilities/read"@, CodexProviderCommandCategory::ConfigMcp, "Read model provider capabilities"@, "v2::ModelProviderCapabilitiesReadParams"@, "v2::ModelProviderCapabilitiesReadResponse"@, CodexProviderCommandResponseKind::QueryResult, CodexProviderCommandAvailability::Supported),
        cmd("experimentalFeature/list"@, CodexProviderCommandCategory::ConfigMcp, "List experimental features"@, "v2::ExperimentalFeatureListParams"@, "v2::ExperimentalFeatureListResponse"@, CodexProviderCommandResponseKind::QueryResult, CodexProviderCommandAvailability::Supported),
        cmd("experimentalFeature/enablement/set"@, CodexProviderCommandCategory::ConfigMcp, "Set experimental feature enablement"@, "v2::ExperimentalFeatureEnablementSetParams"@, "v2::ExperimentalFeatureEnablementSetResponse"@, CodexProviderCommandResponseKind::CommandResult, CodexProviderCommandAvailability::Guarded),
        cmd("collaborationMode/list"@, CodexProviderCommandCategory::ConfigMcp, "List collaboration modes"@, "v2::CollaborationModeListParams"@, "v2::CollaborationModeListResponse"@, CodexProviderCommandResponseKind::QueryResult, CodexProviderCommandAvailability::Experimental),
        cmd("mcpServer/oauth/login"@, CodexProviderCommandCategory::ConfigMcp, "Start MCP OAuth login"@, "v2::McpServerOauthLoginParams"@, "v2::McpServerOauthLoginResponse"@, CodexProviderCommandResponseKind::LongRunning, CodexProviderCommandAvailability::Guarded),
        cmd("config/mcpServer/reload"@, CodexProviderCommandCategory::ConfigMcp, "Reload MCP server config"@, "undefined"@, "v2::McpServerRefreshResponse"@, CodexProviderCommandResponseKind::CommandResult, CodexProviderCommandAvailability::Supported),
        cmd("mcpServerStatus/list"@, CodexProviderCommandCategory::ConfigMcp, "List MCP server status"@, "v2::ListMcpServerStatusParams"@, "v2::ListMcpServerStatusResponse"@, CodexProviderCommandResponseKind::QueryResult, CodexProviderCommandAvailability::Supported),
        cmd("mcpServer/resource/read"@, CodexProviderCommandCategory::ConfigMcp, "Read MCP resource"@, "v2::McpResourceReadParams"@, "v2::McpResourceReadResponse"@, CodexProviderCommandResponseKind::QueryResult, CodexProviderCommandAvailability::Supported),
        cmd("mcpServer/tool/call"@, CodexProviderCommandCategory::ConfigMcp, "Call MCP tool"@, "v2::McpServerToolCallParams"@, "v2::McpServerToolCallResponse"@, CodexProviderCommandResponseKind::ProviderNotification, CodexProviderCommandAvailability::Guarded),
        cmd("thread/realtime/start"@, CodexProviderCommandCategory::Realtime, "Start realtime session"@, "v2::ThreadRealtimeStartParams"@, "v2::ThreadRealtimeStartResponse"@, CodexProviderCommandResponseKind::StreamHandle, CodexProviderCommandAvailability::Experimental),
        cmd("thread/realtime/appendAudio"@, CodexProviderCommandCategory::Realtime, "Append realtime audio"@, "v2::ThreadRealtimeAppendAudioParams"@, "v2::ThreadRealtimeAppendAudioResponse"@, CodexProviderCommandResponseKind::StreamingUpdate, CodexProviderCommandAvailability::Experimental),
        cmd("thread/realtime/appendText"@, CodexProviderCommandCategory::Realtime, "Append realtime text"@, "v2::ThreadRealtimeAppendTextParams"@, "v2::ThreadRealtimeAppendTextResponse"@, CodexProviderCommandResponseKind::StreamingUpdate, CodexProviderCommandAvailability::Experimental),
        cmd("thread/realtime/stop"@, CodexProviderCommandCategory::Realtime, "Stop realtime session"@, "v2::ThreadRealtimeStopParams"@, "v2::ThreadRealtimeStopResponse"@, CodexProviderCommandResponseKind::CommandResult, CodexProviderCommandAvailability::Experimental),
        cmd("thread/realtime/listVoices"@, CodexProviderCommandCategory::Realtime, "List realtime voices"@, "v2::ThreadRealtimeListVoicesParams"@, "v2::ThreadRealtimeListVoicesResponse"@, CodexProviderCommandResponseKind::QueryResult, CodexProviderCommandAvailability::Experimental),
        cmd("feedback/upload"@, CodexProviderCommandCategory::Feedback, "Upload feedback"@, "v2::FeedbackUploadParams"@, "v2::FeedbackUploadResponse"@, CodexProviderCommandResponseKind::CommandResult, CodexProviderCommandAvailability::Guarded),
        cmd("thread/shellCommand"@, CodexProviderCommandCategory::ShellBackgroundTerminals, "Run thread shell command"@, "v2::ThreadShellCommandParams"@, "v2::ThreadShellCommandResponse"@, CodexProviderCommandResponseKind::LongRunning, CodexProviderCommandAvailability::Guarded),
        cmd("thread/backgroundTerminals/clean"@, CodexProviderCommandCategory::ShellBackgroundTerminals, "Clean background terminals"@, "v2::ThreadBackgroundTerminalsCleanParams"@, "v2::ThreadBackgroundTerminalsCleanResponse"@, CodexProviderCommandResponseKind::CommandResult, CodexProviderCommandAvailability::Experimental),
        cmd("command/exec"@, CodexProviderCommandCategory::ShellBackgroundTerminals, "Execute one-off command"@, "v2::CommandExecParams"@, "v2::CommandExecResponse"@, CodexProviderCommandResponseKind::StreamHandle, CodexProviderCommandAvailability::Guarded),
        cmd("command/exec/write"@, CodexProviderCommandCategory::ShellBackgroundTerminals, "Write one-off command input"@, "v2::CommandExecWriteParams"@, "v2::CommandExecWriteResponse"@, CodexProviderCommandResponseKind::StreamingUpdate, CodexProviderCommandAvailability::Guarded),
        cmd("command/exec/terminate"@, CodexProviderCommandCategory::ShellBackgroundTerminals, "Terminate one-off command"@, "v2::CommandExecTerminateParams"@, "v2::CommandExecTerminateResponse"@, CodexProviderCommandResponseKind::CommandResult, CodexProviderCommandAvailability::Guarded),
        cmd("command/exec/resize"@, CodexProviderCommandCategory::ShellBackgroundTerminals, "Resize one-off command"@, "v2::CommandExecResizeParams"@, "v2::CommandExecResizeResponse"@, CodexProviderCommandResponseKind::StreamingUpdate, CodexProviderCommandAvailability::Guarded),
        cmd("externalAgentConfig/detect"@, CodexProviderCommandCategory::ExternalAgentConfig, "Detect external agent config"@, "v2::ExternalAgentConfigDetectParams"@, "v2::ExternalAgentConfigDetectResponse"@, CodexProviderCommandResponseKind::QueryResult, CodexProviderCommandAvailability::Supported),
        cmd("externalAgentConfig/import"@, CodexProviderCommandCategory::ExternalAgentConfig, "Import external agent config"@, "v2::ExternalAgentConfigImportParams"@, "v2::ExternalAgentConfigImportResponse"@, CodexProviderCommandResponseKind::LongRunning, CodexProviderCommandAvailability::Guarded),
        cmd("fuzzyFileSearch"@, CodexProviderCommandCategory::FuzzySearch, "Fuzzy file search"@, "FuzzyFileSearchParams"@, "FuzzyFileSearchResponse"@, CodexProviderCommandResponseKind::QueryResult, CodexProviderCommandAvailability::Guarded),
        cmd("fuzzyFileSearch/sessionStart"@, CodexProviderCommandCategory::FuzzySearch, "Start fuzzy file search session"@, "FuzzyFileSearchSessionStartParams"@, "FuzzyFileSearchSessionStartResponse"@, CodexProviderCommandResponseKind::StreamHandle, CodexProviderCommandAvailability::Experimental),
        cmd("fuzzyFileSearch/sessionUpdate"@, CodexProviderCommandCategory::FuzzySearch, "Update fuzzy file search session"@, "FuzzyFileSearchSessionUpdateParams"@, "FuzzyFileSearchSessionUpdateResponse"@, CodexProviderCommandResponseKind::StreamingUpdate, CodexProviderCommandAvailability::Experimental),
        cmd("fuzzyFileSearch/sessionStop"@, CodexProviderCommandCategory::FuzzySearch, "Stop fuzzy file search session"@, "FuzzyFileSearchSessionStopParams"@, "FuzzyFileSearchSessionStopResponse"@, CodexProviderCommandResponseKind::CommandResult, CodexProviderCommandAvailability::Experimental),
        cmd("windowsSandbox/setupStart"@, CodexProviderCommandCategory::WindowsSandbox, "Start Windows sandbox setup"@, "v2::WindowsSandboxSetupStartParams"@, "v2::WindowsSandboxSetupStartResponse"@, CodexProviderCommandResponseKind::LongRunning, CodexProviderCommandAvailability::PlatformGated),
        cmd("mock/experimentalMethod"@, CodexProviderCommandCategory::MockExperimental, "Mock experimental method"@, "v2::MockExperimentalMethodParams"@, "v2::MockExperimentalMethodResponse"@, CodexProviderCommandResponseKind::UnsupportedCompatibility, CodexProviderCommandAvailability::Disabled),
        cmd("review/start"@, CodexProviderCommandCategory::ThreadMaintenance, "Start review"@, "v2::ReviewStartParams"@, "v2::ReviewStartResponse"@, CodexProviderCommandResponseKind::LongRunning, CodexProviderCommandAvailability::Supported),
    ]
}

/// The provider command manifest.
#[verifier::rlimit(60)]
pub fn provider_command_manifest() -> (r: Vec<CodexProviderCommand>)
    ensures
        r@.map_values(|c: CodexProviderCommand| c@) == manifest(),
{
    let mut v: Vec<CodexProviderCommand> = Vec::new();
    v.push(command("thread/archive", CodexProviderCommandCategory::ThreadMaintenance, "Archive thread", schema("v2::ThreadArchiveParams", "v2::ThreadArchiveResponse"), CodexProviderCommandResponseKind::SessionMutation, CodexProviderCommandAvailability::Guarded));
    v.push(command("thread/increment_elicitation", CodexProviderCommandCategory::ThreadMaintenance, "Increment elicitation hold", schema("v2::ThreadIncrementElicitationParams", "v2::ThreadIncrementElicitationResponse"), CodexProviderCommandResponseKind::ProviderNotification, CodexProviderCommandAvailability::Experimental));
    v.push(command("thread/decrement_elicitation", CodexProviderCommandCategory::ThreadMaintenance, "Decrement elicitation hold", schema("v2::ThreadDecrementElicitationParams", "v2::ThreadDecrementElicitationResponse"), CodexProviderCommandResponseKind::ProviderNotification, CodexProviderCommandAvailability::Experimental));
    v.push(command("thread/name/set", CodexProviderCommandCategory::ThreadMaintenance, "Rename thread", schema("v2::ThreadSetNameParams", "v2::ThreadSetNameResponse"), CodexProviderCommandResponseKind::SessionMutation, CodexProviderCommandAvailability::Supported));
    v.push(command("thread/goal/set", CodexProviderCommandCategory::ThreadMaintenance, "Set thread goal", schema("v2::ThreadGoalSetParams", "v2::ThreadGoalSetResponse"), CodexProviderCommandResponseKind::ProviderNotification, CodexProviderCommandAvailability::Experimental));
    v.push(command("thread/goal/get", CodexProviderCommandCategory::ThreadMaintenance, "Read thread goal", schema("v2::ThreadGoalGetParams", "v2::ThreadGoalGetResponse"), CodexProviderCommandResponseKind::QueryResult, CodexProviderCommandAvailability::Experimental));
    v.push(command("thread/goal/clear", CodexProviderCommandCategory::ThreadMaintenance, "Clear thread goal", schema("v2::ThreadGoalClearParams", "v2::ThreadGoalClearResponse"), CodexProviderCommandResponseKind::ProviderNotification, CodexProviderCommandAvailability::Experimental));
    v.push(command("thread/metadata/update", CodexProviderCommandCategory::ThreadMaintenance, "Update thread metadata", schema("v2::ThreadMetadataUpdateParams", "v2::ThreadMetadataUpdateResponse"), CodexProviderCommandResponseKind::SessionMutation, CodexProviderCommandAvailability::Supported));
    v.push(command("thread/unarchive", CodexProviderCommandCategory::ThreadMaintenance, "Unarchive thread", schema("v2::ThreadUnarchiveParams", "v2::ThreadUnarchiveResponse"), CodexProviderCommandResponseKind::SessionMutation, CodexProviderCommandAvailability::Guarded));
    v.push(command("thread/compact/start", CodexProviderCommandCategory::ThreadMaintenance, "Start compaction", schema("v2::ThreadCompactStartParams", "v2::ThreadCompactStartResponse"), CodexProviderCommandResponseKind::LongRunning, CodexProviderCommandAvailability::Supported));
    v.push(command("thread/approveGuardianDeniedAction", CodexProviderCommandCategory::ThreadMaintenance, "Approve guardian denied action", schema("v2::ThreadApproveGuardianDeniedActionParams", "v2::ThreadApproveGuardianDeniedActionResponse"), CodexProviderCommandResponseKind::ProviderNotification, CodexProviderCommandAvailability::Guarded));
    v.push(command("thread/rollback", CodexProviderCommandCategory::ThreadMaintenance, "Rollback thread", schema("v2::ThreadRollbackParams", "v2::ThreadRollbackResponse"), CodexProviderCommandResponseKind::SessionMutation, CodexProviderCommandAvailability::Guarded));
    v.push(command("thread/inject_items", CodexProviderCommandCategory::ThreadMaintenance, "Inject native items", schema("v2::ThreadInjectItemsParams", "v2::ThreadInjectItemsResponse"), CodexProviderCommandResponseKind::SessionMutation, CodexProviderCommandAvailability::Guarded));
    v.push(command("thread/memoryMode/set", CodexProviderCommandCategory::Memory, "Set memory mode", schema("v2::ThreadMemoryModeSetParams", "v2::ThreadMemoryModeSetResponse"), CodexProviderCommandResponseKind::ProviderNotification, CodexProviderCommandAvailability::Experimental));
    v.push(command("memory/reset", CodexProviderCommandCategory::Memory, "Reset memory", schema("undefined", "v2::MemoryResetResponse"), CodexProviderCommandResponseKind::CommandResult, CodexProviderCommandAvailability::Guarded));
    v.push(command("skills/list", CodexProviderCommandCategory::SkillsPluginsApps, "List skills", schema("v2::SkillsListParams", "v2::SkillsListResponse"), CodexProviderCommandResponseKind::QueryResult, CodexProviderCommandAvailability::Supported));
    v.push(command("hooks/list", CodexProviderCommandCategory::SkillsPluginsApps, "List hooks", schema("v2::HooksListParams", "v2::HooksListResponse"), CodexProviderCommandResponseKind::QueryResult, CodexProviderCommandAvailability::Supported));
    v.push(command("marketplace/add", CodexProviderCommandCategory::SkillsPluginsApps, "Add marketplace item", schema("v2::MarketplaceAddParams", "v2::MarketplaceAddResponse"), CodexProviderCommandResponseKind::CommandResult, CodexProviderCommandAvailability::Guarded));
    v.push(command("marketplace/remove", CodexProviderCommandCategory::SkillsPluginsApps, "Remove marketplace item", schema("v2::MarketplaceRemoveParams", "v2::MarketplaceRemoveResponse"), CodexProviderCommandResponseKind::CommandResult, CodexProviderCommandAvailability::Guarded));
    v.push(command("marketplace/upgrade", CodexProviderCommandCategory::SkillsPluginsApps, "Upgrade marketplace item", schema("v2::MarketplaceUpgradeParams", "v2::MarketplaceUpgradeResponse"), CodexProviderCommandResponseKind::CommandResult, CodexProviderCommandAvailability::Guarded));
    v.push(command("plugin/list", CodexProviderCommandCategory::SkillsPluginsApps, "List plugins", schema("v2::PluginListParams", "v2::PluginListResponse"), CodexProviderCommandResponseKind::QueryResult, CodexProviderCommandAvailability::Supported));
    v.push(command("plugin/read", CodexProviderCommandCategory::SkillsPluginsApps, "Read plugin", schema("v2::PluginReadParams", "v2::PluginReadResponse"), CodexProviderCommandResponseKind::QueryResult, CodexProviderCommandAvailability::Supported));
    v.push(command("app/list", CodexProviderCommandCategory::SkillsPluginsApps, "List apps", schema("v2::AppsListParams", "v2::AppsListResponse"), CodexProviderCommandResponseKind::QueryResult, CodexProviderCommandAvailability::Supported));
    v.push(command("skills/config/write", CodexProviderCommandCategory::SkillsPluginsApps, "Write skills config", schema("v2::SkillsConfigWriteParams", "v2::SkillsConfigWriteResponse"), CodexProviderCommandResponseKind::CommandResult, CodexProviderCommandAvailability::Guarded));
    v.push(command("plugin/install", CodexProviderCommandCategory::SkillsPluginsApps, "Install plugin", schema("v2::PluginInstallParams", "v2::PluginInstallResponse"), CodexProviderCommandResponseKind::CommandResult, CodexProviderCommandAvailability::Guarded));
    v.push(command("plugin/uninstall", CodexProviderCommandCategory::SkillsPluginsApps, "Uninstall plugin", schema("v2::PluginUninstallParams", "v2::PluginUninstallResponse"), CodexProviderCommandResponseKind::CommandResult, CodexProviderCommandAvailability::Guarded));
    v.push(command("fs/readFile", CodexProviderCommandCategory::Filesystem, "Read file", schema("v2::FsReadFileParams", "v2::FsReadFileResponse"), CodexProviderCommandResponseKind::QueryResult, CodexProviderCommandAvailability::Guarded));
    v.push(command("fs/writeFile", CodexProviderCommandCategory::Filesystem, "Write file", schema("v2::FsWriteFileParams", "v2::FsWriteFileResponse"), CodexProviderCommandResponseKind::CommandResult, CodexProviderCommandAvailability::Guarded));
    v.push(command("fs/createDirectory", CodexProviderCommandCategory::Filesystem, "Create directory", schema("v2::FsCreateDirectoryParams", "v2::FsCreateDirectoryResponse"), CodexProviderCommandResponseKind::CommandResult, CodexProviderCommandAvailability::Guarded));
    v.push(command("fs/getMetadata", CodexProviderCommandCategory::Filesystem, "Get filesystem metadata", schema("v2::FsGetMetadataParams", "v2::FsGetMetadataResponse"), CodexProviderCommandResponseKind::QueryResult, CodexProviderCommandAvailability::Guarded));
    v.push(command("fs/readDirectory", CodexProviderCommandCategory::Filesystem, "Read directory", schema("v2::FsReadDirectoryParams", "v2::FsReadDirectoryResponse"), CodexProviderCommandResponseKind::QueryResult, CodexProviderCommandAvailability::Guarded));
    v.push(command("fs/remove", CodexProviderCommandCategory::Filesystem, "Remove filesystem entry", schema("v2::FsRemoveParams", "v2::FsRemoveResponse"), CodexProviderCommandResponseKind::CommandResult, CodexProviderCommandAvailability::Guarded));
    v.push(command("fs/copy", CodexProviderCommandCategory::Filesystem, "Copy filesystem entry", schema("v2::FsCopyParams", "v2::FsCopyResponse"), CodexProviderCommandResponseKind::CommandResult, CodexProviderCommandAvailability::Guarded));
    v.push(command("fs/watch", CodexProviderCommandCategory::Filesystem, "Watch filesystem path", schema("v2::FsWatchParams", "v2::FsWatchResponse"), CodexProviderCommandResponseKind::StreamHandle, CodexProviderCommandAvailability::Guarded));
    v.push(command("fs/unwatch", CodexProviderCommandCategory::Filesystem, "Stop filesystem watch", schema("v2::FsUnwatchParams", "v2::FsUnwatchResponse"), CodexProviderCommandResponseKind::CommandResult, CodexProviderCommandAvailability::Guarded));
    v.push(command("device/key/create", CodexProviderCommandCategory::AccountDeviceAuth, "Create device key", schema("v2::DeviceKeyCreateParams", "v2::DeviceKeyCreateResponse"), CodexProviderCommandResponseKind::CommandResult, CodexProviderCommandAvailability::Guarded));
    v.push(command("device/key/public", CodexProviderCommandCategory::AccountDeviceAuth, "Read public device key", schema("v2::DeviceKeyPublicParams", "v2::DeviceKeyPublicResponse"), CodexProviderCommandResponseKind::QueryResult, CodexProviderCommandAvailability::Supported));
    v.push(command("device/key/sign", CodexProviderCommandCategory::AccountDeviceAuth, "Sign with device key", schema("v2::DeviceKeySignParams", "v2::DeviceKeySignResponse"), CodexProviderCommandResponseKind::CommandResult, CodexProviderCommandAvailability::Guarded));
    v.push(command("account/login/start", CodexProviderCommandCategory::AccountDeviceAuth, "Start account login", schema("v2::LoginAccountParams", "v2::LoginAccountResponse"), CodexProviderCommandResponseKind::LongRunning, CodexProviderCommandAvailability::Guarded));
    v.push(command("account/login/cancel", CodexProviderCommandCategory::AccountDeviceAuth, "Cancel account login", schema("v2::CancelLoginAccountParams", "v2::CancelLoginAccountResponse"), CodexProviderCommandResponseKind::CommandResult, CodexProviderCommandAvailability::Supported));
    v.push(command("account/logout", CodexProviderCommandCategory::AccountDeviceAuth, "Log out account", schema("undefined", "v2::LogoutAccountResponse"), CodexProviderCommandResponseKind::CommandResult, CodexProviderCommandAvailability::Guarded));
    v.push(command("account/rateLimits/read", CodexProviderCommandCategory::AccountDeviceAuth, "Read account rate limits", schema("undefined", "v2::GetAccountRateLimitsResponse"), CodexProviderCommandResponseKind::QueryResult, CodexProviderCommandAvailability::Supported));
    v.push(command("account/sendAddCreditsNudgeEmail", CodexProviderCommandCategory::AccountDeviceAuth, "Send add-credits nudge email", schema("v2::SendAddCreditsNudgeEmailParams", "v2::SendAddCreditsNudgeEmailResponse"), CodexProviderCommandResponseKind::CommandResult, CodexProviderCommandAvailability::Guarded));
    v.push(command("account/read", CodexProviderCommandCategory::AccountDeviceAuth, "Read account", schema("v2::GetAccountParams", "v2::GetAccountResponse"), CodexProviderCommandResponseKind::QueryResult, CodexProviderCommandAvailability::Supported));
    v.push(command("config/read", CodexProviderCommandCategory::ConfigMcp, "Read config", schema("v2::ConfigReadParams", "v2::ConfigReadResponse"), CodexProviderCommandResponseKind::QueryResult, CodexProviderCommandAvailability::Supported));
    v.push(command("config/value/write", CodexProviderCommandCategory::ConfigMcp, "Write config value", schema("v2::ConfigValueWriteParams", "v2::ConfigWriteResponse"), CodexProviderCommandResponseKind::CommandResult, CodexProviderCommandAvailability::Guarded));
    v.push(command("config/batchWrite", CodexProviderCommandCategory::ConfigMcp, "Write config values", schema("v2::ConfigBatchWriteParams", "v2::ConfigWriteResponse"), CodexProviderCommandResponseKind::CommandResult, CodexProviderCommandAvailability::Guarded));
    v.push(command("configRequirements/read", CodexProviderCommandCategory::ConfigMcp, "Read config requirements", schema("undefined", "v2::ConfigRequirementsReadResponse"), CodexProviderCommandResponseKind::QueryResult, CodexProviderCommandAvailability::Supported));
    v.push(command("model/list", CodexProviderCommandCategory::ConfigMcp, "List models", schema("v2::ModelListParams", "v2::ModelListResponse"), CodexProviderCommandResponseKind::QueryResult, CodexProviderCommandAvailability::Supported));
    v.push(command("modelProvider/capabilities/read", CodexProviderCommandCategory::ConfigMcp, "Read model provider capabilities", schema("v2::ModelProviderCapabilitiesReadParams", "v2::ModelProviderCapabilitiesReadResponse"), CodexProviderCommandResponseKind::QueryResult, CodexProviderCommandAvailability::Supported));
    v.push(command("experimentalFeature/list", CodexProviderCommandCategory::ConfigMcp, "List experimental features", schema("v2::ExperimentalFeatureListParams", "v2::ExperimentalFeatureListResponse"), CodexProviderCommandResponseKind::QueryResult, CodexProviderCommandAvailability::Supported));
    v.push(command("experimentalFeature/enablement/set", CodexProviderCommandCategory::ConfigMcp, "Set experimental feature enablement", schema("v2::ExperimentalFeatureEnablementSetParams", "v2::ExperimentalFeatureEnablementSetResponse"), CodexProviderCommandResponseKind::CommandResult, CodexProviderCommandAvailability::Guarded));
    v.push(command("collaborationMode/list", CodexProviderCommandCategory::ConfigMcp, "List collaboration modes", schema("v2::CollaborationModeListParams", "v2::CollaborationModeListResponse"), CodexProviderCommandResponseKind::QueryResult, CodexProviderCommandAvailability::Experimental));
    v.push(command("mcpServer/oauth/login", CodexProviderCommandCategory::ConfigMcp, "Start MCP OAuth login", schema("v2::McpServerOauthLoginParams", "v2::McpServerOauthLoginResponse"), CodexProviderCommandResponseKind::LongRunning, CodexProviderCommandAvailability::Guarded));
    v.push(command("config/mcpServer/reload", CodexProviderCommandCategory::ConfigMcp, "Reload MCP server config", schema("undefined", "v2::McpServerRefreshResponse"), CodexProviderCommandResponseKind::CommandResult, CodexProviderCommandAvailability::Supported));
    v.push(command("mcpServerStatus/list", CodexProviderCommandCategory::ConfigMcp, "List MCP server status", schema("v2::ListMcpServerStatusParams", "v2::ListMcpServerStatusResponse"), CodexProviderCommandResponseKind::QueryResult, CodexProviderCommandAvailability::Supported));
    v.push(command("mcpServer/resource/read", CodexProviderCommandCategory::ConfigMcp, "Read MCP resource", schema("v2::McpResourceReadParams", "v2::McpResourceReadResponse"), CodexProviderCommandResponseKind::QueryResult, CodexProviderCommandAvailability::Supported));
    v.push(command("mcpServer/tool/call", CodexProviderCommandCategory::ConfigMcp, "Call MCP tool", schema("v2::McpServerToolCallParams", "v2::McpServerToolCallResponse"), CodexProviderCommandResponseKind::ProviderNotification, CodexProviderCommandAvailability::Guarded));
    v.push(command("thread/realtime/start", CodexProviderCommandCategory::Realtime, "Start realtime session", schema("v2::ThreadRealtimeStartParams", "v2::ThreadRealtimeStartResponse"), CodexProviderCommandResponseKind::StreamHandle, CodexProviderCommandAvailability::Experimental));
    v.push(command("thread/realtime/appendAudio", CodexProviderCommandCategory::Realtime, "Append realtime audio", schema("v2::ThreadRealtimeAppendAudioParams", "v2::ThreadRealtimeAppendAudioResponse"), CodexProviderCommandResponseKind::StreamingUpdate, CodexProviderCommandAvailability::Experimental));
    v.push(command("thread/realtime/appendText", CodexProviderCommandCategory::Realtime, "Append realtime text", schema("v2::ThreadRealtimeAppendTextParams", "v2::ThreadRealtimeAppendTextResponse"), CodexProviderCommandResponseKind::StreamingUpdate, CodexProviderCommandAvailability::Experimental));
    v.push(command("thread/realtime/stop", CodexProviderCommandCategory::Realtime, "Stop realtime session", schema("v2::ThreadRealtimeStopParams", "v2::ThreadRealtimeStopResponse"), CodexProviderCommandResponseKind::CommandResult, CodexProviderCommandAvailability::Experimental));
    v.push(command("thread/realtime/listVoices", CodexProviderCommandCategory::Realtime, "List realtime voices", schema("v2::ThreadRealtimeListVoicesParams", "v2::ThreadRealtimeListVoicesResponse"), CodexProviderCommandResponseKind::QueryResult, CodexProviderCommandAvailability::Experimental));
    v.push(command("feedback/upload", CodexProviderCommandCategory::Feedback, "Upload feedback", schema("v2::FeedbackUploadParams", "v2::FeedbackUploadResponse"), CodexProviderCommandResponseKind::CommandResult, CodexProviderCommandAvailability::Guarded));
    v.push(command("thread/shellCommand", CodexProviderCommandCategory::ShellBackgroundTerminals, "Run thread shell command", schema("v2::ThreadShellCommandParams", "v2::ThreadShellCommandResponse"), CodexProviderCommandResponseKind::LongRunning, CodexProviderCommandAvailability::Guarded));
    v.push(command("thread/backgroundTerminals/clean", CodexProviderCommandCategory::ShellBackgroundTerminals, "Clean background terminals", schema("v2::ThreadBackgroundTerminalsCleanParams", "v2::ThreadBackgroundTerminalsCleanResponse"), CodexProviderCommandResponseKind::CommandResult, CodexProviderCommandAvailability::Experimental));
    v.push(command("command/exec", CodexProviderCommandCategory::ShellBackgroundTerminals, "Execute one-off command", schema("v2::CommandExecParams", "v2::CommandExecResponse"), CodexProviderCommandResponseKind::StreamHandle, CodexProviderCommandAvailability::Guarded));
    v.push(command("command/exec/write", CodexProviderCommandCategory::ShellBackgroundTerminals, "Write one-off command input", schema("v2::CommandExecWriteParams", "v2::CommandExecWriteResponse"), CodexProviderCommandResponseKind::StreamingUpdate, CodexProviderCommandAvailability::Guarded));
    v.push(command("command/exec/terminate", CodexProviderCommandCategory::ShellBackgroundTerminals, "Terminate one-off command", schema("v2::CommandExecTerminateParams", "v2::CommandExecTerminateResponse"), CodexProviderCommandResponseKind::CommandResult, CodexProviderCommandAvailability::Guarded));
    v.push(command("command/exec/resize", CodexProviderCommandCategory::ShellBackgroundTerminals, "Resize one-off command", schema("v2::CommandExecResizeParams", "v2::CommandExecResizeResponse"), CodexProviderCommandResponseKind::StreamingUpdate, CodexProviderCommandAvailability::Guarded));
    v.push(command("externalAgentConfig/detect", CodexProviderCommandCategory::ExternalAgentConfig, "Detect external agent config", schema("v2::ExternalAgentConfigDetectParams", "v2::ExternalAgentConfigDetectResponse"), CodexProviderCommandResponseKind::QueryResult, CodexProviderCommandAvailability::Supported));
    v.push(command("externalAgentConfig/import", CodexProviderCommandCategory::ExternalAgentConfig, "Import external agent config", schema("v2::ExternalAgentConfigImportParams", "v2::ExternalAgentConfigImportResponse"), CodexProviderCommandResponseKind::LongRunning, CodexProviderCommandAvailability::Guarded));
    v.push(command("fuzzyFileSearch", CodexProviderCommandCategory::FuzzySearch, "Fuzzy file search", schema("FuzzyFileSearchParams", "FuzzyFileSearchResponse"), CodexProviderCommandResponseKind::QueryResult, CodexProviderCommandAvailability::Guarded));
    v.push(command("fuzzyFileSearch/sessionStart", CodexProviderCommandCategory::FuzzySearch, "Start fuzzy file search session", schema("FuzzyFileSearchSessionStartParams", "FuzzyFileSearchSessionStartResponse"), CodexProviderCommandResponseKind::StreamHandle, CodexProviderCommandAvailability::Experimental));
    v.push(command("fuzzyFileSearch/sessionUpdate", CodexProviderCommandCategory::FuzzySearch, "Update fuzzy file search session", schema("FuzzyFileSearchSessionUpdateParams", "FuzzyFileSearchSessionUpdateResponse"), CodexProviderCommandResponseKind::StreamingUpdate, CodexProviderCommandAvailability::Experimental));
    v.push(command("fuzzyFileSearch/sessionStop", CodexProviderCommandCategory::FuzzySearch, "Stop fuzzy file search session", schema("FuzzyFileSearchSessionStopParams", "FuzzyFileSearchSessionStopResponse"), CodexProviderCommandResponseKind::CommandResult, CodexProviderCommandAvailability::Experimental));
    v.push(command("windowsSandbox/setupStart", CodexProviderCommandCategory::WindowsSandbox, "Start Windows sandbox setup", schema("v2::WindowsSandboxSetupStartParams", "v2::WindowsSandboxSetupStartResponse"), CodexProviderCommandResponseKind::LongRunning, CodexProviderCommandAvailability::PlatformGated));
    v.push(command("mock/experimentalMethod", CodexProviderCommandCategory::MockExperimental, "Mock experimental method", schema("v2::MockExperimentalMethodParams", "v2::MockExperimentalMethodResponse"), CodexProviderCommandResponseKind::UnsupportedCompatibility, CodexProviderCommandAvailability::Disabled));
    v.push(command("review/start", CodexProviderCommandCategory::ThreadMaintenance, "Start review", schema("v2::ReviewStartParams", "v2::ReviewStartResponse"), CodexProviderCommandResponseKind::LongRunning, CodexProviderCommandAvailability::Supported));
    proof {
        assert(v@.map_values(|c: CodexProviderCommand| c@) =~= manifest());
    }
    v
}

/// The first command of `s` with method `method`.
pub open spec fn find_command(s: Seq<CommandView>, method: Seq<char>) -> Option<CommandView>
    decreases s.len(),
{
    if s.len() == 0 {
        None
    } else if s[0].method == method {
        Some(s[0])
    } else {
        find_command(s.drop_first(), method)
    }
}

proof fn lemma_find_command_present(s: Seq<CommandView>, i: int)
    requires
        0 <= i < s.len(),
    ensures
        find_command(s, s[i].method) is Some,
        find_command(s, s[i].method)->Some_0.method == s[i].method,
    decreases s.len(),
{
    if s[0].method != s[i].method {
        assert(s.drop_first()[i - 1] == s[i]);
        lemma_find_command_present(s.drop_first(), i - 1);
    }
}

proof fn lemma_find_command_found(s: Seq<CommandView>, m: Seq<char>)
    ensures
        find_command(s, m) matches Some(c) ==> c.method == m && s.contains(c),
    decreases s.len(),
{
    if s.len() > 0 && s[0].method != m {
        lemma_find_command_found(s.drop_first(), m);
        if let Some(c) = find_command(s.drop_first(), m) {
            let j = choose|j: int| 0 <= j < s.drop_first().len() && s.drop_first()[j] == c;
            assert(s[j + 1] == c);
        }
    } else if s.len() > 0 {
        assert(s.contains(s[0]));
    }
}

pub open spec fn opt_command_view(r: Option<CodexProviderCommand>) -> Option<CommandView> {
    match r {
        Some(c) => Some(c@),
        None => None,
    }
}

/// The manifest entry of a Codex method.
pub fn provider_command(method: &str) -> (r: Option<CodexProviderCommand>)
    ensures
        opt_command_view(r) == find_command(manifest(), method@),
{
    let commands = provider_command_manifest();
    let ghost s = manifest();
    let mut i: usize = 0;
    assert(s.subrange(0, s.len() as int) =~= s);
    while i < commands.len()
        invariant
            commands@.map_values(|c: CodexProviderCommand| c@) == s,
            s == manifest(),
            i <= commands@.len(),
            find_command(s, method@) == find_command(s.subrange(i as int, s.len() as int), method@),
        decreases commands.len() - i,
    {
        let ghost rest = s.subrange(i as int, s.len() as int);
        assert(rest[0] == commands@[i as int]@);
        assert(rest.drop_first() =~= s.subrange(i + 1, s.len() as int));
        if str_eq(commands[i].method, method) {
            return Some(commands[i]);
        }
        i = i + 1;
    }
    None
}

/// Every Codex client request with its disposition: the core, adapter-internal and
/// deferred requests, then every manifest command.
pub open spec fn dispositions() -> Seq<DispositionView> {
    core_client_requests_spec() + adapter_internal_client_requests_spec()
        + deferred_client_requests_spec() + manifest().map_values(
        |c: CommandView|
            disp(
                c.method,
                CodexClientRequestDispositionKind::ProviderCommand,
                "Exposed through the Codex provider command manifest."@,
            ),
    )
}

pub fn client_request_dispositions() -> (r: Vec<CodexClientRequestDisposition>)
    ensures
        r@.map_values(|d: CodexClientRequestDisposition| d@) == dispositions(),
{
    let mut out = core_client_requests();
    let mut internal = adapter_internal_client_requests();
    let mut deferred = deferred_client_requests();
    out.append(&mut internal);
    out.append(&mut deferred);
    let commands = provider_command_manifest();
    let ghost prefix = core_client_requests_spec() + adapter_internal_client_requests_spec()
        + deferred_client_requests_spec();
    proof {
        assert(out@.map_values(|d: CodexClientRequestDisposition| d@) =~= prefix);
    }
    let mut i: usize = 0;
    while i < commands.len()
        invariant
            commands@.map_values(|c: CodexProviderCommand| c@) == manifest(),
            i <= commands@.len(),
            out@.map_values(|d: CodexClientRequestDisposition| d@) =~= prefix + manifest().subrange(
                0,
                i as int,
            ).map_values(
                |c: CommandView|
                    disp(
                        c.method,
                        CodexClientRequestDispositionKind::ProviderCommand,
                        "Exposed through the Codex provider command manifest."@,
                    ),
            ),
        decreases commands.len() - i,
    {
        let d = disposition(
            commands[i].method,
            CodexClientRequestDispositionKind::ProviderCommand,
            "Exposed through the Codex provider command manifest.",
        );
        let ghost before = out@;
        out.push(d);
        proof {
            let f = |c: CommandView|
                disp(
                    c.method,
                    CodexClientRequestDispositionKind::ProviderCommand,
                    "Exposed through the Codex provider command manifest."@,
                );
            assert(commands@.map_values(|c: CodexProviderCommand| c@)[i as int] == commands@[i as int]@);
            assert(manifest()[i as int] == commands@[i as int]@);
            assert(manifest().subrange(0, i + 1) =~= manifest().subrange(0, i as int).push(
                manifest()[i as int],
            ));
            assert(manifest().subrange(0, i + 1).map_values(f) =~= manifest().subrange(0, i as int).map_values(f).push(f(manifest()[i as int])));
            assert(out@ =~= before.push(d));
            assert(out@.map_values(|d: CodexClientRequestDisposition| d@) =~= before.map_values(|d: CodexClientRequestDisposition| d@).push(d@));
        }
        i = i + 1;
    }
    proof {
        assert(manifest().subrange(0, manifest().len() as int) =~= manifest());
    }
    out
}

/// Every disposition that names a provider command names one of the manifest.
pub proof fn law_provider_dispositions_are_in_manifest(i: int)
    requires
        0 <= i < dispositions().len(),
        dispositions()[i].disposition == CodexClientRequestDispositionKind::ProviderCommand,
    ensures
        find_command(manifest(), dispositions()[i].method) is Some,
{
    let n = core_client_requests_spec().len() + adapter_internal_client_requests_spec().len()
        + deferred_client_requests_spec().len();
    assert(n == 15);
    if i < n {
        assert(dispositions()[i].disposition != CodexClientRequestDispositionKind::ProviderCommand);
    } else {
        assert(dispositions()[i].method == manifest()[i - n].method);
        lemma_find_command_present(manifest(), i - n);
    }
}

/// Every disposition marked core stands in the core table.
pub proof fn law_core_dispositions_are_core_requests(i: int)
    requires
        0 <= i < dispositions().len(),
        dispositions()[i].disposition == CodexClientRequestDispositionKind::Core,
    ensures
        core_client_requests_spec().contains(dispositions()[i]),
{
    let c = core_client_requests_spec().len();
    let n = c + adapter_internal_client_requests_spec().len() + deferred_client_requests_spec().len();
    if i < c {
        assert(dispositions()[i] == core_client_requests_spec()[i]);
    } else if i < n {
        assert(dispositions()[i].disposition != CodexClientRequestDispositionKind::Core);
    } else {
        assert(dispositions()[i].disposition == CodexClientRequestDispositionKind::ProviderCommand);
    }
}

/// Every request kept out of the manifest, as adapter-internal or deferred, says why.
pub proof fn law_non_command_dispositions_give_reasons(i: int)
    requires
        0 <= i < dispositions().len(),
        dispositions()[i].disposition == CodexClientRequestDispositionKind::AdapterInternal
            || dispositions()[i].disposition == CodexClientRequestDispositionKind::Deferred,
    ensures
        !blank(dispositions()[i].reason),
{
    reveal_strlit("Transport startup and capability discovery only.");
    reveal_strlit("Adapter session close/unsubscribe path, not a public chat command by default.");
    reveal_strlit("Adapter discovery/import path.");
    reveal_strlit("Adapter loaded-session discovery path.");
    reveal_strlit("Adapter history and metadata reconciliation path.");
    reveal_strlit("Adapter paged history import path.");
    reveal_strlit("Deprecated v1 compatibility API; no new universal event or provider command should depend on it.");
    reveal_strlit("Deprecated v1 compatibility API; use current diff events and explicit provider notifications instead.");
    reveal_strlit("Deprecated v1 compatibility API; account/read is the current provider command surface.");
    let c = core_client_requests_spec().len();
    let a = adapter_internal_client_requests_spec().len();
    let n = c + a + deferred_client_requests_spec().len();
    let d = dispositions()[i];
    if i < c {
        assert(d == core_client_requests_spec()[i]);
    } else if i < c + a {
        assert(d == adapter_internal_client_requests_spec()[i - c]);
        assert(!is_ws(d.reason[0]));
    } else if i < n {
        assert(d == deferred_client_requests_spec()[i - c - a]);
        assert(!is_ws(d.reason[0]));
    } else {
        assert(d.disposition == CodexClientRequestDispositionKind::ProviderCommand);
    }
}

/// Support status of a provider capability family.
#[derive(Clone, Copy, Debug, PartialEq, Eq, Structural)]
pub enum ProviderCapabilityStatus {
    Supported,
    Degraded,
    Unsupported,
}

/// A provider capability family and the Codex methods that back it.
#[derive(Clone, Debug, PartialEq, Eq)]
pub struct ProviderCapabilityDetail {
    pub key: String,
    pub status: ProviderCapabilityStatus,
    pub methods: Vec<String>,
    pub reason: Option<String>,
}

/// The capability families, with the category of commands that back each.
pub open spec fn capability_families() -> Seq<(Seq<char>, CodexProviderCommandCategory)> {
    seq![
        ("thread_maintenance"@, CodexProviderCommandCategory::ThreadMaintenance),
        ("memory_mode"@, CodexProviderCommandCategory::Memory),
        ("skills_plugins_apps"@, CodexProviderCommandCategory::SkillsPluginsApps),
        ("client_fs"@, CodexProviderCommandCategory::Filesystem),
        ("config_account_device_auth"@, CodexProviderCommandCategory::AccountDeviceAuth),
        ("config_mcp"@, CodexProviderCommandCategory::ConfigMcp),
        ("realtime"@, CodexProviderCommandCategory::Realtime),
        ("feedback"@, CodexProviderCommandCategory::Feedback),
        ("one_off_command"@, CodexProviderCommandCategory::ShellBackgroundTerminals),
        ("external_agent_config"@, CodexProviderCommandCategory::ExternalAgentConfig),
        ("fuzzy_search"@, CodexProviderCommandCategory::FuzzySearch),
        ("windows_sandbox"@, CodexProviderCommandCategory::WindowsSandbox),
    ]
}

pub open spec fn in_category(category: CodexProviderCommandCategory) -> spec_fn(CommandView) -> bool {
    |c: CommandView| c.category == category
}

/// The methods of the manifest commands of a category, in manifest order.
pub open spec fn category_methods(category: CodexProviderCommandCategory) -> Seq<Seq<char>> {
    manifest().filter(in_category(category)).map_values(|c: CommandView| c.method)
}

/// A family is supported when all its commands are supported or guarded.
pub open spec fn category_status(category: CodexProviderCommandCategory) -> ProviderCapabilityStatus {
    if forall|i: int|
        0 <= i < manifest().len() && manifest()[i].category == category ==> (
        manifest()[i].availability == CodexProviderCommandAvailability::Supported
            || manifest()[i].availability == CodexProviderCommandAvailability::Guarded) {
        ProviderCapabilityStatus::Supported
    } else {
        ProviderCapabilityStatus::Degraded
    }
}

pub open spec fn strings_view(v: Seq<String>) -> Seq<Seq<char>> {
    v.map_values(|s: String| s@)
}

fn family_detail(key: &str, category: CodexProviderCommandCategory) -> (r: ProviderCapabilityDetail)
    ensures
        r.key@ == key@,
        strings_view(r.methods@) == category_methods(category),
        r.status == category_status(category),
        r.reason is None,
{
    let commands = provider_command_manifest();
    let ghost s = manifest();
    let mut methods: Vec<String> = Vec::new();
    let mut all_ok = true;
    let mut i: usize = 0;
    while i < commands.len()
        invariant
            commands@.map_values(|c: CodexProviderCommand| c@) == s,
            s == manifest(),
            i <= commands@.len(),
            strings_view(methods@) =~= s.subrange(0, i as int).filter(in_category(category)).map_values(
                |c: CommandView| c.method,
            ),
            all_ok == (forall|j: int|
                0 <= j < i && s[j].category == category ==> (s[j].availability
                    == CodexProviderCommandAvailability::Supported || s[j].availability
                    == CodexProviderCommandAvailability::Guarded)),
        decreases commands.len() - i,
    {
        let c = commands[i];
        let ghost before = methods@;
        proof {
            assert(commands@.map_values(|c: CodexProviderCommand| c@)[i as int] == commands@[i as int]@);
            assert(s[i as int] == c@);
            assert(s.subrange(0, i + 1) =~= s.subrange(0, i as int).push(s[i as int]));
            s.subrange(0, i as int).lemma_filter_push(s[i as int], in_category(category));
        }
        if c.category == category {
            let m = owned(c.method);
            methods.push(m);
            proof {
                let g = |c: CommandView| c.method;
                let fl = s.subrange(0, i as int).filter(in_category(category));
                assert(fl.push(s[i as int]).map_values(g) =~= fl.map_values(g).push(s[i as int].method));
                assert(strings_view(methods@) =~= strings_view(before).push(m@));
            }
            if !(c.availability == CodexProviderCommandAvailability::Supported || c.availability
                == CodexProviderCommandAvailability::Guarded) {
                all_ok = false;
            }
        }
        i = i + 1;
    }
    proof {
        assert(s.subrange(0, s.len() as int) =~= s);
    }
    ProviderCapabilityDetail {
        key: owned(key),
        status: if all_ok {
            ProviderCapabilityStatus::Supported
        } else {
            ProviderCapabilityStatus::Degraded
        },
        methods,
        reason: None,
    }
}

/// One detail per capability family: its key, the methods of its category, and whether
/// all of them are supported or guarded.
pub fn provider_capability_details() -> (r: Vec<ProviderCapabilityDetail>)
    ensures
        r@.len() == capability_families().len(),
        forall|i: int|
            0 <= i < r@.len() ==> {
                let (key, category) = #[trigger] capability_families()[i];
                &&& r@[i].key@ == key
                &&& strings_view(r@[i].methods@) == category_methods(category)
                &&& r@[i].status == category_status(category)
                &&& r@[i].reason is None
            },
{
    let mut out: Vec<ProviderCapabilityDetail> = Vec::new();
    out.push(family_detail("thread_maintenance", CodexProviderCommandCategory::ThreadMaintenance));
    out.push(family_detail("memory_mode", CodexProviderCommandCategory::Memory));
    out.push(family_detail("skills_plugins_apps", CodexProviderCommandCategory::SkillsPluginsApps));
    out.push(family_detail("client_fs", CodexProviderCommandCategory::Filesystem));
    out.push(family_detail("config_account_device_auth", CodexProviderCommandCategory::AccountDeviceAuth));
    out.push(family_detail("config_mcp", CodexProviderCommandCategory::ConfigMcp));
    out.push(family_detail("realtime", CodexProviderCommandCategory::Realtime));
    out.push(family_detail("feedback", CodexProviderCommandCategory::Feedback));
    out.push(family_detail("one_off_command", CodexProviderCommandCategory::ShellBackgroundTerminals));
    out.push(family_detail("external_agent_config", CodexProviderCommandCategory::ExternalAgentConfig));
    out.push(family_detail("fuzzy_search", CodexProviderCommandCategory::FuzzySearch));
    out.push(family_detail("windows_sandbox", CodexProviderCommandCategory::WindowsSandbox));
    out
}

/// Every method a capability detail names is a manifest command of the family's category.
pub proof fn law_capability_methods_are_manifest_commands(category: CodexProviderCommandCategory, j: int)
    requires
        0 <= j < category_methods(category).len(),
    ensures
        find_command(manifest(), category_methods(category)[j]) is Some,
        find_command(manifest(), category_methods(category)[j])->Some_0.method == category_methods(category)[j],
{
    let f = manifest().filter(in_category(category));
    lemma_filter_member(manifest(), in_category(category), j);
    let i = choose|i: int| 0 <= i < manifest().len() && manifest()[i] == f[j];
    lemma_find_command_present(manifest(), i);
}

proof fn lemma_filter_member(s: Seq<CommandView>, pred: spec_fn(CommandView) -> bool, j: int)
    requires
        0 <= j < s.filter(pred).len(),
    ensures
        exists|i: int| 0 <= i < s.len() && s[i] == s.filter(pred)[j],
    decreases s.len(),
{
    reveal(Seq::filter);
    let rest = s.drop_last();
    rest.lemma_filter_len(pred);
    if pred(s.last()) && j == rest.filter(pred).len() {
        assert(s[s.len() - 1] == s.filter(pred)[j]);
    } else {
        lemma_filter_member(rest, pred, j);
        let i = choose|i: int| 0 <= i < rest.len() && rest[i] == rest.filter(pred)[j];
        assert(s[i] == s.filter(pred)[j]);
    }
}


/// The distinct methods of a list, in order (a set of methods).
pub fn method_set(methods: &Vec<String>) -> (r: Vec<String>)
    ensures
        crate::text::strings_view(r@) == crate::text::sorted_distinct(crate::text::strings_view(methods@)),
{
    crate::text::sort_dedup(methods)
}

} // verus!



verus! {

/// Whether no character of `s` from position `k` on is `c`.
pub open spec fn lacks_char_from(s: Seq<char>, c: char, k: int) -> bool
    decreases s.len() - k,
{
    if k < 0 || k >= s.len() {
        true
    } else {
        s[k] != c && lacks_char_from(s, c, k + 1)
    }
}

proof fn lemma_lacks_char(s: Seq<char>, c: char, k: int)
    requires
        0 <= k,
        lacks_char_from(s, c, k),
    ensures
        forall|j: int| k <= j < s.len() ==> s[j] != c,
    decreases s.len() - k,
{
    if k < s.len() {
        lemma_lacks_char(s, c, k + 1);
    }
}

#[verifier::rlimit(100)]
proof fn lemma_manifest_methods_dotless_by_position()
    ensures
        forall|i: int| 0 <= i < manifest().len() ==> lacks_char_from(#[trigger] manifest()[i].method, '.', 0),
{
    reveal_with_fuel(lacks_char_from, 36);
    reveal_strlit("thread/archive");
    reveal_strlit("thread/increment_elicitation");
    reveal_strlit("thread/decrement_elicitation");
    reveal_strlit("thread/name/set");
    reveal_strlit("thread/goal/set");
    reveal_strlit("thread/goal/get");
    reveal_strlit("thread/goal/clear");
    reveal_strlit("thread/metadata/update");
    reveal_strlit("thread/unarchive");
    reveal_strlit("thread/compact/start");
    reveal_strlit("thread/approveGuardianDeniedAction");
    reveal_strlit("thread/rollback");
    reveal_strlit("thread/inject_items");
    reveal_strlit("thread/memoryMode/set");
    reveal_strlit("memory/reset");
    reveal_strlit("skills/list");
    reveal_strlit("hooks/list");
    reveal_strlit("marketplace/add");
    reveal_strlit("marketplace/remove");
    reveal_strlit("marketplace/upgrade");
    reveal_strlit("plugin/list");
    reveal_strlit("plugin/read");
    reveal_strlit("app/list");
    reveal_strlit("skills/config/write");
    reveal_strlit("plugin/install");
    reveal_strlit("plugin/uninstall");
    reveal_strlit("fs/readFile");
    reveal_strlit("fs/writeFile");
    reveal_strlit("fs/createDirectory");
    reveal_strlit("fs/getMetadata");
    reveal_strlit("fs/readDirectory");
    reveal_strlit("fs/remove");
    reveal_strlit("fs/copy");
    reveal_strlit("fs/watch");
    reveal_strlit("fs/unwatch");
    reveal_strlit("device/key/create");
    reveal_strlit("device/key/public");
    reveal_strlit("device/key/sign");
    reveal_strlit("account/login/start");
    reveal_strlit("account/login/cancel");
    reveal_strlit("account/logout");
    reveal_strlit("account/rateLimits/read");
    reveal_strlit("account/sendAddCreditsNudgeEmail");
    reveal_strlit("account/read");
    reveal_strlit("config/read");
    reveal_strlit("config/value/write");
    reveal_strlit("config/batchWrite");
    reveal_strlit("configRequirements/read");
    reveal_strlit("model/list");
    reveal_strlit("modelProvider/capabilities/read");
    reveal_strlit("experimentalFeature/list");
    reveal_strlit("experimentalFeature/enablement/set");
    reveal_strlit("collaborationMode/list");
    reveal_strlit("mcpServer/oauth/login");
    reveal_strlit("config/mcpServer/reload");
    reveal_strlit("mcpServerStatus/list");
    reveal_strlit("mcpServer/resource/read");
    reveal_strlit("mcpServer/tool/call");
    reveal_strlit("thread/realtime/start");
    reveal_strlit("thread/realtime/appendAudio");
    reveal_strlit("thread/realtime/appendText");
    reveal_strlit("thread/realtime/stop");
    reveal_strlit("thread/realtime/listVoices");
    reveal_strlit("feedback/upload");
    reveal_strlit("thread/shellCommand");
    reveal_strlit("thread/backgroundTerminals/clean");
    reveal_strlit("command/exec");
    reveal_strlit("command/exec/write");
    reveal_strlit("command/exec/terminate");
    reveal_strlit("command/exec/resize");
    reveal_strlit("externalAgentConfig/detect");
    reveal_strlit("externalAgentConfig/import");
    reveal_strlit("fuzzyFileSearch");
    reveal_strlit("fuzzyFileSearch/sessionStart");
    reveal_strlit("fuzzyFileSearch/sessionUpdate");
    reveal_strlit("fuzzyFileSearch/sessionStop");
    reveal_strlit("windowsSandbox/setupStart");
    reveal_strlit("mock/experimentalMethod");
    reveal_strlit("review/start");
}

/// No manifest method has a `.` in it.
pub proof fn lemma_manifest_methods_have_no_dot(i: int)
    requires
        0 <= i < manifest().len(),
    ensures
        !manifest()[i].method.contains('.'),
{
    lemma_manifest_methods_dotless_by_position();
    let m = manifest()[i].method;
    assert(lacks_char_from(m, '.', 0));
    lemma_lacks_char(m, '.', 0);
}

/// A method found in the manifest has no `.` in it.
pub proof fn lemma_found_method_has_no_dot(m: Seq<char>)
    requires
        find_command(manifest(), m) is Some,
    ensures
        !m.contains('.'),
{
    lemma_find_command_found(manifest(), m);
    let c = find_command(manifest(), m)->Some_0;
    let j = choose|j: int| 0 <= j < manifest().len() && manifest()[j] == c;
    lemma_manifest_methods_have_no_dot(j);
}


/// Whether `a` and `b` differ in length or at some position from `k` on.
pub open spec fn differs_from(a: Seq<char>, b: Seq<char>, k: int) -> bool
    decreases a.len() - k,
{
    if k < 0 || k >= a.len() || k >= b.len() {
        a.len() != b.len()
    } else {
        a[k] != b[k] || differs_from(a, b, k + 1)
    }
}

proof fn lemma_differs(a: Seq<char>, b: Seq<char>, k: int)
    requires
        0 <= k,
        differs_from(a, b, k),
    ensures
        a != b,
    decreases a.len() - k,
{
    if k < a.len() && k < b.len() && a[k] == b[k] {
        lemma_differs(a, b, k + 1);
    }
}

#[verifier::rlimit(100)]
proof fn lemma_manifest_methods_differ_by_position()
    ensures
        forall|i: int, j: int|
            0 <= i < j < manifest().len() ==> differs_from(#[trigger] manifest()[i].method, #[trigger] manifest()[j].method, 0),
{
    reveal_with_fuel(differs_from, 27);
    reveal_strlit("thread/archive");
    reveal_strlit("thread/increment_elicitation");
    reveal_strlit("thread/decrement_elicitation");
    reveal_strlit("thread/name/set");
    reveal_strlit("thread/goal/set");
    reveal_strlit("thread/goal/get");
    reveal_strlit("thread/goal/clear");
    reveal_strlit("thread/metadata/update");
    reveal_strlit("thread/unarchive");
    reveal_strlit("thread/compact/start");
    reveal_strlit("thread/approveGuardianDeniedAction");
    reveal_strlit("thread/rollback");
    reveal_strlit("thread/inject_items");
    reveal_strlit("thread/memoryMode/set");
    reveal_strlit("memory/reset");
    reveal_strlit("skills/list");
    reveal_strlit("hooks/list");
    reveal_strlit("marketplace/add");
    reveal_strlit("marketplace/remove");
    reveal_strlit("marketplace/upgrade");
    reveal_strlit("plugin/list");
    reveal_strlit("plugin/read");
    reveal_strlit("app/list");
    reveal_strlit("skills/config/write");
    reveal_strlit("plugin/install");
    reveal_strlit("plugin/uninstall");
    reveal_strlit("fs/readFile");
    reveal_strlit("fs/writeFile");
    reveal_strlit("fs/createDirectory");
    reveal_strlit("fs/getMetadata");
    reveal_strlit("fs/readDirectory");
    reveal_strlit("fs/remove");
    reveal_strlit("fs/copy");
    reveal_strlit("fs/watch");
    reveal_strlit("fs/unwatch");
    reveal_strlit("device/key/create");
    reveal_strlit("device/key/public");
    reveal_strlit("device/key/sign");
    reveal_strlit("account/login/start");
    reveal_strlit("account/login/cancel");
    reveal_strlit("account/logout");
    reveal_strlit("account/rateLimits/read");
    reveal_strlit("account/sendAddCreditsNudgeEmail");
    reveal_strlit("account/read");
    reveal_strlit("config/read");
    reveal_strlit("config/value/write");
    reveal_strlit("config/batchWrite");
    reveal_strlit("configRequirements/read");
    reveal_strlit("model/list");
    reveal_strlit("modelProvider/capabilities/read");
    reveal_strlit("experimentalFeature/list");
    reveal_strlit("experimentalFeature/enablement/set");
    reveal_strlit("collaborationMode/list");
    reveal_strlit("mcpServer/oauth/login");
    reveal_strlit("config/mcpServer/reload");
    reveal_strlit("mcpServerStatus/list");
    reveal_strlit("mcpServer/resource/read");
    reveal_strlit("mcpServer/tool/call");
    reveal_strlit("thread/realtime/start");
    reveal_strlit("thread/realtime/appendAudio");
    reveal_strlit("thread/realtime/appendText");
    reveal_strlit("thread/realtime/stop");
    reveal_strlit("thread/realtime/listVoices");
    reveal_strlit("feedback/upload");
    reveal_strlit("thread/shellCommand");
    reveal_strlit("thread/backgroundTerminals/clean");
    reveal_strlit("command/exec");
    reveal_strlit("command/exec/write");
    reveal_strlit("command/exec/terminate");
    reveal_strlit("command/exec/resize");
    reveal_strlit("externalAgentConfig/detect");
    reveal_strlit("externalAgentConfig/import");
    reveal_strlit("fuzzyFileSearch");
    reveal_strlit("fuzzyFileSearch/sessionStart");
    reveal_strlit("fuzzyFileSearch/sessionUpdate");
    reveal_strlit("fuzzyFileSearch/sessionStop");
    reveal_strlit("windowsSandbox/setupStart");
    reveal_strlit("mock/experimentalMethod");
    reveal_strlit("review/start");
}

/// No two manifest commands share a method.
pub proof fn law_manifest_methods_are_distinct(i: int, j: int)
    requires
        0 <= i < manifest().len(),
        0 <= j < manifest().len(),
        i != j,
    ensures
        manifest()[i].method != manifest()[j].method,
{
    lemma_manifest_methods_differ_by_position();
    if i < j {
        lemma_differs(manifest()[i].method, manifest()[j].method, 0);
    } else {
        lemma_differs(manifest()[j].method, manifest()[i].method, 0);
    }
}

/// Looking up a manifest command's method gives back that very command.
pub proof fn law_manifest_commands_are_found_by_method(i: int)
    requires
        0 <= i < manifest().len(),
    ensures
        find_command(manifest(), manifest()[i].method) == Some(manifest()[i]),
{
    let m = manifest()[i].method;
    lemma_find_command_present(manifest(), i);
    lemma_find_command_found(manifest(), m);
    let c = find_command(manifest(), m)->Some_0;
    let j = choose|j: int| 0 <= j < manifest().len() && manifest()[j] == c;
    if j != i {
        law_manifest_methods_are_distinct(i, j);
    }
}

} // verus!
