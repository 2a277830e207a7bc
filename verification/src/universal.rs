//! The universal event model the runner projects provider traffic onto: items and their
//! content blocks, tools, plans, diffs, turns, usage and notifications.
use vstd::prelude::*;

use crate::events::opt_s;
use crate::model::{SessionId, TurnId, ItemId, ItemRole, SessionStatus, TurnStatus, FileChangeKind,
    PlanEntryStatus, ProviderNotificationSeverity, NativeRef, NativeRefView, UtcTimestamp};
use crate::codex_mapper::{ApprovalRequest, ApprovalView, QuestionState, QuestionView};

verus! {

pub open spec fn opt_native(n: Option<NativeRef>) -> Option<NativeRefView> {
    match n {
        Some(x) => Some(x@),
        None => None,
    }
}

/// How far an item has got.
#[derive(Clone, Copy, Debug, PartialEq, Eq, Structural)]
pub enum ItemStatus {
    Streaming,
    Completed,
}

/// What a content block holds.
#[derive(Clone, Copy, Debug, PartialEq, Eq, Structural)]
pub enum ContentBlockKind {
    Text,
    Reasoning,
    CommandOutput,
    TerminalInput,
    ProviderStatus,
    FileDiff,
    Image,
    Native,
}

/// One block of an item's content.
#[derive(Debug, PartialEq)]
pub struct ContentBlock {
    pub block_id: String,
    pub kind: ContentBlockKind,
    pub text: Option<String>,
    pub mime_type: Option<String>,
    pub artifact_id: Option<String>,
}

pub struct BlockView {
    pub block_id: Seq<char>,
    pub kind: ContentBlockKind,
    pub text: Option<Seq<char>>,
    pub mime_type: Option<Seq<char>>,
    pub artifact_id: Option<Seq<char>>,
}

impl View for ContentBlock {
    type V = BlockView;

    open spec fn view(&self) -> BlockView {
        BlockView {
            block_id: self.block_id@,
            kind: self.kind,
            text: opt_s(self.text),
            mime_type: opt_s(self.mime_type),
            artifact_id: opt_s(self.artifact_id),
        }
    }
}

pub open spec fn blocks_view(v: Seq<ContentBlock>) -> Seq<BlockView> {
    v.map_values(|b: ContentBlock| b@)
}

/// What kind of tool an item shows.
#[derive(Clone, Copy, Debug, PartialEq, Eq, Structural)]
pub enum ToolProjectionKind {
    Command,
    Tool,
    Mcp,
}

/// One action a command took.
#[derive(Debug, PartialEq)]
pub struct ToolActionProjection {
    pub kind: String,
    pub label: String,
    pub detail: Option<String>,
    pub path: Option<String>,
}

pub struct ActionView {
    pub kind: Seq<char>,
    pub label: Seq<char>,
    pub detail: Option<Seq<char>>,
    pub path: Option<Seq<char>>,
}

impl View for ToolActionProjection {
    type V = ActionView;

    open spec fn view(&self) -> ActionView {
        ActionView { kind: self.kind@, label: self.label@, detail: opt_s(self.detail), path: opt_s(self.path) }
    }
}

pub open spec fn actions_view(v: Seq<ToolActionProjection>) -> Seq<ActionView> {
    v.map_values(|a: ToolActionProjection| a@)
}

/// The command a command tool ran.
#[derive(Debug, PartialEq)]
pub struct ToolCommandProjection {
    pub command: String,
    pub cwd: Option<String>,
    pub source: Option<String>,
    pub process_id: Option<String>,
    pub actions: Vec<ToolActionProjection>,
    pub exit_code: Option<i32>,
    pub duration_ms: Option<u64>,
    pub success: Option<bool>,
}

pub struct CommandView {
    pub command: Seq<char>,
    pub cwd: Option<Seq<char>>,
    pub source: Option<Seq<char>>,
    pub process_id: Option<Seq<char>>,
    pub actions: Seq<ActionView>,
    pub exit_code: Option<i32>,
    pub duration_ms: Option<u64>,
    pub success: Option<bool>,
}

impl View for ToolCommandProjection {
    type V = CommandView;

    open spec fn view(&self) -> CommandView {
        CommandView {
            command: self.command@,
            cwd: opt_s(self.cwd),
            source: opt_s(self.source),
            process_id: opt_s(self.process_id),
            actions: actions_view(self.actions@),
            exit_code: self.exit_code,
            duration_ms: self.duration_ms,
            success: self.success,
        }
    }
}

/// The MCP call an MCP tool made.
#[derive(Debug, PartialEq)]
pub struct ToolMcpProjection {
    pub server: Option<String>,
    pub tool: String,
    pub arguments_summary: Option<String>,
    pub result_summary: Option<String>,
}

pub struct McpView {
    pub server: Option<Seq<char>>,
    pub tool: Seq<char>,
    pub arguments_summary: Option<Seq<char>>,
    pub result_summary: Option<Seq<char>>,
}

impl View for ToolMcpProjection {
    type V = McpView;

    open spec fn view(&self) -> McpView {
        McpView {
            server: opt_s(self.server),
            tool: self.tool@,
            arguments_summary: opt_s(self.arguments_summary),
            result_summary: opt_s(self.result_summary),
        }
    }
}

/// How an item shows the tool it ran.
#[derive(Debug, PartialEq)]
pub struct ToolProjection {
    pub kind: ToolProjectionKind,
    pub subkind: Option<String>,
    pub name: String,
    pub title: String,
    pub status: ItemStatus,
    pub detail: Option<String>,
    pub input_summary: Option<String>,
    pub output_summary: Option<String>,
    pub command: Option<ToolCommandProjection>,
    pub mcp: Option<ToolMcpProjection>,
}

pub struct ToolView {
    pub kind: ToolProjectionKind,
    pub subkind: Option<Seq<char>>,
    pub name: Seq<char>,
    pub title: Seq<char>,
    pub status: ItemStatus,
    pub detail: Option<Seq<char>>,
    pub input_summary: Option<Seq<char>>,
    pub output_summary: Option<Seq<char>>,
    pub command: Option<CommandView>,
    pub mcp: Option<McpView>,
}

impl View for ToolProjection {
    type V = ToolView;

    open spec fn view(&self) -> ToolView {
        ToolView {
            kind: self.kind,
            subkind: opt_s(self.subkind),
            name: self.name@,
            title: self.title@,
            status: self.status,
            detail: opt_s(self.detail),
            input_summary: opt_s(self.input_summary),
            output_summary: opt_s(self.output_summary),
            command: match self.command {
                Some(c) => Some(c@),
                None => None,
            },
            mcp: match self.mcp {
                Some(m) => Some(m@),
                None => None,
            },
        }
    }
}

/// One item of a turn.
#[derive(Debug, PartialEq)]
pub struct ItemState {
    pub item_id: ItemId,
    pub session_id: SessionId,
    pub turn_id: Option<TurnId>,
    pub role: ItemRole,
    pub status: ItemStatus,
    pub content: Vec<ContentBlock>,
    pub tool: Option<ToolProjection>,
    pub native: Option<NativeRef>,
}

pub struct ItemView {
    pub item_id: ItemId,
    pub session_id: SessionId,
    pub turn_id: Option<TurnId>,
    pub role: ItemRole,
    pub status: ItemStatus,
    pub content: Seq<BlockView>,
    pub tool: Option<ToolView>,
    pub native: Option<NativeRefView>,
}

impl View for ItemState {
    type V = ItemView;

    open spec fn view(&self) -> ItemView {
        ItemView {
            item_id: self.item_id,
            session_id: self.session_id,
            turn_id: self.turn_id,
            role: self.role,
            status: self.status,
            content: blocks_view(self.content@),
            tool: match self.tool {
                Some(t) => Some(t@),
                None => None,
            },
            native: opt_native(self.native),
        }
    }
}

/// How settled a plan is.
#[derive(Clone, Copy, Debug, PartialEq, Eq, Structural)]
pub enum PlanStatus {
    Discovering,
    Draft,
}

/// Where a plan came from.
#[derive(Clone, Copy, Debug, PartialEq, Eq, Structural)]
pub enum PlanSource {
    NativeStructured,
}

/// One step of a plan.
#[derive(Debug, PartialEq)]
pub struct UniversalPlanEntry {
    pub entry_id: String,
    pub label: String,
    pub status: PlanEntryStatus,
}

pub struct EntryView {
    pub entry_id: Seq<char>,
    pub label: Seq<char>,
    pub status: PlanEntryStatus,
}

impl View for UniversalPlanEntry {
    type V = EntryView;

    open spec fn view(&self) -> EntryView {
        EntryView { entry_id: self.entry_id@, label: self.label@, status: self.status }
    }
}

pub open spec fn entries_view(v: Seq<UniversalPlanEntry>) -> Seq<EntryView> {
    v.map_values(|e: UniversalPlanEntry| e@)
}

/// A plan of a turn.
#[derive(Debug, PartialEq)]
pub struct PlanState {
    pub plan_id: u128,
    pub session_id: SessionId,
    pub turn_id: Option<TurnId>,
    pub status: PlanStatus,
    pub title: Option<String>,
    pub content: Option<String>,
    pub entries: Vec<UniversalPlanEntry>,
    pub source: PlanSource,
    pub partial: bool,
    pub updated_at: Option<UtcTimestamp>,
}

pub struct PlanView {
    pub plan_id: u128,
    pub session_id: SessionId,
    pub turn_id: Option<TurnId>,
    pub status: PlanStatus,
    pub title: Option<Seq<char>>,
    pub content: Option<Seq<char>>,
    pub entries: Seq<EntryView>,
    pub source: PlanSource,
    pub partial: bool,
    pub updated_at: Option<UtcTimestamp>,
}

impl View for PlanState {
    type V = PlanView;

    open spec fn view(&self) -> PlanView {
        PlanView {
            plan_id: self.plan_id,
            session_id: self.session_id,
            turn_id: self.turn_id,
            status: self.status,
            title: opt_s(self.title),
            content: opt_s(self.content),
            entries: entries_view(self.entries@),
            source: self.source,
            partial: self.partial,
            updated_at: self.updated_at,
        }
    }
}

/// One file of a diff.
#[derive(Debug, PartialEq)]
pub struct DiffFile {
    pub path: String,
    pub status: FileChangeKind,
    pub diff: Option<String>,
}

pub struct DiffFileView {
    pub path: Seq<char>,
    pub status: FileChangeKind,
    pub diff: Option<Seq<char>>,
}

impl View for DiffFile {
    type V = DiffFileView;

    open spec fn view(&self) -> DiffFileView {
        DiffFileView { path: self.path@, status: self.status, diff: opt_s(self.diff) }
    }
}

pub open spec fn diff_files_view(v: Seq<DiffFile>) -> Seq<DiffFileView> {
    v.map_values(|f: DiffFile| f@)
}

/// The changes a turn or item made.
#[derive(Debug, PartialEq)]
pub struct DiffState {
    pub diff_id: u128,
    pub session_id: SessionId,
    pub turn_id: Option<TurnId>,
    pub title: Option<String>,
    pub files: Vec<DiffFile>,
    pub updated_at: Option<UtcTimestamp>,
}

pub struct DiffView {
    pub diff_id: u128,
    pub session_id: SessionId,
    pub turn_id: Option<TurnId>,
    pub title: Option<Seq<char>>,
    pub files: Seq<DiffFileView>,
    pub updated_at: Option<UtcTimestamp>,
}

impl View for DiffState {
    type V = DiffView;

    open spec fn view(&self) -> DiffView {
        DiffView {
            diff_id: self.diff_id,
            session_id: self.session_id,
            turn_id: self.turn_id,
            title: opt_s(self.title),
            files: diff_files_view(self.files@),
            updated_at: self.updated_at,
        }
    }
}

/// A turn and how far it has got.
#[derive(Clone, Copy, Debug, PartialEq, Eq, Structural)]
pub struct TurnState {
    pub turn_id: TurnId,
    pub session_id: SessionId,
    pub status: TurnStatus,
    pub started_at: Option<UtcTimestamp>,
    pub completed_at: Option<UtcTimestamp>,
}

/// How much of the model's context a session uses.
#[derive(Clone, Copy, Debug, PartialEq, Eq, Structural)]
pub struct SessionUsageContext {
    pub used_percent: Option<u64>,
    pub used_tokens: Option<u64>,
    pub total_tokens: Option<u64>,
}

/// A provider notification shown to the user.
#[derive(Debug, PartialEq)]
pub struct ProviderNotification {
    pub category: String,
    pub title: String,
    pub detail: Option<String>,
    pub status: Option<String>,
    pub severity: Option<ProviderNotificationSeverity>,
    pub subject: Option<String>,
}

pub struct ProviderNotificationView {
    pub category: Seq<char>,
    pub title: Seq<char>,
    pub detail: Option<Seq<char>>,
    pub status: Option<Seq<char>>,
    pub severity: Option<ProviderNotificationSeverity>,
    pub subject: Option<Seq<char>>,
}

impl View for ProviderNotification {
    type V = ProviderNotificationView;

    open spec fn view(&self) -> ProviderNotificationView {
        ProviderNotificationView {
            category: self.category@,
            title: self.title@,
            detail: opt_s(self.detail),
            status: opt_s(self.status),
            severity: self.severity,
            subject: opt_s(self.subject),
        }
    }
}

/// A universal event.
#[derive(Debug, PartialEq)]
pub enum UniversalEventKind {
    SessionStatusChanged { status: SessionStatus, reason: Option<String> },
    SessionMetadataChanged { title: Option<String> },
    TurnStarted { turn: TurnState },
    TurnCompleted { turn: TurnState },
    TurnInterrupted { turn: TurnState },
    TurnFailed { turn: TurnState },
    TurnCancelled { turn: TurnState },
    TurnDetached { turn: TurnState },
    TurnStatusChanged { turn: TurnState },
    ItemCreated { item: ItemState },
    ContentDelta { block_id: String, kind: Option<ContentBlockKind>, delta: String },
    ContentCompleted { block_id: String, kind: Option<ContentBlockKind>, text: Option<String> },
    PlanUpdated { plan: PlanState },
    DiffUpdated { diff: DiffState },
    UsageUpdated { context: Option<SessionUsageContext> },
    ErrorReported { code: Option<String>, message: String },
    ProviderNotification { notification: ProviderNotification },
    ApprovalRequested { approval: ApprovalRequest },
    QuestionRequested { question: QuestionState },
    QuestionAnswered { question: QuestionState },
    NativeUnknown { summary: Option<String> },
}

pub enum UniversalView {
    SessionStatusChanged { status: SessionStatus, reason: Option<Seq<char>> },
    SessionMetadataChanged { title: Option<Seq<char>> },
    TurnStarted { turn: TurnState },
    TurnCompleted { turn: TurnState },
    TurnInterrupted { turn: TurnState },
    TurnFailed { turn: TurnState },
    TurnCancelled { turn: TurnState },
    TurnDetached { turn: TurnState },
    TurnStatusChanged { turn: TurnState },
    ItemCreated { item: ItemView },
    ContentDelta { block_id: Seq<char>, kind: Option<ContentBlockKind>, delta: Seq<char> },
    ContentCompleted { block_id: Seq<char>, kind: Option<ContentBlockKind>, text: Option<Seq<char>> },
    PlanUpdated { plan: PlanView },
    DiffUpdated { diff: DiffView },
    UsageUpdated { context: Option<SessionUsageContext> },
    ErrorReported { code: Option<Seq<char>>, message: Seq<char> },
    ProviderNotification { notification: ProviderNotificationView },
    ApprovalRequested { approval: ApprovalView },
    QuestionRequested { question: QuestionView },
    QuestionAnswered { question: QuestionView },
    NativeUnknown { summary: Option<Seq<char>> },
}

impl View for UniversalEventKind {
    type V = UniversalView;

    open spec fn view(&self) -> UniversalView {
        match self {
            UniversalEventKind::SessionStatusChanged { status, reason } => UniversalView::SessionStatusChanged {
                status: *status,
                reason: opt_s(*reason),
            },
            UniversalEventKind::SessionMetadataChanged { title } => UniversalView::SessionMetadataChanged {
                title: opt_s(*title),
            },
            UniversalEventKind::TurnStarted { turn } => UniversalView::TurnStarted { turn: *turn },
            UniversalEventKind::TurnCompleted { turn } => UniversalView::TurnCompleted { turn: *turn },
            UniversalEventKind::TurnInterrupted { turn } => UniversalView::TurnInterrupted { turn: *turn },
            UniversalEventKind::TurnFailed { turn } => UniversalView::TurnFailed { turn: *turn },
            UniversalEventKind::TurnCancelled { turn } => UniversalView::TurnCancelled { turn: *turn },
            UniversalEventKind::TurnDetached { turn } => UniversalView::TurnDetached { turn: *turn },
            UniversalEventKind::TurnStatusChanged { turn } => UniversalView::TurnStatusChanged { turn: *turn },
            UniversalEventKind::ItemCreated { item } => UniversalView::ItemCreated { item: item@ },
            UniversalEventKind::ContentDelta { block_id, kind, delta } => UniversalView::ContentDelta {
                block_id: block_id@,
                kind: *kind,
                delta: delta@,
            },
            UniversalEventKind::ContentCompleted { block_id, kind, text } => UniversalView::ContentCompleted {
                block_id: block_id@,
                kind: *kind,
                text: opt_s(*text),
            },
            UniversalEventKind::PlanUpdated { plan } => UniversalView::PlanUpdated { plan: plan@ },
            UniversalEventKind::DiffUpdated { diff } => UniversalView::DiffUpdated { diff: diff@ },
            UniversalEventKind::UsageUpdated { context } => UniversalView::UsageUpdated { context: *context },
            UniversalEventKind::ErrorReported { code, message } => UniversalView::ErrorReported {
                code: opt_s(*code),
                message: message@,
            },
            UniversalEventKind::ProviderNotification { notification } => UniversalView::ProviderNotification {
                notification: notification@,
            },
            UniversalEventKind::ApprovalRequested { approval } => UniversalView::ApprovalRequested { approval: approval@ },
            UniversalEventKind::QuestionRequested { question } => UniversalView::QuestionRequested { question: question@ },
            UniversalEventKind::QuestionAnswered { question } => UniversalView::QuestionAnswered { question: question@ },
            UniversalEventKind::NativeUnknown { summary } => UniversalView::NativeUnknown { summary: opt_s(*summary) },
        }
    }
}

} // verus!
