//! Normalized runner events, produced from provider messages.
use vstd::prelude::*;
use crate::json::{Json, JsonValue};
use crate::codex_questions::{AgentQuestionField, FieldView, fields_view};
use crate::model::{SessionId, SessionStatus, PlanEntryStatus, CommandOutputStream, FileChangeKind};
use crate::codex_mapper::{ApprovalOption, OptionView, options_view};

verus! {

pub open spec fn opt_s(o: Option<String>) -> Option<Seq<char>> {
    match o {
        Some(s) => Some(s@),
        None => None,
    }
}

pub open spec fn opt_j(o: Option<JsonValue>) -> Option<Json> {
    match o {
        Some(j) => Some(j@),
        None => None,
    }
}

/// A provider-native notification shown as is.
#[derive(Debug, PartialEq)]
pub struct NativeNotification {
    pub session_id: SessionId,
    pub provider_id: String,
    pub event_id: Option<String>,
    pub method: String,
    pub category: String,
    pub title: String,
    pub detail: Option<String>,
    pub status: Option<String>,
    pub provider_payload: Option<JsonValue>,
}

pub struct NotificationView {
    pub session_id: SessionId,
    pub provider_id: Seq<char>,
    pub event_id: Option<Seq<char>>,
    pub method: Seq<char>,
    pub category: Seq<char>,
    pub title: Seq<char>,
    pub detail: Option<Seq<char>>,
    pub status: Option<Seq<char>>,
    pub provider_payload: Option<Json>,
}

impl View for NativeNotification {
    type V = NotificationView;

    open spec fn view(&self) -> NotificationView {
        NotificationView {
            session_id: self.session_id,
            provider_id: self.provider_id@,
            event_id: opt_s(self.event_id),
            method: self.method@,
            category: self.category@,
            title: self.title@,
            detail: opt_s(self.detail),
            status: opt_s(self.status),
            provider_payload: opt_j(self.provider_payload),
        }
    }
}

#[derive(Debug, PartialEq)]
pub struct AgentMessageDeltaEvent {
    pub session_id: SessionId,
    pub message_id: String,
    pub delta: String,
    pub provider_payload: Option<JsonValue>,
}

#[derive(Debug, PartialEq)]
pub struct MessageCompletedEvent {
    pub session_id: SessionId,
    pub message_id: String,
    pub content: Option<String>,
    pub provider_payload: Option<JsonValue>,
}

#[derive(Debug, PartialEq)]
pub struct SessionStatusChangedEvent {
    pub session_id: SessionId,
    pub status: SessionStatus,
    pub reason: Option<String>,
}

#[derive(Debug, PartialEq)]
pub struct PlanEntry {
    pub label: String,
    pub status: PlanEntryStatus,
}

#[derive(Debug, PartialEq)]
pub struct PlanEvent {
    pub session_id: SessionId,
    pub plan_id: Option<String>,
    pub title: Option<String>,
    pub content: Option<String>,
    pub entries: Vec<PlanEntry>,
    pub append: bool,
    pub provider_payload: Option<JsonValue>,
}

#[derive(Debug, PartialEq)]
pub struct CommandOutputEvent {
    pub session_id: SessionId,
    pub command_id: String,
    pub stream: CommandOutputStream,
    pub delta: String,
    pub provider_payload: Option<JsonValue>,
}

#[derive(Debug, PartialEq)]
pub struct CommandEvent {
    pub session_id: SessionId,
    pub command_id: String,
    pub command: String,
    pub cwd: Option<String>,
    pub source: Option<String>,
    pub process_id: Option<String>,
    pub provider_payload: Option<JsonValue>,
}

#[derive(Debug, PartialEq)]
pub struct CommandCompletedEvent {
    pub session_id: SessionId,
    pub command_id: String,
    pub exit_code: Option<i32>,
    pub duration_ms: Option<u64>,
    pub success: bool,
    pub provider_payload: Option<JsonValue>,
}

#[derive(Debug, PartialEq)]
pub struct FileChangeEvent {
    pub session_id: SessionId,
    pub path: String,
    pub change_kind: FileChangeKind,
    pub diff: Option<String>,
    pub provider_payload: Option<JsonValue>,
}

#[derive(Debug, PartialEq)]
pub struct ToolEvent {
    pub session_id: SessionId,
    pub tool_call_id: String,
    pub name: String,
    pub title: Option<String>,
    pub input: Option<JsonValue>,
    pub output: Option<JsonValue>,
    pub provider_payload: Option<JsonValue>,
}

#[derive(Debug, PartialEq)]
pub struct AgentErrorEvent {
    pub session_id: Option<SessionId>,
    pub code: Option<String>,
    pub message: String,
    pub provider_payload: Option<JsonValue>,
}

/// What an approval is asked for.
#[derive(Clone, Copy, Debug, PartialEq, Eq, Structural)]
pub enum ApprovalKind {
    Command,
    FileChange,
    Tool,
    Permission,
    ProviderSpecific,
}

/// A provider asks the user to approve something.
#[derive(Debug, PartialEq)]
pub struct ApprovalRequestEvent {
    pub session_id: SessionId,
    pub approval_id: u128,
    pub kind: ApprovalKind,
    pub title: String,
    pub details: Option<String>,
    pub presentation: Option<JsonValue>,
    pub subject: Option<String>,
    pub native_request_id: Option<String>,
    pub native_blocking: bool,
    pub options: Vec<ApprovalOption>,
    pub provider_payload: Option<JsonValue>,
}

/// A provider asks the user to fill in a form.
#[derive(Debug, PartialEq)]
pub struct QuestionRequestedEvent {
    pub session_id: SessionId,
    pub question_id: u128,
    pub title: String,
    pub description: Option<String>,
    pub fields: Vec<AgentQuestionField>,
    pub provider_payload: Option<JsonValue>,
}

/// A runner event normalized from a provider message.
#[derive(Debug, PartialEq)]
pub enum NormalizedEvent {
    AgentMessageDelta(AgentMessageDeltaEvent),
    AgentMessageCompleted(MessageCompletedEvent),
    SessionStatusChanged(SessionStatusChangedEvent),
    PlanUpdated(PlanEvent),
    CommandStarted(CommandEvent),
    CommandOutputDelta(CommandOutputEvent),
    CommandCompleted(CommandCompletedEvent),
    FileChangeProposed(FileChangeEvent),
    FileChangeApplied(FileChangeEvent),
    ToolStarted(ToolEvent),
    ToolUpdated(ToolEvent),
    ToolCompleted(ToolEvent),
    NativeNotification(NativeNotification),
    ProviderEvent(NativeNotification),
    TurnDiffUpdated(NativeNotification),
    ItemReasoning(NativeNotification),
    ServerRequestResolved(NativeNotification),
    McpToolCallProgress(NativeNotification),
    ThreadRealtimeEvent(NativeNotification),
    Error(AgentErrorEvent),
    ApprovalRequested(ApprovalRequestEvent),
    QuestionRequested(QuestionRequestedEvent),
}

pub struct PlanEntryView {
    pub label: Seq<char>,
    pub status: PlanEntryStatus,
}

/// The mathematical view of a [`NormalizedEvent`].
pub enum EventView {
    AgentMessageDelta { session_id: SessionId, message_id: Seq<char>, delta: Seq<char>, provider_payload: Option<Json> },
    AgentMessageCompleted { session_id: SessionId, message_id: Seq<char>, content: Option<Seq<char>>, provider_payload: Option<Json> },
    SessionStatusChanged { session_id: SessionId, status: SessionStatus, reason: Option<Seq<char>> },
    PlanUpdated {
        session_id: SessionId,
        plan_id: Option<Seq<char>>,
        title: Option<Seq<char>>,
        content: Option<Seq<char>>,
        entries: Seq<PlanEntryView>,
        append: bool,
        provider_payload: Option<Json>,
    },
    CommandStarted {
        session_id: SessionId,
        command_id: Seq<char>,
        command: Seq<char>,
        cwd: Option<Seq<char>>,
        source: Option<Seq<char>>,
        process_id: Option<Seq<char>>,
        provider_payload: Option<Json>,
    },
    CommandOutputDelta { session_id: SessionId, command_id: Seq<char>, stream: CommandOutputStream, delta: Seq<char>, provider_payload: Option<Json> },
    CommandCompleted {
        session_id: SessionId,
        command_id: Seq<char>,
        exit_code: Option<i32>,
        duration_ms: Option<u64>,
        success: bool,
        provider_payload: Option<Json>,
    },
    FileChangeProposed { session_id: SessionId, path: Seq<char>, change_kind: FileChangeKind, diff: Option<Seq<char>>, provider_payload: Option<Json> },
    FileChangeApplied { session_id: SessionId, path: Seq<char>, change_kind: FileChangeKind, diff: Option<Seq<char>>, provider_payload: Option<Json> },
    ToolStarted {
        session_id: SessionId,
        tool_call_id: Seq<char>,
        name: Seq<char>,
        title: Option<Seq<char>>,
        input: Option<Json>,
        output: Option<Json>,
        provider_payload: Option<Json>,
    },
    ToolUpdated {
        session_id: SessionId,
        tool_call_id: Seq<char>,
        name: Seq<char>,
        title: Option<Seq<char>>,
        input: Option<Json>,
        output: Option<Json>,
        provider_payload: Option<Json>,
    },
    ToolCompleted {
        session_id: SessionId,
        tool_call_id: Seq<char>,
        name: Seq<char>,
        title: Option<Seq<char>>,
        input: Option<Json>,
        output: Option<Json>,
        provider_payload: Option<Json>,
    },
    NativeNotification(NotificationView),
    ProviderEvent(NotificationView),
    TurnDiffUpdated(NotificationView),
    ItemReasoning(NotificationView),
    ServerRequestResolved(NotificationView),
    McpToolCallProgress(NotificationView),
    ThreadRealtimeEvent(NotificationView),
    Error { session_id: Option<SessionId>, code: Option<Seq<char>>, message: Seq<char>, provider_payload: Option<Json> },
    ApprovalRequested {
        session_id: SessionId,
        approval_id: u128,
        kind: ApprovalKind,
        title: Seq<char>,
        details: Option<Seq<char>>,
        presentation: Option<Json>,
        subject: Option<Seq<char>>,
        native_request_id: Option<Seq<char>>,
        native_blocking: bool,
        options: Seq<OptionView>,
        provider_payload: Option<Json>,
    },
    QuestionRequested {
        session_id: SessionId,
        question_id: u128,
        title: Seq<char>,
        description: Option<Seq<char>>,
        fields: Seq<FieldView>,
        provider_payload: Option<Json>,
    },
}

pub open spec fn plan_entries_view(v: Seq<PlanEntry>) -> Seq<PlanEntryView> {
    v.map_values(|e: PlanEntry| PlanEntryView { label: e.label@, status: e.status })
}

impl View for NormalizedEvent {
    type V = EventView;

    open spec fn view(&self) -> EventView {
        match self {
            NormalizedEvent::AgentMessageDelta(e) => EventView::AgentMessageDelta {
                session_id: e.session_id,
                message_id: e.message_id@,
                delta: e.delta@,
                provider_payload: opt_j(e.provider_payload),
            },
            NormalizedEvent::AgentMessageCompleted(e) => EventView::AgentMessageCompleted {
                session_id: e.session_id,
                message_id: e.message_id@,
                content: opt_s(e.content),
                provider_payload: opt_j(e.provider_payload),
            },
            NormalizedEvent::SessionStatusChanged(e) => EventView::SessionStatusChanged {
                session_id: e.session_id,
                status: e.status,
                reason: opt_s(e.reason),
            },
            NormalizedEvent::PlanUpdated(e) => EventView::PlanUpdated {
                session_id: e.session_id,
                plan_id: opt_s(e.plan_id),
                title: opt_s(e.title),
                content: opt_s(e.content),
                entries: plan_entries_view(e.entries@),
                append: e.append,
                provider_payload: opt_j(e.provider_payload),
            },
            NormalizedEvent::CommandStarted(e) => EventView::CommandStarted {
                session_id: e.session_id,
                command_id: e.command_id@,
                command: e.command@,
                cwd: opt_s(e.cwd),
                source: opt_s(e.source),
                process_id: opt_s(e.process_id),
                provider_payload: opt_j(e.provider_payload),
            },
            NormalizedEvent::CommandOutputDelta(e) => EventView::CommandOutputDelta {
                session_id: e.session_id,
                command_id: e.command_id@,
                stream: e.stream,
                delta: e.delta@,
                provider_payload: opt_j(e.provider_payload),
            },
            NormalizedEvent::CommandCompleted(e) => EventView::CommandCompleted {
                session_id: e.session_id,
                command_id: e.command_id@,
                exit_code: e.exit_code,
                duration_ms: e.duration_ms,
                success: e.success,
                provider_payload: opt_j(e.provider_payload),
            },
            NormalizedEvent::FileChangeProposed(e) => EventView::FileChangeProposed {
                session_id: e.session_id,
                path: e.path@,
                change_kind: e.change_kind,
                diff: opt_s(e.diff),
                provider_payload: opt_j(e.provider_payload),
            },
            NormalizedEvent::FileChangeApplied(e) => EventView::FileChangeApplied {
                session_id: e.session_id,
                path: e.path@,
                change_kind: e.change_kind,
                diff: opt_s(e.diff),
                provider_payload: opt_j(e.provider_payload),
            },
            NormalizedEvent::ToolStarted(e) => EventView::ToolStarted {
                session_id: e.session_id,
                tool_call_id: e.tool_call_id@,
                name: e.name@,
                title: opt_s(e.title),
                input: opt_j(e.input),
                output: opt_j(e.output),
                provider_payload: opt_j(e.provider_payload),
            },
            NormalizedEvent::ToolUpdated(e) => EventView::ToolUpdated {
                session_id: e.session_id,
                tool_call_id: e.tool_call_id@,
                name: e.name@,
                title: opt_s(e.title),
                input: opt_j(e.input),
                output: opt_j(e.output),
                provider_payload: opt_j(e.provider_payload),
            },
            NormalizedEvent::ToolCompleted(e) => EventView::ToolCompleted {
                session_id: e.session_id,
                tool_call_id: e.tool_call_id@,
                name: e.name@,
                title: opt_s(e.title),
                input: opt_j(e.input),
                output: opt_j(e.output),
                provider_payload: opt_j(e.provider_payload),
            },
            NormalizedEvent::NativeNotification(n) => EventView::NativeNotification(n@),
            NormalizedEvent::ProviderEvent(n) => EventView::ProviderEvent(n@),
            NormalizedEvent::TurnDiffUpdated(n) => EventView::TurnDiffUpdated(n@),
            NormalizedEvent::ItemReasoning(n) => EventView::ItemReasoning(n@),
            NormalizedEvent::ServerRequestResolved(n) => EventView::ServerRequestResolved(n@),
            NormalizedEvent::McpToolCallProgress(n) => EventView::McpToolCallProgress(n@),
            NormalizedEvent::ThreadRealtimeEvent(n) => EventView::ThreadRealtimeEvent(n@),
            NormalizedEvent::Error(e) => EventView::Error {
                session_id: e.session_id,
                code: opt_s(e.code),
                message: e.message@,
                provider_payload: opt_j(e.provider_payload),
            },
            NormalizedEvent::ApprovalRequested(e) => EventView::ApprovalRequested {
                session_id: e.session_id,
                approval_id: e.approval_id,
                kind: e.kind,
                title: e.title@,
                details: opt_s(e.details),
                presentation: opt_j(e.presentation),
                subject: opt_s(e.subject),
                native_request_id: opt_s(e.native_request_id),
                native_blocking: e.native_blocking,
                options: options_view(e.options@),
                provider_payload: opt_j(e.provider_payload),
            },
            NormalizedEvent::QuestionRequested(e) => EventView::QuestionRequested {
                session_id: e.session_id,
                question_id: e.question_id,
                title: e.title@,
                description: opt_s(e.description),
                fields: fields_view(e.fields@),
                provider_payload: opt_j(e.provider_payload),
            },
        }
    }
}

pub open spec fn events_view(v: Seq<NormalizedEvent>) -> Seq<EventView> {
    v.map_values(|e: NormalizedEvent| e@)
}

} // verus!
