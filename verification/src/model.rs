//! Shared domain values of the runner: approval decisions and references to native frames.
use vstd::prelude::*;
use crate::json::{Json, JsonValue, json_eq, json_clone};

verus! {

/// A user's answer to a provider approval request.
#[derive(Debug, PartialEq)]
pub enum ApprovalDecision {
    Accept,
    AcceptForSession,
    Decline,
    Cancel,
    ProviderSpecific { payload: JsonValue },
}

/// The mathematical view of an [`ApprovalDecision`].
pub enum DecisionView {
    Accept,
    AcceptForSession,
    Decline,
    Cancel,
    ProviderSpecific(Json),
}

impl View for ApprovalDecision {
    type V = DecisionView;

    open spec fn view(&self) -> DecisionView {
        match self {
            ApprovalDecision::Accept => DecisionView::Accept,
            ApprovalDecision::AcceptForSession => DecisionView::AcceptForSession,
            ApprovalDecision::Decline => DecisionView::Decline,
            ApprovalDecision::Cancel => DecisionView::Cancel,
            ApprovalDecision::ProviderSpecific { payload } => DecisionView::ProviderSpecific(
                payload@,
            ),
        }
    }
}

/// Equality of two decisions (the derived `==` of the decision type).
pub fn decision_eq(a: &ApprovalDecision, b: &ApprovalDecision) -> (r: bool)
    ensures
        r == (a@ == b@),
{
    match (a, b) {
        (ApprovalDecision::Accept, ApprovalDecision::Accept) => true,
        (ApprovalDecision::AcceptForSession, ApprovalDecision::AcceptForSession) => true,
        (ApprovalDecision::Decline, ApprovalDecision::Decline) => true,
        (ApprovalDecision::Cancel, ApprovalDecision::Cancel) => true,
        (
            ApprovalDecision::ProviderSpecific { payload: x },
            ApprovalDecision::ProviderSpecific { payload: y },
        ) => json_eq(x, y),
        _ => false,
    }
}

/// A copy of a decision.
pub fn decision_clone(d: &ApprovalDecision) -> (r: ApprovalDecision)
    ensures
        r@ == d@,
{
    match d {
        ApprovalDecision::Accept => ApprovalDecision::Accept,
        ApprovalDecision::AcceptForSession => ApprovalDecision::AcceptForSession,
        ApprovalDecision::Decline => ApprovalDecision::Decline,
        ApprovalDecision::Cancel => ApprovalDecision::Cancel,
        ApprovalDecision::ProviderSpecific { payload } => ApprovalDecision::ProviderSpecific {
            payload: json_clone(payload),
        },
    }
}

/// A reference from a runner event back to the native frame it came from.
#[derive(Debug, PartialEq)]
pub struct NativeRef {
    pub protocol: String,
    pub method: Option<String>,
    pub kind: Option<String>,
    pub native_id: Option<String>,
    pub summary: Option<String>,
    pub hash: Option<String>,
    pub pointer: Option<String>,
    pub raw_payload: Option<JsonValue>,
}

pub struct NativeRefView {
    pub protocol: Seq<char>,
    pub method: Option<Seq<char>>,
    pub kind: Option<Seq<char>>,
    pub native_id: Option<Seq<char>>,
    pub summary: Option<Seq<char>>,
    pub hash: Option<Seq<char>>,
    pub pointer: Option<Seq<char>>,
    pub raw_payload: Option<Json>,
}

pub open spec fn opt_text(o: Option<String>) -> Option<Seq<char>> {
    match o {
        Some(s) => Some(s@),
        None => None,
    }
}

impl View for NativeRef {
    type V = NativeRefView;

    open spec fn view(&self) -> NativeRefView {
        NativeRefView {
            protocol: self.protocol@,
            method: opt_text(self.method),
            kind: opt_text(self.kind),
            native_id: opt_text(self.native_id),
            summary: opt_text(self.summary),
            hash: opt_text(self.hash),
            pointer: opt_text(self.pointer),
            raw_payload: match self.raw_payload {
                Some(p) => Some(p@),
                None => None,
            },
        }
    }
}

/// The id of a runner session (a UUID).
#[derive(Debug, Clone, Copy, PartialEq, Eq, Hash, Structural)]
pub struct SessionId(pub u128);

/// The id of a universal turn (a UUID).
#[derive(Debug, Clone, Copy, PartialEq, Eq, Structural)]
pub struct TurnId(pub u128);

/// The id of a universal item (a UUID).
#[derive(Debug, Clone, Copy, PartialEq, Eq, Structural)]
pub struct ItemId(pub u128);

#[derive(Clone, Copy, Debug, PartialEq, Eq, Structural)]
pub enum SessionStatus {
    Idle,
    Running,
    WaitingForApproval,
    WaitingForInput,
    Archived,
    Stopped,
    Failed,
    Degraded,
}

#[derive(Clone, Copy, Debug, PartialEq, Eq, Structural)]
pub enum TurnStatus {
    Running,
    Completed,
    Interrupted,
    Failed,
}

#[derive(Clone, Copy, Debug, PartialEq, Eq, Structural)]
pub enum ItemRole {
    User,
    Assistant,
    System,
    Tool,
}

#[derive(Clone, Copy, Debug, PartialEq, Eq, Structural)]
pub enum ProviderNotificationSeverity {
    Debug,
    Info,
    Warning,
    Error,
}

#[derive(Clone, Copy, Debug, PartialEq, Eq, Structural)]
pub enum FileChangeKind {
    Create,
    Modify,
    Delete,
    Rename,
}

#[derive(Clone, Copy, Debug, PartialEq, Eq, Structural)]
pub enum PlanEntryStatus {
    Pending,
    InProgress,
    Completed,
    Failed,
    Cancelled,
}

#[derive(Clone, Copy, Debug, PartialEq, Eq, Structural)]
pub enum CommandOutputStream {
    Stdout,
    Stderr,
}

/// An instant in UTC: whole seconds since the Unix epoch and nanoseconds past them.
#[derive(Clone, Copy, Debug, PartialEq, Eq, Structural)]
pub struct UtcTimestamp {
    pub secs: i64,
    pub nanos: u32,
}

} // verus!
