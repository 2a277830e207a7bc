//! The decision logic of a pending provider approval.
//!
//! A provider asks once; users may answer many times (several browsers, retries). The
//! first answer is handed to the provider; identical answers join that delivery and share
//! its acknowledgement; a different answer is refused; once acknowledged, the outcome is
//! replayed to any later identical answer. The transport (channels, tasks) runs around
//! this state machine: it performs the returned step and reports acknowledgements back.
use vstd::prelude::*;
use crate::model::{ApprovalDecision, DecisionView, decision_eq, decision_clone};

verus! {

/// Why a submitted decision did not reach a successful acknowledgement.
#[derive(Debug)]
pub enum PendingApprovalSubmitError {
    ConflictingDecision,
    ProviderWaiterDropped,
    ProviderRejected(String),
    AcknowledgementDropped,
}

/// The mathematical view of a [`PendingApprovalSubmitError`].
pub enum SubmitErrorView {
    ConflictingDecision,
    ProviderWaiterDropped,
    ProviderRejected(Seq<char>),
    AcknowledgementDropped,
}

impl View for PendingApprovalSubmitError {
    type V = SubmitErrorView;

    open spec fn view(&self) -> SubmitErrorView {
        match self {
            PendingApprovalSubmitError::ConflictingDecision => SubmitErrorView::ConflictingDecision,
            PendingApprovalSubmitError::ProviderWaiterDropped => SubmitErrorView::ProviderWaiterDropped,
            PendingApprovalSubmitError::ProviderRejected(m) => SubmitErrorView::ProviderRejected(m@),
            PendingApprovalSubmitError::AcknowledgementDropped => SubmitErrorView::AcknowledgementDropped,
        }
    }
}

/// A decision handed to the provider and not yet acknowledged, with the submitters
/// (by the transport's waiter ids) that wait for its acknowledgement.
#[derive(Debug)]
pub struct InFlightApprovalDecision {
    pub decision: ApprovalDecision,
    pub waiters: Vec<u64>,
}

/// A decision the provider acknowledged, with the acknowledgement's outcome.
#[derive(Debug)]
pub struct CompletedApprovalDecision {
    pub decision: ApprovalDecision,
    pub result: Result<(), String>,
}

/// The state of one pending provider approval.
#[derive(Debug)]
pub struct PendingApprovalState {
    /// The provider still waits for a decision (its response channel was not used yet).
    pub provider_available: bool,
    pub in_flight: Option<InFlightApprovalDecision>,
    pub completed: Option<CompletedApprovalDecision>,
}

/// What the transport does for one submitted decision.
#[derive(Debug)]
pub enum SubmitStep {
    /// Answer the submitter at once.
    Reply(Result<(), PendingApprovalSubmitError>),
    /// The submitter waits for the acknowledgement of the decision already in flight.
    Join,
    /// Hand the decision to the provider; the submitter waits for its acknowledgement.
    Deliver,
}

pub open spec fn result_view(r: Result<(), String>) -> Result<(), Seq<char>> {
    match r {
        Ok(()) => Ok(()),
        Err(m) => Err(m@),
    }
}

pub struct ApprovalStateView {
    pub provider_available: bool,
    pub in_flight: Option<(DecisionView, Seq<u64>)>,
    pub completed: Option<(DecisionView, Result<(), Seq<char>>)>,
}

pub enum StepView {
    Reply(Result<(), SubmitErrorView>),
    Join,
    Deliver,
}

impl View for PendingApprovalState {
    type V = ApprovalStateView;

    open spec fn view(&self) -> ApprovalStateView {
        ApprovalStateView {
            provider_available: self.provider_available,
            in_flight: match self.in_flight {
                Some(f) => Some((f.decision@, f.waiters@)),
                None => None,
            },
            completed: match self.completed {
                Some(c) => Some((c.decision@, result_view(c.result))),
                None => None,
            },
        }
    }
}

impl View for SubmitStep {
    type V = StepView;

    open spec fn view(&self) -> StepView {
        match self {
            SubmitStep::Reply(Ok(())) => StepView::Reply(Ok(())),
            SubmitStep::Reply(Err(e)) => StepView::Reply(Err(e@)),
            SubmitStep::Join => StepView::Join,
            SubmitStep::Deliver => StepView::Deliver,
        }
    }
}

/// The answer a submitter gets from an acknowledgement outcome.
pub open spec fn outcome_of(r: Result<(), Seq<char>>) -> Result<(), SubmitErrorView> {
    match r {
        Ok(()) => Ok(()),
        Err(m) => Err(SubmitErrorView::ProviderRejected(m)),
    }
}

/// One submitted decision: the next state and the step the transport takes.
pub open spec fn submit_step(s: ApprovalStateView, d: DecisionView, waiter: u64) -> (
    ApprovalStateView,
    StepView,
) {
    match s.completed {
        Some((done, result)) => if done == d {
            (s, StepView::Reply(outcome_of(result)))
        } else {
            (s, StepView::Reply(Err(SubmitErrorView::ConflictingDecision)))
        },
        None => match s.in_flight {
            Some((pending, waiters)) => if pending == d {
                (
                    ApprovalStateView { in_flight: Some((pending, waiters.push(waiter))), ..s },
                    StepView::Join,
                )
            } else {
                (s, StepView::Reply(Err(SubmitErrorView::ConflictingDecision)))
            },
            None => if !s.provider_available {
                (s, StepView::Reply(Err(SubmitErrorView::ProviderWaiterDropped)))
            } else {
                (
                    ApprovalStateView {
                        provider_available: false,
                        in_flight: Some((d, seq![waiter])),
                        completed: None,
                    },
                    StepView::Deliver,
                )
            },
        },
    }
}

/// The acknowledgement of the in-flight decision: it becomes the completed decision, and
/// its waiters are answered.
pub open spec fn complete_step(s: ApprovalStateView, result: Result<(), Seq<char>>) -> (
    ApprovalStateView,
    Seq<u64>,
) {
    match s.in_flight {
        Some((d, waiters)) => (
            ApprovalStateView { in_flight: None, completed: Some((d, result)), ..s },
            waiters,
        ),
        None => (s, Seq::empty()),
    }
}

fn rejected(result: &Result<(), String>) -> (r: Result<(), PendingApprovalSubmitError>)
    ensures
        match r {
            Ok(()) => outcome_of(result_view(*result)) == Ok::<(), SubmitErrorView>(()),
            Err(e) => outcome_of(result_view(*result)) == Err::<(), SubmitErrorView>(e@),
        },
{
    match result {
        Ok(()) => Ok(()),
        Err(m) => Err(PendingApprovalSubmitError::ProviderRejected(m.clone())),
    }
}

impl PendingApprovalState {
    /// A fresh approval: the provider waits, nothing submitted yet.
    pub fn new() -> (r: Self)
        ensures
            r@ == (ApprovalStateView { provider_available: true, in_flight: None, completed: None }),
    {
        PendingApprovalState { provider_available: true, in_flight: None, completed: None }
    }

    /// Submits one decision on behalf of the waiter `waiter`.
    pub fn submit(&mut self, decision: &ApprovalDecision, waiter: u64) -> (r: SubmitStep)
        ensures
            (final(self)@, r@) == submit_step(old(self)@, decision@, waiter),
    {
        if let Some(completed) = &self.completed {
            if decision_eq(&completed.decision, decision) {
                let out = rejected(&completed.result);
                return SubmitStep::Reply(out);
            }
            return SubmitStep::Reply(Err(PendingApprovalSubmitError::ConflictingDecision));
        }
        if let Some(in_flight) = &mut self.in_flight {
            if !decision_eq(&in_flight.decision, decision) {
                return SubmitStep::Reply(Err(PendingApprovalSubmitError::ConflictingDecision));
            }
            in_flight.waiters.push(waiter);
            return SubmitStep::Join;
        }
        if !self.provider_available {
            return SubmitStep::Reply(Err(PendingApprovalSubmitError::ProviderWaiterDropped));
        }
        self.provider_available = false;
        let mut waiters = Vec::new();
        waiters.push(waiter);
        self.in_flight = Some(
            InFlightApprovalDecision { decision: decision_clone(decision), waiters },
        );
        proof {
            assert(waiters@ =~= seq![waiter]);
        }
        SubmitStep::Deliver
    }

    /// The provider could not be handed the decision (its waiter was gone): the delivery
    /// is dropped and the submitter learns that the provider waiter is gone.
    pub fn delivery_failed(&mut self) -> (r: Result<(), PendingApprovalSubmitError>)
        ensures
            final(self)@ == (ApprovalStateView { in_flight: None, ..old(self)@ }),
            r matches Err(e) && e@ == SubmitErrorView::ProviderWaiterDropped,
    {
        self.in_flight = None;
        Err(PendingApprovalSubmitError::ProviderWaiterDropped)
    }

    /// Records the provider's acknowledgement of the in-flight decision and returns the
    /// waiters to answer with it.
    pub fn complete(&mut self, result: Result<(), String>) -> (r: Vec<u64>)
        ensures
            (final(self)@, r@) == complete_step(old(self)@, result_view(result)),
    {
        match self.in_flight.take() {
            None => Vec::new(),
            Some(in_flight) => {
                let InFlightApprovalDecision { decision, waiters } = in_flight;
                self.completed = Some(CompletedApprovalDecision { decision, result });
                waiters
            },
        }
    }
}

/// The outcome of the provider's acknowledgement channel: a dropped channel counts as a
/// rejection.
pub fn acknowledgement_result(received: Option<Result<(), String>>) -> (r: Result<(), String>)
    ensures
        match received {
            Some(x) => r == x,
            None => r matches Err(m) && m@ == "provider acknowledgement channel dropped"@,
        },
{
    match received {
        Some(x) => x,
        None => Err(crate::text::owned("provider acknowledgement channel dropped")),
    }
}

/// What a waiting submitter answers once its waiter channel yields (or is dropped).
pub fn waiter_outcome(received: Option<Result<(), String>>) -> (r: Result<
    (),
    PendingApprovalSubmitError,
>)
    ensures
        match received {
            None => r matches Err(e) && e@ == SubmitErrorView::AcknowledgementDropped,
            Some(Ok(())) => r is Ok,
            Some(Err(m)) => r matches Err(e) && e@ == SubmitErrorView::ProviderRejected(m@),
        },
{
    match received {
        None => Err(PendingApprovalSubmitError::AcknowledgementDropped),
        Some(Ok(())) => Ok(()),
        Some(Err(m)) => Err(PendingApprovalSubmitError::ProviderRejected(m)),
    }
}

/// Reachable states: the provider is handed at most one decision, and a decision is in
/// flight or completed only after it was handed over.
pub open spec fn approval_wf(s: ApprovalStateView) -> bool {
    &&& s.in_flight is Some ==> !s.provider_available
    &&& s.completed is Some ==> !s.provider_available
    &&& !(s.in_flight is Some && s.completed is Some)
}

/// Every step keeps the states reachable.
pub proof fn law_steps_preserve_wf(s: ApprovalStateView, d: DecisionView, w: u64, r: Result<(), Seq<char>>)
    requires
        approval_wf(s),
    ensures
        approval_wf(submit_step(s, d, w).0),
        approval_wf(complete_step(s, r).0),
        approval_wf(ApprovalStateView { in_flight: None, ..s }),
{
}

/// The provider is handed a decision at most once: after a delivery, no later submission
/// delivers again, whatever is submitted or acknowledged in between.
pub proof fn law_single_delivery(s: ApprovalStateView, d: DecisionView, w: u64, d2: DecisionView, w2: u64, r: Result<(), Seq<char>>)
    requires
        submit_step(s, d, w).1 == StepView::Deliver,
    ensures
        !s.in_flight.is_some() && !s.completed.is_some() && s.provider_available,
        submit_step(submit_step(s, d, w).0, d2, w2).1 != StepView::Deliver,
        submit_step(complete_step(submit_step(s, d, w).0, r).0, d2, w2).1 != StepView::Deliver,
{
}

/// The same decision submitted while the first is in flight joins it: both submitters
/// are answered by the one acknowledgement, and the provider sees one delivery.
pub proof fn law_duplicate_joins_in_flight(s: ApprovalStateView, d: DecisionView, w1: u64, w2: u64, r: Result<(), Seq<char>>)
    requires
        submit_step(s, d, w1).1 == StepView::Deliver,
    ensures
        submit_step(submit_step(s, d, w1).0, d, w2).1 == StepView::Join,
        complete_step(submit_step(submit_step(s, d, w1).0, d, w2).0, r).1 == seq![w1, w2],
{
}

/// A different decision never replaces one in flight or completed.
pub proof fn law_conflicting_decision_rejected(s: ApprovalStateView, d: DecisionView, d2: DecisionView, w: u64)
    requires
        (s.in_flight matches Some((pending, _)) && pending == d) || (s.completed matches Some((done, _)) && done == d),
        d2 != d,
        approval_wf(s),
    ensures
        submit_step(s, d2, w) == (s, StepView::Reply(Err(SubmitErrorView::ConflictingDecision))),
{
}

/// Once acknowledged, the outcome is replayed to a late identical decision, unchanged.
pub proof fn law_completed_outcome_replayed(s: ApprovalStateView, d: DecisionView, w1: u64, w2: u64, r: Result<(), Seq<char>>)
    requires
        submit_step(s, d, w1).1 == StepView::Deliver,
    ensures
        ({
            let done = complete_step(submit_step(s, d, w1).0, r).0;
            submit_step(done, d, w2) == (done, StepView::Reply(outcome_of(r)))
        }),
{
}

} // verus!
