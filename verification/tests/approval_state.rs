use agenter_runner::approval_state::{
    acknowledgement_result, waiter_outcome, PendingApprovalState, PendingApprovalSubmitError, SubmitStep,
};
use agenter_runner::model::ApprovalDecision;

#[test]
fn duplicate_same_decision_joins_in_flight_delivery() {
    let mut pending = PendingApprovalState::new();
    assert!(matches!(pending.submit(&ApprovalDecision::Accept, 1), SubmitStep::Deliver));
    assert!(matches!(pending.submit(&ApprovalDecision::Accept, 2), SubmitStep::Join));

    let waiters = pending.complete(acknowledgement_result(Some(Ok(()))));
    assert_eq!(waiters, vec![1, 2]);
    for _ in waiters {
        assert!(waiter_outcome(Some(Ok(()))).is_ok());
    }
}

#[test]
fn conflicting_duplicate_decision_is_rejected_without_second_delivery() {
    let mut pending = PendingApprovalState::new();
    assert!(matches!(pending.submit(&ApprovalDecision::Accept, 1), SubmitStep::Deliver));
    assert!(matches!(
        pending.submit(&ApprovalDecision::Decline, 2),
        SubmitStep::Reply(Err(PendingApprovalSubmitError::ConflictingDecision))
    ));
    assert_eq!(pending.complete(Ok(())), vec![1]);
}

#[test]
fn completed_decision_is_replayed_for_late_duplicate() {
    let mut pending = PendingApprovalState::new();
    assert!(matches!(pending.submit(&ApprovalDecision::Accept, 1), SubmitStep::Deliver));
    assert_eq!(pending.complete(Ok(())), vec![1]);

    assert!(matches!(pending.submit(&ApprovalDecision::Accept, 2), SubmitStep::Reply(Ok(()))));
    assert!(matches!(
        pending.submit(&ApprovalDecision::Cancel, 3),
        SubmitStep::Reply(Err(PendingApprovalSubmitError::ConflictingDecision))
    ));
}

#[test]
fn provider_rejection_is_replayed_to_every_waiter() {
    let mut pending = PendingApprovalState::new();
    assert!(matches!(pending.submit(&ApprovalDecision::Decline, 7), SubmitStep::Deliver));
    let waiters = pending.complete(acknowledgement_result(None));
    assert_eq!(waiters, vec![7]);
    assert!(matches!(
        pending.submit(&ApprovalDecision::Decline, 8),
        SubmitStep::Reply(Err(PendingApprovalSubmitError::ProviderRejected(ref m)))
            if m == "provider acknowledgement channel dropped"
    ));
    assert!(matches!(waiter_outcome(None), Err(PendingApprovalSubmitError::AcknowledgementDropped)));
}

#[test]
fn dropped_provider_waiter_refuses_later_decisions() {
    let mut pending = PendingApprovalState::new();
    assert!(matches!(pending.submit(&ApprovalDecision::Accept, 1), SubmitStep::Deliver));
    assert!(matches!(pending.delivery_failed(), Err(PendingApprovalSubmitError::ProviderWaiterDropped)));
    assert!(matches!(
        pending.submit(&ApprovalDecision::Accept, 2),
        SubmitStep::Reply(Err(PendingApprovalSubmitError::ProviderWaiterDropped))
    ));
}
