use sidereth::action::{
    Action, ActionKind, ActionStatus, ApprovalDecision, ApprovalOrigin, ApprovalRecord, ExecutionGate,
    ExecutionGateError, ExecutionGateInput,
};
use sidereth::authorization::{AuthorizationDecision, AuthorizationResult};
use sidereth::resource::{ResourceRef, ResourceType};
fn action() -> Action {
    Action::new(
        "action-1".into(),
        ActionKind::Submission,
        "actor-1".into(),
        "Prepare a submission for review".into(),
        "prov-1".into(),
        "2026-09-04T10:00:00Z".into(),
    )
    .unwrap()
}

fn authorization(decision: AuthorizationDecision) -> AuthorizationResult {
    AuthorizationResult {
        request_id: "req-1".into(),
        authorization_ref: ResourceRef::new(ResourceType::Other, "auth-1".into()).unwrap(),
        subject_ref: ResourceRef::new(ResourceType::Party, "actor-1".into()).unwrap(),
        action: ResourceRef::new(ResourceType::Action, "action-1".into()).unwrap(),
        resource_ref: ResourceRef::new(ResourceType::Action, "action-1".into()).unwrap(),
        purpose: "submission".into(),
        jurisdiction_ref: None,
        data_class: None,
        decision,
        constraints: Vec::new(),
        policy_refs: vec![ResourceRef::new(ResourceType::Other, "policy-1".into()).unwrap()],
        evaluated_at_epoch_seconds: 100,
        expires_at_epoch_seconds: Some(160),
    }
}

fn approval(decision: ApprovalDecision) -> ApprovalRecord {
    ApprovalRecord {
        approval_id: "approval-1".into(),
        action_ref: ResourceRef::new(ResourceType::Action, "action-1".into()).unwrap(),
        approver_ref: ResourceRef::new(ResourceType::Party, "approver-1".into()).unwrap(),
        authorization_ref: ResourceRef::new(ResourceType::Other, "auth-1".into()).unwrap(),
        decision,
        origin: ApprovalOrigin::Human,
        rationale: "Reviewed and approved within delegated authority".into(),
        provenance_ref: ResourceRef::new(ResourceType::Provenance, "prov-approval-1".into()).unwrap(),
        decided_at: "2026-09-04T10:01:00Z".into(),
    }
}

#[test]
fn new_action_starts_proposed() {
    assert_eq!(action().status, ActionStatus::Proposed);
}

#[test]
fn action_requires_intent() {
    let result = Action::new(
        "action-1".into(),
        ActionKind::Information,
        "actor-1".into(),
        " ".into(),
        "prov-1".into(),
        "2026-09-04T10:00:00Z".into(),
    );
    assert_eq!(result, Err("action intent is required"));
}

#[test]
fn explicit_approval_requires_authorization_and_approval_references() {
    let mut value = action();
    value.requires_explicit_approval = true;
    assert_eq!(
        value.validate(),
        Err("authorization reference is required for explicitly approved actions")
    );
    value.authorization_ref = Some("auth-1".into());
    assert_eq!(
        value.validate(),
        Err("approval reference is required for explicitly approved actions")
    );
}

#[test]
fn explicit_approval_must_be_bound_to_matching_authorization_and_action() {
    let mut value = action();
    value.requires_explicit_approval = true;
    value.authorization_ref = Some("auth-1".into());
    let record = approval(ApprovalDecision::Granted);
    value
        .bind_approval(&record, "2026-09-04T10:02:00Z".into())
        .unwrap();
    value
        .transition(ActionStatus::Approved, "2026-09-04T10:03:00Z".into())
        .unwrap();
    assert_eq!(value.status, ActionStatus::Approved);
    assert_eq!(value.approval_ref.as_deref(), Some("approval-1"));
}

#[test]
fn rejected_or_revoked_approval_cannot_bind_execution_authority() {
    for decision in [ApprovalDecision::Rejected, ApprovalDecision::Revoked] {
        let mut value = action();
        value.requires_explicit_approval = true;
        value.authorization_ref = Some("auth-1".into());
        assert_eq!(
            value.bind_approval(&approval(decision), "2026-09-04T10:02:00Z".into()),
            Err("approval decision does not grant execution")
        );
    }
}

#[test]
fn mismatched_approval_is_rejected() {
    let mut value = action();
    value.requires_explicit_approval = true;
    value.authorization_ref = Some("auth-1".into());
    let mut record = approval(ApprovalDecision::Granted);
    record.action_ref = ResourceRef::new(ResourceType::Action, "other-action".into()).unwrap();
    assert_eq!(
        value.bind_approval(&record, "2026-09-04T10:02:00Z".into()),
        Err("approval action reference does not match action")
    );
}

#[test]
fn approved_action_requires_proposal_first() {
    let mut value = action();
    value
        .transition(ActionStatus::Approved, "2026-09-04T10:01:00Z".into())
        .unwrap();
    assert_eq!(value.status, ActionStatus::Approved);
}

#[test]
fn explicitly_approved_action_cannot_skip_approval_binding() {
    let mut value = action();
    value.requires_explicit_approval = true;
    value.authorization_ref = Some("auth-1".into());
    assert_eq!(
        value.transition(ActionStatus::Approved, "2026-09-04T10:01:00Z".into()),
        Err("invalid action state transition")
    );
}

#[test]
fn action_invalid_transition_is_rejected() {
    let mut value = action();
    assert_eq!(
        value.transition(ActionStatus::Completed, "2026-09-04T10:01:00Z".into()),
        Err("invalid action state transition")
    );
}

#[test]
fn execution_gate_requires_allowing_authorization_and_human_approval() {
    let mut value = action();
    value.requires_explicit_approval = true;
    value.authorization_ref = Some("auth-1".into());
    let allow = authorization(AuthorizationDecision::Allow);
    let deny = authorization(AuthorizationDecision::Deny);
    let record = approval(ApprovalDecision::Granted);
    assert_eq!(
        ExecutionGate::permit(&value, ExecutionGateInput { authorization: None, approval: None }),
        Err(ExecutionGateError::AuthorizationRequired)
    );
    assert_eq!(
        ExecutionGate::permit(&value, ExecutionGateInput { authorization: Some(&deny), approval: None }),
        Err(ExecutionGateError::AuthorizationDenied)
    );
    assert_eq!(
        ExecutionGate::permit(&value, ExecutionGateInput { authorization: Some(&allow), approval: None }),
        Err(ExecutionGateError::ApprovalRequired)
    );
    let mut system = approval(ApprovalDecision::Granted);
    system.origin = ApprovalOrigin::System;
    assert_eq!(
        ExecutionGate::permit(&value, ExecutionGateInput { authorization: Some(&allow), approval: Some(&system) }),
        Err(ExecutionGateError::ApprovalNotHuman)
    );
    assert_eq!(
        ExecutionGate::permit(&value, ExecutionGateInput { authorization: Some(&allow), approval: Some(&record) }),
        Err(ExecutionGateError::ActionNotApproved)
    );
    value.bind_approval(&record, "2026-09-04T10:02:00Z".into()).unwrap();
    value.transition(ActionStatus::Approved, "2026-09-04T10:03:00Z".into()).unwrap();
    assert_eq!(
        ExecutionGate::permit(&value, ExecutionGateInput { authorization: Some(&allow), approval: Some(&record) }),
        Ok(())
    );
    assert_eq!(ExecutionGateError::ApprovalNotHuman.as_str(), "only human approval can permit consequential execution");
}
