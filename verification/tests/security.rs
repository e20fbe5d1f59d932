use sidereth::audit::{AuditRecord, InMemoryAudit};
use sidereth::authorization::{AuthorizationConstraint, AuthorizationDecision, AuthorizationResult};
use sidereth::resource::{ResourceRef, ResourceType};
use sidereth::security::{AuthorizedAudit, EvidenceError, RetentionPolicy};

fn authorization(decision: AuthorizationDecision) -> AuthorizationResult {
    let subject_ref = ResourceRef::new(ResourceType::Party, "user-1".into()).unwrap();
    let action = ResourceRef::new(ResourceType::Other, "evidence.read".into()).unwrap();
    let resource_ref = ResourceRef::new(ResourceType::Evidence, "evidence-1".into()).unwrap();
    AuthorizationResult {
        request_id: "request-1".into(),
        authorization_ref: ResourceRef::new(ResourceType::Other, "auth-1".into()).unwrap(),
        subject_ref,
        action,
        resource_ref,
        purpose: "audit evidence read".into(),
        jurisdiction_ref: None,
        data_class: Some("public".into()),
        decision,
        constraints: vec![AuthorizationConstraint {
            key: "scope".into(),
            value: "exact_resource".into(),
        }],
        policy_refs: vec![],
        evaluated_at_epoch_seconds: 1_000,
        expires_at_epoch_seconds: Some(2_000),
    }
}

fn audit() -> AuditRecord {
    AuditRecord {
        audit_id: "audit-1".into(),
        actor_id: "user-1".into(),
        action: "evidence.read".into(),
        aggregate_type: "evidence".into(),
        aggregate_id: "evidence-1".into(),
        occurred_at: "2026-09-03T10:00:00Z".into(),
        correlation_id: None,
        causation_id: None,
        provenance_ref: None,
        invocation_id: None,
        request_id: None,
        authorization_ref: None,
        action_ref: None,
        approval_ref: None,
        tool_id: None,
        tool_version: None,
        capability_ref: None,
        function_ref: None,
        provider_id: None,
        implementation_id: None,
        implementation_version: None,
        resource_ref: None,
        purpose: None,
        jurisdiction_ref: None,
        data_class: None,
        requested_scope: None,
        execution_mode: None,
        idempotency_ref: None,
        outcome: None,
        failure: None,
        input_hash: None,
        output_hash: None,
    }
}

#[test]
fn legal_hold_blocks_deletion() {
    let policy = RetentionPolicy {
        policy_id: "retain-1".into(),
        retain_until: Some("2026-01-01T00:00:00Z".into()),
        legal_hold: true,
    };
    assert!(!policy.deletion_allowed("2026-09-03T00:00:00Z").unwrap());
}

#[test]
fn expired_retention_allows_deletion() {
    let policy = RetentionPolicy {
        policy_id: "retain-1".into(),
        retain_until: Some("2026-01-01T00:00:00Z".into()),
        legal_hold: false,
    };
    assert!(policy.deletion_allowed("2026-09-03T00:00:00Z").unwrap());
}

#[test]
fn active_retention_blocks_deletion() {
    let policy = RetentionPolicy {
        policy_id: "retain-1".into(),
        retain_until: Some("2026-12-01T00:00:00Z".into()),
        legal_hold: false,
    };
    assert!(!policy.deletion_allowed("2026-09-03T00:00:00Z").unwrap());
}

#[test]
fn missing_retention_deadline_is_invalid() {
    let policy = RetentionPolicy {
        policy_id: "retain-1".into(),
        retain_until: None,
        legal_hold: false,
    };
    assert_eq!(
        policy.deletion_allowed("2026-09-03T00:00:00Z"),
        Err(EvidenceError::InvalidInput)
    );
}

#[test]
fn denied_canonical_authorization_is_rejected_before_audit() {
    let mut audit_store = InMemoryAudit::default();
    let mut boundary = AuthorizedAudit {
        audit: &mut audit_store,
    };

    let result = boundary.authorize_and_audit(
        &authorization(AuthorizationDecision::Deny),
        audit(),
    );

    assert_eq!(result, Err(EvidenceError::Unauthorized));
    assert!(audit_store.records().is_empty());
}

#[test]
fn not_applicable_canonical_authorization_is_rejected_before_audit() {
    let mut audit_store = InMemoryAudit::default();
    let mut boundary = AuthorizedAudit {
        audit: &mut audit_store,
    };

    let result = boundary.authorize_and_audit(
        &authorization(AuthorizationDecision::NotApplicable),
        audit(),
    );

    assert_eq!(result, Err(EvidenceError::Unauthorized));
    assert!(audit_store.records().is_empty());
}

#[test]
fn canonical_allow_is_audited() {
    let mut audit_store = InMemoryAudit::default();
    let mut boundary = AuthorizedAudit {
        audit: &mut audit_store,
    };

    boundary
        .authorize_and_audit(&authorization(AuthorizationDecision::Allow), audit())
        .unwrap();

    assert_eq!(audit_store.records().len(), 1);
}
