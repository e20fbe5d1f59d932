use sidereth::audit::{AuditRecord, InMemoryAudit};
use sidereth::provenance::Provenance;

fn record(id: &str) -> AuditRecord {
    AuditRecord {
        audit_id: id.into(),
        actor_id: "user-1".into(),
        action: "case.create".into(),
        aggregate_type: "case".into(),
        aggregate_id: "case-1".into(),
        occurred_at: "2026-09-02T00:00:00Z".into(),
        correlation_id: None,
        causation_id: None,
        provenance_ref: None,
        invocation_id: None,
        request_id: None,
        authorization_ref: None,
        action_ref: None,
        approval_ref: None,
        tool_id: None,
        tool_version: None,
        capability_ref: None,
        function_ref: None,
        provider_id: None,
        implementation_id: None,
        implementation_version: None,
        resource_ref: None,
        purpose: None,
        jurisdiction_ref: None,
        data_class: None,
        requested_scope: None,
        execution_mode: None,
        idempotency_ref: None,
        outcome: None,
        failure: None,
        input_hash: None,
        output_hash: None,
    }
}

fn provenance(id: &str) -> Provenance {
    Provenance {
        provenance_id: id.into(),
        actor_ref: None,
        source_refs: Vec::new(),
        input_refs: Vec::new(),
        operation: "tool.invoke".into(),
        occurred_at: "2026-09-02T00:00:00Z".into(),
    }
}

#[test]
fn audit_record_is_stored() {
    let mut audit = InMemoryAudit::default();
    audit.record(record("audit-1")).unwrap();
    assert_eq!(audit.records().len(), 1);
}

#[test]
fn duplicate_audit_id_is_rejected() {
    let mut audit = InMemoryAudit::default();
    audit.record(record("audit-1")).unwrap();
    assert_eq!(
        audit.record(record("audit-1")),
        Err("audit record already exists")
    );
}

#[test]
fn audit_record_validation_is_explicit() {
    let mut value = record("audit-1");
    value.action.clear();
    assert_eq!(value.validate(), Err("audit action is required"));
}

#[test]
fn invocation_audit_and_provenance_are_stored_together_or_not_at_all() {
    let mut audit = InMemoryAudit::default();
    audit.record_invocation(record("audit-1"), provenance("prov-1")).unwrap();
    assert_eq!(
        audit.record_invocation(record("audit-2"), provenance("prov-1")),
        Err("provenance record already exists")
    );
    assert_eq!(audit.records().len(), 1);
    assert_eq!(audit.provenances().len(), 1);
    let mut bad = provenance("prov-2");
    bad.operation.clear();
    assert_eq!(
        audit.record_invocation(record("audit-3"), bad),
        Err("provenance operation is required")
    );
    assert_eq!(audit.records().len(), 1);
}
