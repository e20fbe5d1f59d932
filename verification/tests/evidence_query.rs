use sidereth::authorization::{AuthorizationConstraint, AuthorizationDecision, AuthorizationRequest, AuthorizationResult};
use sidereth::evidence::{EvidenceCapture, EvidenceOriginal};
use sidereth::evidence_query::{AuthorizedEvidenceQuery, EvidenceQueryError, EvidenceQueryRequest};
use sidereth::evidence_store::{EvidenceObjectStore, EvidenceRepository, InMemoryEvidenceVault};
use sidereth::{ResourceRef, ResourceType};
fn authorization_context(
    evidence_ref: &ResourceRef,
) -> (AuthorizationRequest, AuthorizationResult) {
    let request = AuthorizationRequest {
        request_id: "request-1".into(),
        authorization_ref: ResourceRef::new(ResourceType::Other, "auth-1".into()).unwrap(),
        subject_ref: ResourceRef::new(ResourceType::Party, "party-1".into()).unwrap(),
        action: ResourceRef::new(ResourceType::Action, "evidence.read".into()).unwrap(),
        resource_ref: evidence_ref.clone(),
        purpose: "protected evidence retrieval".into(),
        policy_refs: vec![ResourceRef::new(ResourceType::Other, "policy-1".into()).unwrap()],
        jurisdiction_ref: None,
        data_class: Some("restricted".into()),
        requested_at_epoch_seconds: 1_000,
        freshness_seconds: Some(1_000),
    };
    let result = AuthorizationResult {
        request_id: request.request_id.clone(),
        authorization_ref: request.authorization_ref.clone(),
        subject_ref: request.subject_ref.clone(),
        action: request.action.clone(),
        resource_ref: request.resource_ref.clone(),
        purpose: request.purpose.clone(),
        jurisdiction_ref: request.jurisdiction_ref.clone(),
        data_class: request.data_class.clone(),
        decision: AuthorizationDecision::Allow,
        constraints: vec![AuthorizationConstraint {
            key: "scope".into(),
            value: "exact_evidence".into(),
        }],
        policy_refs: request.policy_refs.clone(),
        evaluated_at_epoch_seconds: 1_000,
        expires_at_epoch_seconds: Some(2_000),
    };
    (request, result)
}

fn evidence() -> EvidenceOriginal {
    EvidenceOriginal::from_capture(EvidenceCapture {
        evidence_id: "evidence-1".into(),
        schema_version: 1,
        case_id: Some("case-1".into()),
        incident_id: None,
        captured_at: "2026-09-03T10:00:00Z".into(),
        captured_by: "user-1".into(),
        media_type: "text/plain".into(),
        storage_ref: "object-1".into(),
        content: b"original evidence",
    })
    .unwrap()
}

fn vault() -> InMemoryEvidenceVault {
    let mut vault = InMemoryEvidenceVault::default();
    let original = evidence();
    EvidenceObjectStore::put(
        &mut vault,
        original.storage_ref.clone(),
        b"original evidence".to_vec(),
    )
    .unwrap();
    EvidenceRepository::save_original(&mut vault, original).unwrap();
    vault
}

fn request() -> EvidenceQueryRequest {
    let evidence_ref = ResourceRef::new(ResourceType::Evidence, "evidence-1".into()).unwrap();
    let (authorization_request, authorization) = authorization_context(&evidence_ref);
    EvidenceQueryRequest::new(evidence_ref, authorization_request, authorization, 1_500)
}

#[test]
fn authorized_retrieval_returns_metadata_and_content() {
    let vault = vault();
    let query = AuthorizedEvidenceQuery::new(&vault, &vault);
    let result = query.get(request()).unwrap();
    assert_eq!(result.original.evidence_id, "evidence-1");
    assert_eq!(result.content, b"original evidence");
}

#[test]
fn denied_authorization_is_rejected_before_storage_read() {
    let vault = vault();
    let mut request = request();
    request.authorization.decision = AuthorizationDecision::Deny;
    let query = AuthorizedEvidenceQuery::new(&vault, &vault);
    assert_eq!(
        query.get(request),
        Err(EvidenceQueryError::AuthorizationDenied)
    );
}

#[test]
fn authorization_must_bind_to_exact_evidence() {
    let vault = vault();
    let mut request = request();
    request.authorization_request.resource_ref =
        ResourceRef::new(ResourceType::Evidence, "evidence-2".into()).unwrap();
    let query = AuthorizedEvidenceQuery::new(&vault, &vault);
    assert_eq!(
        query.get(request),
        Err(EvidenceQueryError::AuthorizationMismatch)
    );
}

#[test]
fn authorization_result_must_match_request_context() {
    let vault = vault();
    let mut request = request();
    request.authorization.purpose = "different purpose".into();
    let query = AuthorizedEvidenceQuery::new(&vault, &vault);
    assert_eq!(
        query.get(request),
        Err(EvidenceQueryError::AuthorizationMismatch)
    );
}

#[test]
fn evidence_query_expired_authorization_is_rejected() {
    let vault = vault();
    let mut request = request();
    request.authorization.expires_at_epoch_seconds = Some(1_500);
    let query = AuthorizedEvidenceQuery::new(&vault, &vault);
    assert_eq!(
        query.get(request),
        Err(EvidenceQueryError::AuthorizationExpired)
    );
}

#[test]
fn stale_request_is_rejected() {
    let vault = vault();
    let mut request = request();
    request.authorization_request.freshness_seconds = Some(100);
    let query = AuthorizedEvidenceQuery::new(&vault, &vault);
    assert_eq!(
        query.get(request),
        Err(EvidenceQueryError::AuthorizationExpired)
    );
}

#[test]
fn tampered_content_is_rejected() {
    let mut vault = vault();
    vault.tamper_object("object-1", b"tampered evidence");
    let query = AuthorizedEvidenceQuery::new(&vault, &vault);
    assert_eq!(
        query.get(request()),
        Err(EvidenceQueryError::StorageFailure)
    );
}
