use sidereth::authorization::{AuthorizationConstraint, AuthorizationDecision, AuthorizationEvaluator, AuthorizationRequest, AuthorizationResult, StaticAuthorizationEvaluator};
use sidereth::authorization_enforcement::{AuthorizationValidationError, validate_authorization};
use sidereth::resource::{ResourceRef, ResourceType};
fn reference(kind: ResourceType, id: &str) -> ResourceRef {
    ResourceRef::new(kind, id.into()).unwrap()
}

fn request() -> AuthorizationRequest {
    AuthorizationRequest {
        request_id: "req-1".into(),
        authorization_ref: reference(ResourceType::Other, "auth-1"),
        subject_ref: reference(ResourceType::Party, "party-1"),
        action: reference(ResourceType::Action, "resource.read"),
        resource_ref: reference(ResourceType::Case, "case-1"),
        purpose: "protected read".into(),
        policy_refs: vec![reference(ResourceType::Other, "policy-1")],
        jurisdiction_ref: None,
        data_class: Some("restricted".into()),
        requested_at_epoch_seconds: 1_000,
        freshness_seconds: Some(100),
    }
}

fn allowed() -> AuthorizationResult {
    let request = request();
    AuthorizationResult {
        request_id: request.request_id.clone(),
        authorization_ref: request.authorization_ref.clone(),
        subject_ref: request.subject_ref.clone(),
        action: request.action.clone(),
        resource_ref: request.resource_ref.clone(),
        purpose: request.purpose.clone(),
        jurisdiction_ref: request.jurisdiction_ref.clone(),
        data_class: request.data_class.clone(),
        decision: AuthorizationDecision::Allow,
        constraints: vec![AuthorizationConstraint { key: "scope".into(), value: "exact_resource".into() }],
        policy_refs: request.policy_refs.clone(),
        evaluated_at_epoch_seconds: 1_000,
        expires_at_epoch_seconds: Some(1_100),
    }
}

#[test]
fn valid_allow_is_accepted() {
    assert_eq!(validate_authorization(&request(), &allowed(), 1_050), Ok(()));
}

#[test]
fn exact_expiry_is_rejected() {
    assert_eq!(validate_authorization(&request(), &allowed(), 1_100), Err(AuthorizationValidationError::Expired));
}

#[test]
fn unknown_constraint_fails_closed() {
    let mut result = allowed();
    result.constraints.push(AuthorizationConstraint { key: "future_constraint".into(), value: "x".into() });
    assert_eq!(validate_authorization(&request(), &result, 1_050), Err(AuthorizationValidationError::ConstraintViolation));
}

#[test]
fn deny_is_rejected() {
    let mut result = allowed();
    result.decision = AuthorizationDecision::Deny;
    assert_eq!(validate_authorization(&request(), &result, 1_050), Err(AuthorizationValidationError::Denied));
}

#[test]
fn authorization_enforcement_malformed_request_fails_closed() {
    let mut request = request();
    request.purpose.clear();
    assert_eq!(validate_authorization(&request, &allowed(), 1_050), Err(AuthorizationValidationError::InvalidRequest));
}

#[test]
fn static_evaluator_result_is_consumable() {
    let request = request();
    let evaluator = StaticAuthorizationEvaluator { rules: vec![], now_epoch_seconds: 1_050 };
    let result = evaluator.evaluate(&request);
    assert_eq!(result.decision, AuthorizationDecision::NotApplicable);
    assert_eq!(validate_authorization(&request, &result, 1_050), Err(AuthorizationValidationError::Denied));
}
