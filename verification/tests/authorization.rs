use sidereth::authorization::{
    AccessAction, AccessRequest, AuthorizationConstraint, AuthorizationContext, AuthorizationDecision,
    AuthorizationEvaluator, AuthorizationPolicy, AuthorizationRequest, AuthorizationResult, AuthorizationRule,
    CaseAccessPolicy, InMemoryAuthorizationEvaluator, StaticAuthorizationEvaluator, evaluate_request,
};
use sidereth::resource::{ResourceRef, ResourceType};

fn request(actor_id: &str) -> AccessRequest {
    AccessRequest {
        actor_id: actor_id.into(),
        case_id: "case-1".into(),
        action: AccessAction::Read,
    }
}

fn reference(resource_type: ResourceType, id: &str) -> ResourceRef {
    ResourceRef::new(resource_type, id.into()).unwrap()
}

fn canonical_request() -> AuthorizationRequest {
    AuthorizationRequest {
        request_id: "req-1".into(),
        authorization_ref: reference(ResourceType::Other, "auth-1"),
        subject_ref: reference(ResourceType::Party, "party-1"),
        action: reference(ResourceType::Action, "action-1"),
        resource_ref: reference(ResourceType::Document, "doc-1"),
        purpose: "case preparation".into(),
        policy_refs: vec![reference(ResourceType::Other, "policy-1")],
        jurisdiction_ref: None,
        data_class: None,
        requested_at_epoch_seconds: 100,
        freshness_seconds: None,
    }
}

#[test]
fn owner_is_authorized_by_legacy_case_policy() {
    let policy = CaseAccessPolicy {
        owner_id: "user-1".into(),
    };
    assert!(policy.authorize(&request("user-1")).is_ok());
}

#[test]
fn other_actor_is_denied_by_legacy_case_policy() {
    let policy = CaseAccessPolicy {
        owner_id: "user-1".into(),
    };
    assert_eq!(
        policy.authorize(&request("user-2")),
        Err("case access denied")
    );
}

#[test]
fn authorization_decision_is_not_an_approval_or_legal_authority() {
    let request = canonical_request();
    let result = AuthorizationResult {
        request_id: request.request_id.clone(),
        authorization_ref: request.authorization_ref.clone(),
        subject_ref: request.subject_ref.clone(),
        action: request.action.clone(),
        resource_ref: request.resource_ref.clone(),
        purpose: request.purpose.clone(),
        jurisdiction_ref: None,
        data_class: None,
        decision: AuthorizationDecision::Allow,
        constraints: vec![AuthorizationConstraint { key: "read_only".into(), value: "true".into() }],
        policy_refs: vec![reference(ResourceType::Other, "policy-1")],
        evaluated_at_epoch_seconds: 100,
        expires_at_epoch_seconds: None,
    };
    assert_eq!(result.decision, AuthorizationDecision::Allow);
    assert_eq!(result.constraints.len(), 1);
    assert_eq!(result.constraints[0].key, "read_only");
}

#[test]
fn missing_policy_fails_closed() {
    let mut request = canonical_request();
    request.policy_refs.clear();
    assert_eq!(
        evaluate_request(&request, &AuthorizationContext::default()).decision,
        AuthorizationDecision::Deny
    );
}

#[test]
fn authorization_malformed_request_fails_closed() {
    let mut request = canonical_request();
    request.purpose.clear();
    assert_eq!(
        evaluate_request(&request, &AuthorizationContext::default()).decision,
        AuthorizationDecision::Deny
    );
}

#[test]
fn invalid_context_fails_closed() {
    let request = canonical_request();
    let context = AuthorizationContext {
        valid: false,
        ..AuthorizationContext::default()
    };
    assert_eq!(
        evaluate_request(&request, &context).decision,
        AuthorizationDecision::Deny
    );
}

#[test]
fn scope_mismatch_fails_closed() {
    let request = canonical_request();
    let context = AuthorizationContext {
        scope_refs: vec![reference(ResourceType::Document, "other-doc")],
        ..AuthorizationContext::default()
    };
    assert_eq!(
        evaluate_request(&request, &context).decision,
        AuthorizationDecision::Deny
    );
}

#[test]
fn not_applicable_is_non_authorizing() {
    assert_ne!(
        AuthorizationDecision::NotApplicable,
        AuthorizationDecision::Allow
    );
}

#[test]
fn same_request_is_deterministic() {
    let request = canonical_request();
    let evaluator = InMemoryAuthorizationEvaluator;
    assert_eq!(evaluator.evaluate(&request), evaluator.evaluate(&request));
}

#[test]
fn static_evaluator_uses_the_first_matching_rule_and_echoes_the_request() {
    let request = canonical_request();
    let rule = |decision| AuthorizationRule {
        policy_ref: reference(ResourceType::Other, "policy-1"),
        subject_ref: reference(ResourceType::Party, "party-1"),
        action: reference(ResourceType::Action, "action-1"),
        resource_ref: reference(ResourceType::Document, "doc-1"),
        purpose: "case preparation".into(),
        jurisdiction_ref: None,
        data_class: None,
        decision,
        constraints: Vec::new(),
    };
    let evaluator = StaticAuthorizationEvaluator {
        rules: vec![rule(AuthorizationDecision::Allow), rule(AuthorizationDecision::Deny)],
        now_epoch_seconds: 150,
    };
    let result = evaluator.evaluate(&request);
    assert_eq!(result.decision, AuthorizationDecision::Allow);
    assert_eq!(result.request_id, "req-1");
    assert_eq!(result.evaluated_at_epoch_seconds, 150);
    let mut other = canonical_request();
    other.purpose = "something else".into();
    assert_eq!(evaluator.evaluate(&other).decision, AuthorizationDecision::NotApplicable);
}
