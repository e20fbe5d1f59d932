use sidereth::authorization::{
    AuthorizationConstraint, AuthorizationDecision, AuthorizationRule, StaticAuthorizationEvaluator,
};
use sidereth::persistence::{
    PersistenceError, ResourceLink, ResourceRecord, ResourceWrite, ResourceWriteMode, Revision,
    UnitOfWork, UnitOfWorkContext, UnitOfWorkError, UnitOfWorkFactory,
};
use sidereth::service_canonical::{CaseCommand, CaseService, CommandContext, ServiceError};
use sidereth::{Case, ResourceRef, ResourceType};

use std::cell::RefCell;
use std::collections::HashMap;
use std::rc::Rc;

#[derive(Clone, Default)]
struct State(Rc<RefCell<HashMap<ResourceRef, ResourceRecord>>>);

struct MockContext { state: State }

impl UnitOfWorkContext for MockContext {
    fn read_resource(&mut self, resource_ref: &ResourceRef) -> Result<Option<ResourceRecord>, UnitOfWorkError> {
        Ok(self.state.0.borrow().get(resource_ref).cloned())
    }
    fn write_resource(&mut self, write: ResourceWrite) -> Result<(), UnitOfWorkError> {
        let mut state = self.state.0.borrow_mut();
        let current = state.get(&write.resource_ref).cloned();
        match (write.mode, current, write.expected_revision) {
            (ResourceWriteMode::Insert, Some(_), _) => Err(UnitOfWorkError::Persistence(PersistenceError::Duplicate)),
            (ResourceWriteMode::Insert, None, _) => { state.insert(write.resource_ref.clone(), ResourceRecord { resource_ref: write.resource_ref, schema_version: write.schema_version, revision: Revision::initial(), payload: write.payload }); Ok(()) }
            (ResourceWriteMode::Upsert, Some(current), Some(expected)) if current.revision != expected => Err(UnitOfWorkError::Persistence(PersistenceError::Conflict)),
            (ResourceWriteMode::Upsert, Some(_), Some(expected)) => { state.insert(write.resource_ref.clone(), ResourceRecord { resource_ref: write.resource_ref, schema_version: write.schema_version, revision: expected.next()?, payload: write.payload }); Ok(()) }
            (ResourceWriteMode::Upsert, None, Some(_)) => Err(UnitOfWorkError::Persistence(PersistenceError::Conflict)),
            (ResourceWriteMode::Upsert, Some(current), None) => { state.insert(write.resource_ref.clone(), ResourceRecord { resource_ref: write.resource_ref, schema_version: write.schema_version, revision: current.revision.next()?, payload: write.payload }); Ok(()) }
            (ResourceWriteMode::Upsert, None, None) => { state.insert(write.resource_ref.clone(), ResourceRecord { resource_ref: write.resource_ref, schema_version: write.schema_version, revision: Revision::initial(), payload: write.payload }); Ok(()) }
        }
    }
    fn link_resources(&mut self, _link: ResourceLink) -> Result<(), UnitOfWorkError> { Ok(()) }
}

struct MockUow { context: MockContext, snapshot: HashMap<ResourceRef, ResourceRecord> }
impl UnitOfWork for MockUow {
    type Context = MockContext;
    fn execute<R, F>(&mut self, operation: F) -> Result<R, UnitOfWorkError> where F: FnOnce(&mut Self::Context) -> Result<R, UnitOfWorkError> { operation(&mut self.context) }
    fn commit(self) -> Result<(), PersistenceError> { Ok(()) }
    fn rollback(self) -> Result<(), PersistenceError> { let mut state = self.context.state.0.borrow_mut(); state.clear(); state.extend(self.snapshot); Ok(()) }
}

#[derive(Clone, Default)]
struct MockFactory { state: State }
impl UnitOfWorkFactory for MockFactory {
    type Uow = MockUow;
    fn begin(&mut self) -> Result<Self::Uow, PersistenceError> { let snapshot = self.state.0.borrow().clone(); Ok(MockUow { context: MockContext { state: self.state.clone() }, snapshot }) }
}

fn reference(resource_type: ResourceType, id: &str) -> ResourceRef { ResourceRef::new(resource_type, id.into()).unwrap() }

fn context(action: &str, case_id: &str, actor: &str, operation: &str) -> CommandContext {
    CommandContext {
        request_id: format!("request-{operation}"),
        authorization_ref: reference(ResourceType::Other, "auth-1"),
        actor_id: actor.into(),
        operation_id: operation.into(),
        correlation_id: format!("correlation-{operation}"),
        purpose: "case operation".into(),
        policy_refs: vec![reference(ResourceType::Other, "policy-1")],
        jurisdiction_ref: Some(reference(ResourceType::Jurisdiction, "jurisdiction-1")),
        data_class: Some("case-restricted".into()),
        requested_at_epoch_seconds: 100,
        freshness_seconds: Some(60),
        now_epoch_seconds: 110,
    }
}

fn evaluator(actor: &str, action: &str, case_id: &str, decision: AuthorizationDecision) -> StaticAuthorizationEvaluator {
    StaticAuthorizationEvaluator {
        rules: vec![AuthorizationRule {
            policy_ref: reference(ResourceType::Other, "policy-1"),
            subject_ref: reference(ResourceType::Party, actor),
            action: reference(ResourceType::Action, action),
            resource_ref: reference(ResourceType::Case, case_id),
            purpose: "case operation".into(),
            jurisdiction_ref: Some(reference(ResourceType::Jurisdiction, "jurisdiction-1")),
            data_class: Some("case-restricted".into()),
            decision,
            constraints: vec![AuthorizationConstraint { key: "mode".into(), value: "case".into() }],
        }],
        now_epoch_seconds: 110,
    }
}

#[test]
fn canonical_allow_permits_case_creation() {
    let mut factory = MockFactory::default();
    let evaluator = evaluator("user-1", "case.create", "case-1", AuthorizationDecision::Allow);
    let mut service = CaseService::new(&mut factory, &evaluator);
    let result = service.execute(context("case.create", "case-1", "user-1", "op-1"), CaseCommand::Create { case: Case::new("case-1".into()).unwrap() }).unwrap();
    assert_eq!(result.revision.value, 0);
}

#[test]
fn deny_does_not_claim_idempotency() {
    let mut factory = MockFactory::default();
    let evaluator = evaluator("user-1", "case.create", "case-1", AuthorizationDecision::Deny);
    let mut service = CaseService::new(&mut factory, &evaluator);
    assert_eq!(service.execute(context("case.create", "case-1", "user-1", "op-1"), CaseCommand::Create { case: Case::new("case-1".into()).unwrap() }), Err(ServiceError::AuthorizationDenied));
    assert!(factory.state.0.borrow().is_empty());
}

#[test]
fn mismatched_subject_is_rejected_even_when_result_allows_other_subject() {
    let mut factory = MockFactory::default();
    let evaluator = evaluator("user-1", "case.create", "case-1", AuthorizationDecision::Allow);
    let mut service = CaseService::new(&mut factory, &evaluator);
    assert_eq!(service.execute(context("case.create", "case-1", "user-2", "op-1"), CaseCommand::Create { case: Case::new("case-1".into()).unwrap() }), Err(ServiceError::AuthorizationDenied));
}

#[test]
fn mismatched_purpose_cannot_use_allow_result() {
    let mut factory = MockFactory::default();
    let evaluator = evaluator("user-1", "case.create", "case-1", AuthorizationDecision::Allow);
    let mut command_context = context("case.create", "case-1", "user-1", "op-1");
    command_context.purpose = "different purpose".into();
    let mut service = CaseService::new(&mut factory, &evaluator);
    assert_eq!(service.execute(command_context, CaseCommand::Create { case: Case::new("case-1".into()).unwrap() }), Err(ServiceError::AuthorizationDenied));
}

#[test]
fn service_canonical_expired_authorization_is_rejected() {
    let mut factory = MockFactory::default();
    let evaluator = evaluator("user-1", "case.create", "case-1", AuthorizationDecision::Allow);
    let mut command_context = context("case.create", "case-1", "user-1", "op-1");
    command_context.now_epoch_seconds = 171;
    let mut service = CaseService::new(&mut factory, &evaluator);
    assert_eq!(service.execute(command_context, CaseCommand::Create { case: Case::new("case-1".into()).unwrap() }), Err(ServiceError::AuthorizationDenied));
}

#[test]
fn not_applicable_is_fail_closed() {
    let mut factory = MockFactory::default();
    let evaluator = StaticAuthorizationEvaluator { rules: vec![], now_epoch_seconds: 110 };
    let mut service = CaseService::new(&mut factory, &evaluator);
    assert_eq!(service.execute(context("case.create", "case-1", "user-1", "op-1"), CaseCommand::Create { case: Case::new("case-1".into()).unwrap() }), Err(ServiceError::AuthorizationDenied));
}
