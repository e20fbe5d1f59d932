use sidereth::authorization::{AuthorizationConstraint, AuthorizationDecision, AuthorizationResult};
use sidereth::persistence::{
    PersistenceError, ResourceLink, ResourceRecord, ResourceWrite, ResourceWriteMode, Revision,
    UnitOfWork, UnitOfWorkContext, UnitOfWorkError, UnitOfWorkFactory,
};
use sidereth::service::{CaseCommand, CaseService, CommandContext, ServiceError};
use sidereth::{Case, CaseState, ResourceRef, ResourceType};

const CASE_CREATE_ACTION: &str = "case.create";
const CASE_TRANSITION_ACTION: &str = "case.transition";

use std::cell::RefCell;
use std::collections::HashMap;
use std::rc::Rc;

#[derive(Clone, Default)]
struct State(Rc<RefCell<HashMap<ResourceRef, ResourceRecord>>>);

struct MockContext {
    state: State,
}

impl UnitOfWorkContext for MockContext {
    fn read_resource(
        &mut self,
        resource_ref: &ResourceRef,
    ) -> Result<Option<ResourceRecord>, UnitOfWorkError> {
        Ok(self.state.0.borrow().get(resource_ref).cloned())
    }

    fn write_resource(&mut self, write: ResourceWrite) -> Result<(), UnitOfWorkError> {
        let mut state = self.state.0.borrow_mut();
        let current = state.get(&write.resource_ref).cloned();
        match (write.mode, current, write.expected_revision) {
            (ResourceWriteMode::Insert, Some(_), _) => {
                Err(UnitOfWorkError::Persistence(PersistenceError::Duplicate))
            }
            (ResourceWriteMode::Insert, None, _) => {
                state.insert(
                    write.resource_ref.clone(),
                    ResourceRecord {
                        resource_ref: write.resource_ref,
                        schema_version: write.schema_version,
                        revision: Revision::initial(),
                        payload: write.payload,
                    },
                );
                Ok(())
            }
            (ResourceWriteMode::Upsert, Some(current), Some(expected))
                if current.revision != expected =>
            {
                Err(UnitOfWorkError::Persistence(PersistenceError::Conflict))
            }
            (ResourceWriteMode::Upsert, Some(_current), Some(expected)) => {
                state.insert(
                    write.resource_ref.clone(),
                    ResourceRecord {
                        resource_ref: write.resource_ref,
                        schema_version: write.schema_version,
                        revision: expected.next()?,
                        payload: write.payload,
                    },
                );
                Ok(())
            }
            (ResourceWriteMode::Upsert, None, Some(_)) => {
                Err(UnitOfWorkError::Persistence(PersistenceError::Conflict))
            }
            (ResourceWriteMode::Upsert, Some(current), None) => {
                state.insert(
                    write.resource_ref.clone(),
                    ResourceRecord {
                        resource_ref: write.resource_ref,
                        schema_version: write.schema_version,
                        revision: current.revision.next()?,
                        payload: write.payload,
                    },
                );
                Ok(())
            }
            (ResourceWriteMode::Upsert, None, None) => {
                state.insert(
                    write.resource_ref.clone(),
                    ResourceRecord {
                        resource_ref: write.resource_ref,
                        schema_version: write.schema_version,
                        revision: Revision::initial(),
                        payload: write.payload,
                    },
                );
                Ok(())
            }
        }
    }

    fn link_resources(
        &mut self,
        _link: ResourceLink,
    ) -> Result<(), UnitOfWorkError> {
        Ok(())
    }
}

struct MockUow {
    context: MockContext,
    snapshot: HashMap<ResourceRef, ResourceRecord>,
}

impl UnitOfWork for MockUow {
    type Context = MockContext;

    fn execute<R, F>(&mut self, operation: F) -> Result<R, UnitOfWorkError>
    where
        F: FnOnce(&mut Self::Context) -> Result<R, UnitOfWorkError>,
    {
        operation(&mut self.context)
    }

    fn commit(self) -> Result<(), PersistenceError> {
        Ok(())
    }

    fn rollback(self) -> Result<(), PersistenceError> {
        let mut state = self.context.state.0.borrow_mut();
        state.clear();
        state.extend(self.snapshot);
        Ok(())
    }
}

#[derive(Clone, Default)]
struct MockFactory {
    state: State,
}

impl UnitOfWorkFactory for MockFactory {
    type Uow = MockUow;

    fn begin(&mut self) -> Result<Self::Uow, PersistenceError> {
        let snapshot = self.state.0.borrow().clone();
        Ok(MockUow {
            context: MockContext {
                state: self.state.clone(),
            },
            snapshot,
        })
    }
}

fn reference(resource_type: ResourceType, id: &str) -> ResourceRef {
    ResourceRef::new(resource_type, id.into()).unwrap()
}

fn authorization(
    decision: AuthorizationDecision,
    subject_id: &str,
    action_id: &str,
    case_id: &str,
    purpose: &str,
    data_class: Option<&str>,
    evaluated_at: u64,
    expires_at: Option<u64>,
) -> AuthorizationResult {
    AuthorizationResult {
        request_id: "request-1".into(),
        authorization_ref: reference(ResourceType::Other, "auth-1"),
        subject_ref: reference(ResourceType::Party, subject_id),
        action: reference(ResourceType::Action, action_id),
        resource_ref: reference(ResourceType::Case, case_id),
        purpose: purpose.into(),
        jurisdiction_ref: Some(reference(ResourceType::Jurisdiction, "jurisdiction-1")),
        data_class: data_class.map(str::to_owned),
        decision,
        constraints: vec![AuthorizationConstraint {
            key: "access_mode".into(),
            value: "write".into(),
        }],
        policy_refs: vec![reference(ResourceType::Other, "policy-1")],
        evaluated_at_epoch_seconds: evaluated_at,
        expires_at_epoch_seconds: expires_at,
    }
}

fn context(authorization: AuthorizationResult) -> CommandContext {
    CommandContext {
        actor_id: "user-1".into(),
        operation_id: "op-1".into(),
        correlation_id: "corr-1".into(),
        purpose: "case management".into(),
        jurisdiction_ref: Some(reference(ResourceType::Jurisdiction, "jurisdiction-1")),
        requested_data_class: Some("case-restricted".into()),
        now_epoch_seconds: 110,
        authorization,
    }
}

fn allowed_context() -> CommandContext {
    context(authorization(
        AuthorizationDecision::Allow,
        "user-1",
        CASE_CREATE_ACTION,
        "case-1",
        "case management",
        Some("case-restricted"),
        100,
        Some(160),
    ))
}

#[test]
fn create_writes_case_event_audit_provenance_and_idempotency_atomically() {
    let mut factory = MockFactory::default();
    let state = factory.state.clone();
    let mut service = CaseService::new(&mut factory);
    let result = service
        .execute(
            allowed_context(),
            CaseCommand::Create {
                case: Case::new("case-1".into()).unwrap(),
            },
        )
        .unwrap();
    assert_eq!(result.revision.value, 0);
    let records = state.0.borrow();
    assert!(records.contains_key(&reference(ResourceType::Case, "case-1")));
    assert!(records.contains_key(&reference(ResourceType::Event, &result.event_id)));
    assert!(records.contains_key(&reference(ResourceType::Audit, "audit-op-1")));
    assert!(records.contains_key(&reference(ResourceType::Provenance, "provenance-op-1")));
    assert!(records.contains_key(&reference(ResourceType::Idempotency, "op-1")));
}

#[test]
fn denied_authorization_does_not_claim_idempotency() {
    let mut factory = MockFactory::default();
    let mut denied = allowed_context();
    denied.authorization.decision = AuthorizationDecision::Deny;
    let mut service = CaseService::new(&mut factory);
    assert_eq!(
        service.execute(
            denied,
            CaseCommand::Create {
                case: Case::new("case-1".into()).unwrap(),
            },
        ),
        Err(ServiceError::AuthorizationDenied)
    );
    assert!(factory.state.0.borrow().is_empty());
}

#[test]
fn wrong_subject_is_rejected_before_mutation() {
    let mut factory = MockFactory::default();
    let mut authorization = allowed_context();
    authorization.authorization.subject_ref = reference(ResourceType::Party, "user-2");
    let mut service = CaseService::new(&mut factory);
    assert_eq!(
        service.execute(
            authorization,
            CaseCommand::Create {
                case: Case::new("case-1".into()).unwrap(),
            },
        ),
        Err(ServiceError::AuthorizationMismatch)
    );
    assert!(factory.state.0.borrow().is_empty());
}

#[test]
fn wrong_action_is_rejected_before_mutation() {
    let mut factory = MockFactory::default();
    let mut authorization = allowed_context();
    authorization.authorization.action = reference(ResourceType::Action, "case.delete");
    let mut service = CaseService::new(&mut factory);
    assert_eq!(
        service.execute(
            authorization,
            CaseCommand::Create {
                case: Case::new("case-1".into()).unwrap(),
            },
        ),
        Err(ServiceError::AuthorizationMismatch)
    );
}

#[test]
fn wrong_resource_is_rejected_before_mutation() {
    let mut factory = MockFactory::default();
    let mut authorization = allowed_context();
    authorization.authorization.resource_ref = reference(ResourceType::Case, "case-2");
    let mut service = CaseService::new(&mut factory);
    assert_eq!(
        service.execute(
            authorization,
            CaseCommand::Create {
                case: Case::new("case-1".into()).unwrap(),
            },
        ),
        Err(ServiceError::AuthorizationMismatch)
    );
}

#[test]
fn wrong_purpose_is_rejected_before_mutation() {
    let mut factory = MockFactory::default();
    let mut authorization = allowed_context();
    authorization.authorization.purpose = "different purpose".into();
    let mut service = CaseService::new(&mut factory);
    assert_eq!(
        service.execute(
            authorization,
            CaseCommand::Create {
                case: Case::new("case-1".into()).unwrap(),
            },
        ),
        Err(ServiceError::AuthorizationMismatch)
    );
}

#[test]
fn wrong_data_class_is_rejected_before_mutation() {
    let mut factory = MockFactory::default();
    let mut authorization = allowed_context();
    authorization.authorization.data_class = Some("public".into());
    let mut service = CaseService::new(&mut factory);
    assert_eq!(
        service.execute(
            authorization,
            CaseCommand::Create {
                case: Case::new("case-1".into()).unwrap(),
            },
        ),
        Err(ServiceError::AuthorizationMismatch)
    );
}

#[test]
fn service_expired_authorization_is_rejected_before_mutation() {
    let mut factory = MockFactory::default();
    let mut authorization = allowed_context();
    authorization.authorization.expires_at_epoch_seconds = Some(109);
    let mut service = CaseService::new(&mut factory);
    assert_eq!(
        service.execute(
            authorization,
            CaseCommand::Create {
                case: Case::new("case-1".into()).unwrap(),
            },
        ),
        Err(ServiceError::AuthorizationExpired)
    );
}

#[test]
fn future_evaluated_authorization_is_rejected() {
    let mut factory = MockFactory::default();
    let mut authorization = allowed_context();
    authorization.authorization.evaluated_at_epoch_seconds = 111;
    let mut service = CaseService::new(&mut factory);
    assert_eq!(
        service.execute(
            authorization,
            CaseCommand::Create {
                case: Case::new("case-1".into()).unwrap(),
            },
        ),
        Err(ServiceError::AuthorizationInvalid)
    );
}

#[test]
fn transition_uses_transactional_read_and_cas() {
    let mut factory = MockFactory::default();
    let state = factory.state.clone();
    let mut service = CaseService::new(&mut factory);
    service
        .execute(
            allowed_context(),
            CaseCommand::Create {
                case: Case::new("case-1".into()).unwrap(),
            },
        )
        .unwrap();
    let mut transition_context = allowed_context();
    transition_context.operation_id = "op-2".into();
    transition_context.correlation_id = "corr-2".into();
    transition_context.authorization = authorization(
        AuthorizationDecision::Allow,
        "user-1",
        CASE_TRANSITION_ACTION,
        "case-1",
        "case management",
        Some("case-restricted"),
        100,
        Some(160),
    );
    let result = service
        .execute(
            transition_context,
            CaseCommand::Transition {
                case_id: "case-1".into(),
                expected_revision: Revision::initial(),
                next: CaseState::Active,
            },
        )
        .unwrap();
    assert_eq!(result.revision.value, 1);
    assert_eq!(
        state
            .0
            .borrow()
            .get(&reference(ResourceType::Case, "case-1"))
            .unwrap()
            .revision
            .value,
        1
    );
}

#[test]
fn stale_transition_is_rejected_without_side_effects() {
    let mut factory = MockFactory::default();
    let state = factory.state.clone();
    let mut service = CaseService::new(&mut factory);
    service
        .execute(
            allowed_context(),
            CaseCommand::Create {
                case: Case::new("case-1".into()).unwrap(),
            },
        )
        .unwrap();
    let mut transition_context = allowed_context();
    transition_context.operation_id = "op-2".into();
    transition_context.correlation_id = "corr-2".into();
    transition_context.authorization = authorization(
        AuthorizationDecision::Allow,
        "user-1",
        CASE_TRANSITION_ACTION,
        "case-1",
        "case management",
        Some("case-restricted"),
        100,
        Some(160),
    );
    service
        .execute(
            transition_context.clone(),
            CaseCommand::Transition {
                case_id: "case-1".into(),
                expected_revision: Revision::initial(),
                next: CaseState::Active,
            },
        )
        .unwrap();
    let before = state.0.borrow().clone();
    let mut stale = transition_context;
    stale.operation_id = "op-3".into();
    stale.correlation_id = "corr-3".into();
    stale.authorization.request_id = "request-3".into();
    assert_eq!(
        service.execute(
            stale,
            CaseCommand::Transition {
                case_id: "case-1".into(),
                expected_revision: Revision::initial(),
                next: CaseState::Closed,
            },
        ),
        Err(ServiceError::Conflict)
    );
    assert_eq!(*state.0.borrow(), before);
}

#[test]
fn duplicate_operation_is_rejected_by_atomic_idempotency_record() {
    let mut factory = MockFactory::default();
    let mut service = CaseService::new(&mut factory);
    service
        .execute(
            allowed_context(),
            CaseCommand::Create {
                case: Case::new("case-1".into()).unwrap(),
            },
        )
        .unwrap();
    assert_eq!(
        service.execute(
            allowed_context(),
            CaseCommand::Create {
                case: Case::new("case-2".into()).unwrap(),
            },
        ),
        Err(ServiceError::Duplicate)
    );
}
