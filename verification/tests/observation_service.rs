use std::cell::RefCell;
use std::collections::HashMap;
use std::rc::Rc;

use sidereth::authorization::{AuthorizationDecision, AuthorizationResult};
use sidereth::intelligence::{EpistemicStatus, IntelligenceDataClass};
use sidereth::json::{member, text, JsonValue};
use sidereth::observation::{Observation, ObservationOrigin, ObservationType};
use sidereth::observation_service::{ObservationCommandContext, ObservationService, ObservationServiceError};
use sidereth::persistence::{
    PersistenceError, ResourceLink, ResourceRecord, ResourceWrite, ResourceWriteMode, Revision, UnitOfWork,
    UnitOfWorkContext, UnitOfWorkError, UnitOfWorkFactory,
};
use sidereth::{ResourceRef, ResourceType};

#[derive(Clone, Default)]
struct State(Rc<RefCell<HashMap<ResourceRef, ResourceRecord>>>);

struct MockContext {
    state: State,
}

impl UnitOfWorkContext for MockContext {
    fn read_resource(&mut self, resource_ref: &ResourceRef) -> Result<Option<ResourceRecord>, UnitOfWorkError> {
        Ok(self.state.0.borrow().get(resource_ref).cloned())
    }

    fn write_resource(&mut self, write: ResourceWrite) -> Result<(), UnitOfWorkError> {
        let mut state = self.state.0.borrow_mut();
        if write.mode == ResourceWriteMode::Insert && state.contains_key(&write.resource_ref) {
            return Err(UnitOfWorkError::Persistence(PersistenceError::Duplicate));
        }
        let revision = state
            .get(&write.resource_ref)
            .map(|record| record.revision.next())
            .transpose()?
            .unwrap_or_else(Revision::initial);
        state.insert(
            write.resource_ref.clone(),
            ResourceRecord {
                resource_ref: write.resource_ref,
                schema_version: write.schema_version,
                revision,
                payload: write.payload,
            },
        );
        Ok(())
    }

    fn link_resources(&mut self, _link: ResourceLink) -> Result<(), UnitOfWorkError> {
        Ok(())
    }
}

struct MockUow {
    context: MockContext,
    snapshot: HashMap<ResourceRef, ResourceRecord>,
}

impl UnitOfWork for MockUow {
    type Context = MockContext;

    fn execute<R, F>(&mut self, operation: F) -> Result<R, UnitOfWorkError>
    where
        F: FnOnce(&mut Self::Context) -> Result<R, UnitOfWorkError>,
    {
        operation(&mut self.context)
    }

    fn commit(self) -> Result<(), PersistenceError> {
        Ok(())
    }

    fn rollback(self) -> Result<(), PersistenceError> {
        let mut state = self.context.state.0.borrow_mut();
        state.clear();
        state.extend(self.snapshot);
        Ok(())
    }
}

#[derive(Clone, Default)]
struct MockFactory {
    state: State,
}

impl UnitOfWorkFactory for MockFactory {
    type Uow = MockUow;

    fn begin(&mut self) -> Result<Self::Uow, PersistenceError> {
        Ok(MockUow {
            snapshot: self.state.0.borrow().clone(),
            context: MockContext {
                state: self.state.clone(),
            },
        })
    }
}

fn reference(t: ResourceType, id: &str) -> ResourceRef {
    ResourceRef::new(t, id.into()).unwrap()
}

fn field<'a>(v: &'a JsonValue, name: &str) -> &'a JsonValue {
    match v {
        JsonValue::Object(members) => &members.iter().find(|m| m.name == name).unwrap().value,
        _ => panic!("not an object"),
    }
}

fn string(v: &JsonValue) -> &str {
    match v {
        JsonValue::String(s) => s.as_str(),
        _ => panic!("not a string"),
    }
}

fn observation() -> Observation {
    Observation {
        observation_id: "obs-1".into(),
        schema_version: 1,
        subject_ref: reference(ResourceType::Case, "case-1"),
        observation_type: ObservationType::Condition,
        observation_origin: ObservationOrigin::DirectObservation,
        observed_at: "2026-09-12T09:00:00Z".into(),
        recorded_at: "2026-09-12T09:01:00Z".into(),
        assertion: JsonValue::Object(vec![member("condition", text("present"))]),
        epistemic_status: EpistemicStatus::Observed,
        source_refs: vec![reference(ResourceType::Evidence, "evidence-1")],
        evidence_refs: vec![reference(ResourceType::Evidence, "evidence-1")],
        provenance_ref: Some(reference(ResourceType::Provenance, "prov-input-1")),
        context_refs: Vec::new(),
        data_class: IntelligenceDataClass::Restricted,
    }
}

fn context() -> ObservationCommandContext {
    let actor_ref = reference(ResourceType::Party, "party-1");
    ObservationCommandContext {
        actor_ref: actor_ref.clone(),
        operation_id: "op-1".into(),
        correlation_id: "corr-1".into(),
        now_epoch_seconds: 100,
        authorization: AuthorizationResult {
            request_id: "request-1".into(),
            authorization_ref: reference(ResourceType::Other, "auth-1"),
            subject_ref: actor_ref,
            action: reference(ResourceType::Action, "observation.create"),
            resource_ref: reference(ResourceType::Observation, "obs-1"),
            purpose: "record observation".into(),
            jurisdiction_ref: None,
            data_class: Some("restricted".into()),
            decision: AuthorizationDecision::Allow,
            constraints: Vec::new(),
            policy_refs: vec![reference(ResourceType::Other, "policy-1")],
            evaluated_at_epoch_seconds: 90,
            expires_at_epoch_seconds: Some(120),
        },
    }
}

#[test]
fn create_writes_observation_event_audit_provenance_and_idempotency_atomically() {
    let mut factory = MockFactory::default();
    let state = factory.state.clone();
    let mut service = ObservationService::new(&mut factory);

    let result = service.create(context(), observation()).unwrap();

    let records = state.0.borrow();
    assert_eq!(result.revision, Revision::initial());
    assert!(records.contains_key(&reference(ResourceType::Observation, "obs-1")));
    assert!(records.contains_key(&reference(ResourceType::Event, &result.event_id)));
    assert!(records.contains_key(&reference(ResourceType::Audit, "audit-op-1")));
    assert!(records.contains_key(&reference(ResourceType::Provenance, "provenance-op-1")));
    assert!(records.contains_key(&reference(ResourceType::Idempotency, "op-1")));

    let event = records.get(&reference(ResourceType::Event, &result.event_id)).unwrap();
    assert_eq!(string(field(&event.payload, "event_type")), "observation.created");
    assert_eq!(
        string(field(field(field(&event.payload, "payload"), "authorization_ref"), "id")),
        "auth-1"
    );
}

#[test]
fn mismatched_authorization_resource_is_rejected_before_mutation() {
    let mut factory = MockFactory::default();
    let state = factory.state.clone();
    let mut context = context();
    context.authorization.resource_ref = reference(ResourceType::Observation, "other-observation");
    let mut service = ObservationService::new(&mut factory);

    assert_eq!(
        service.create(context, observation()),
        Err(ObservationServiceError::AuthorizationMismatch)
    );
    assert!(state.0.borrow().is_empty());
}

#[test]
fn denied_authorization_is_rejected_before_mutation() {
    let mut factory = MockFactory::default();
    let state = factory.state.clone();
    let mut context = context();
    context.authorization.decision = AuthorizationDecision::Deny;
    let mut service = ObservationService::new(&mut factory);

    assert_eq!(
        service.create(context, observation()),
        Err(ObservationServiceError::AuthorizationDenied)
    );
    assert!(state.0.borrow().is_empty());
}

#[test]
fn observation_service_expired_authorization_is_rejected_before_mutation() {
    let mut factory = MockFactory::default();
    let state = factory.state.clone();
    let mut context = context();
    context.now_epoch_seconds = 121;
    let mut service = ObservationService::new(&mut factory);

    assert_eq!(
        service.create(context, observation()),
        Err(ObservationServiceError::AuthorizationExpired)
    );
    assert!(state.0.borrow().is_empty());
}

#[test]
fn authorization_is_not_an_epistemic_upgrade() {
    let mut factory = MockFactory::default();
    let state = factory.state.clone();
    let mut value = observation();
    value.epistemic_status = EpistemicStatus::Inferred;
    let mut service = ObservationService::new(&mut factory);

    service.create(context(), value).unwrap();
    let record = state
        .0
        .borrow()
        .get(&reference(ResourceType::Observation, "obs-1"))
        .cloned()
        .unwrap();
    assert_eq!(string(field(&record.payload, "epistemic_status")), "INFERRED");
    assert_ne!(string(field(&record.payload, "epistemic_status")), "OBSERVED");
}
