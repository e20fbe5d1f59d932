use sidereth::command::{apply_plan, execute_authoritative_command, AtomicCommandPlan};
use sidereth::json::{member, text, JsonValue};
use sidereth::persistence::{
    PersistenceError, ResourceLink, ResourceRecord, ResourceWrite, UnitOfWork, UnitOfWorkContext, UnitOfWorkError,
    UnitOfWorkFactory,
};
use sidereth::{ResourceRef, ResourceType};

fn object(name: &str, value: &str) -> JsonValue {
    JsonValue::Object(vec![member(name, text(value))])
}

#[derive(Default)]
struct MockContext {
    writes: Vec<ResourceWrite>,
    links: Vec<ResourceLink>,
}

impl UnitOfWorkContext for MockContext {
    fn read_resource(&mut self, _resource_ref: &ResourceRef) -> Result<Option<ResourceRecord>, UnitOfWorkError> {
        Ok(None)
    }

    fn write_resource(&mut self, write: ResourceWrite) -> Result<(), UnitOfWorkError> {
        self.writes.push(write);
        Ok(())
    }

    fn link_resources(&mut self, link: ResourceLink) -> Result<(), UnitOfWorkError> {
        self.links.push(link);
        Ok(())
    }
}

struct MockUow {
    context: MockContext,
}

impl UnitOfWork for MockUow {
    type Context = MockContext;

    fn execute<R, F>(&mut self, operation: F) -> Result<R, UnitOfWorkError>
    where
        F: FnOnce(&mut Self::Context) -> Result<R, UnitOfWorkError>,
    {
        operation(&mut self.context)
    }

    fn commit(self) -> Result<(), PersistenceError> {
        Ok(())
    }

    fn rollback(self) -> Result<(), PersistenceError> {
        Ok(())
    }
}

#[derive(Default)]
struct MockFactory;

impl UnitOfWorkFactory for MockFactory {
    type Uow = MockUow;

    fn begin(&mut self) -> Result<Self::Uow, PersistenceError> {
        Ok(MockUow {
            context: MockContext::default(),
        })
    }
}

#[test]
fn plan_contains_idempotency_and_domain_side_effects() {
    let mut plan = AtomicCommandPlan::new("op-1".into()).unwrap();
    plan.claim_operation().unwrap();
    plan.insert_resource(
        ResourceRef::new(ResourceType::Case, "case-1".into()).unwrap(),
        1,
        object("state", "active"),
    )
    .unwrap();
    plan.insert_resource(
        ResourceRef::new(ResourceType::Event, "event-1".into()).unwrap(),
        1,
        object("event_type", "case.created"),
    )
    .unwrap();
    plan.insert_resource(
        ResourceRef::new(ResourceType::Audit, "audit-1".into()).unwrap(),
        1,
        object("action", "case.created"),
    )
    .unwrap();
    plan.insert_resource(
        ResourceRef::new(ResourceType::Provenance, "prov-1".into()).unwrap(),
        1,
        object("operation", "case.create"),
    )
    .unwrap();

    assert_eq!(plan.resource_writes.len(), 5);
    assert_eq!(
        plan.resource_writes[0].resource_ref.resource_type,
        ResourceType::Idempotency
    );
}

#[test]
fn apply_plan_writes_every_side_effect_through_one_context() {
    let mut plan = AtomicCommandPlan::new("op-2".into()).unwrap();
    plan.claim_operation().unwrap();
    plan.insert_resource(
        ResourceRef::new(ResourceType::Case, "case-2".into()).unwrap(),
        1,
        object("state", "draft"),
    )
    .unwrap();
    plan.link(
        ResourceLink::new(
            ResourceRef::new(ResourceType::Case, "case-2".into()).unwrap(),
            "has_event",
            ResourceRef::new(ResourceType::Event, "event-2".into()).unwrap(),
        )
        .unwrap(),
    );

    let mut context = MockContext::default();
    apply_plan(&mut context, &plan).unwrap();
    assert_eq!(context.writes.len(), 2);
    assert_eq!(context.links.len(), 1);
}

#[test]
fn executor_applies_plan_before_successful_commit() {
    let mut plan = AtomicCommandPlan::new("op-3".into()).unwrap();
    plan.claim_operation().unwrap();
    plan.insert_resource(
        ResourceRef::new(ResourceType::Case, "case-3".into()).unwrap(),
        1,
        object("state", "draft"),
    )
    .unwrap();

    let mut factory = MockFactory;
    let result = execute_authoritative_command(&mut factory, plan, |context: &mut MockContext, _: &AtomicCommandPlan| {
        assert_eq!(context.writes.len(), 2);
        Ok("committed")
    })
    .unwrap();
    assert_eq!(result, "committed");
}
