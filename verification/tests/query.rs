use sidereth::authorization::{AuthorizationConstraint, AuthorizationDecision, AuthorizationRequest, AuthorizationResult};
use sidereth::json::JsonValue;
use sidereth::persistence::{PersistenceError, ResourceLink, ResourceRecord, ResourceWrite, Revision, UnitOfWork, UnitOfWorkContext, UnitOfWorkError, UnitOfWorkFactory};
use sidereth::query::{QueryError, ResourceQuery, ResourceQueryRequest, UnitOfWorkResourceQuery};
use sidereth::{ResourceRef, ResourceType};

#[derive(Default)]
struct FakeContext {
    record: Option<ResourceRecord>,
}

impl UnitOfWorkContext for FakeContext {
    fn read_resource(
        &mut self,
        resource_ref: &ResourceRef,
    ) -> Result<Option<ResourceRecord>, UnitOfWorkError> {
        Ok(self
            .record
            .clone()
            .filter(|record| &record.resource_ref == resource_ref))
    }

    fn write_resource(&mut self, _write: ResourceWrite) -> Result<(), UnitOfWorkError> {
        Ok(())
    }

    fn link_resources(&mut self, _link: ResourceLink) -> Result<(), UnitOfWorkError> {
        Ok(())
    }
}

struct FakeUow {
    context: FakeContext,
    committed: bool,
}

impl UnitOfWork for FakeUow {
    type Context = FakeContext;

    fn execute<R, F>(&mut self, operation: F) -> Result<R, UnitOfWorkError>
    where
        F: FnOnce(&mut Self::Context) -> Result<R, UnitOfWorkError>,
    {
        operation(&mut self.context)
    }

    fn commit(mut self) -> Result<(), PersistenceError> {
        self.committed = true;
        Ok(())
    }

    fn rollback(self) -> Result<(), PersistenceError> {
        Ok(())
    }
}

#[derive(Default)]
struct FakeFactory {
    context: FakeContext,
}

impl UnitOfWorkFactory for FakeFactory {
    type Uow = FakeUow;

    fn begin(&mut self) -> Result<Self::Uow, PersistenceError> {
        Ok(FakeUow {
            context: std::mem::take(&mut self.context),
            committed: false,
        })
    }
}

fn authorization_context(
    resource_ref: &ResourceRef,
) -> (AuthorizationRequest, AuthorizationResult) {
    let request = AuthorizationRequest {
        request_id: "request-1".into(),
        authorization_ref: ResourceRef::new(ResourceType::Other, "auth-1".into()).unwrap(),
        subject_ref: ResourceRef::new(ResourceType::Party, "party-1".into()).unwrap(),
        action: ResourceRef::new(ResourceType::Action, "resource.read".into()).unwrap(),
        resource_ref: resource_ref.clone(),
        purpose: "direct resource retrieval".into(),
        policy_refs: vec![ResourceRef::new(ResourceType::Other, "policy-1".into()).unwrap()],
        jurisdiction_ref: None,
        data_class: Some("public".into()),
        requested_at_epoch_seconds: 1_000,
        freshness_seconds: Some(1_000),
    };
    let result = AuthorizationResult {
        request_id: request.request_id.clone(),
        authorization_ref: request.authorization_ref.clone(),
        subject_ref: request.subject_ref.clone(),
        action: request.action.clone(),
        resource_ref: request.resource_ref.clone(),
        purpose: request.purpose.clone(),
        jurisdiction_ref: request.jurisdiction_ref.clone(),
        data_class: request.data_class.clone(),
        decision: AuthorizationDecision::Allow,
        constraints: vec![AuthorizationConstraint {
            key: "scope".into(),
            value: "exact_resource".into(),
        }],
        policy_refs: request.policy_refs.clone(),
        evaluated_at_epoch_seconds: 1_000,
        expires_at_epoch_seconds: Some(2_000),
    };
    (request, result)
}

fn request(resource_ref: ResourceRef) -> ResourceQueryRequest {
    let (authorization_request, authorization) = authorization_context(&resource_ref);
    ResourceQueryRequest::new(
        resource_ref,
        authorization_request,
        authorization,
        Some("public".into()),
        1_500,
    )
}

#[test]
fn exact_resource_is_read_through_existing_uow_boundary() {
    let resource_ref = ResourceRef::new(ResourceType::Case, "case-1".into()).unwrap();
    let factory = FakeFactory {
        context: FakeContext {
            record: Some(ResourceRecord {
                resource_ref: resource_ref.clone(),
                schema_version: 1,
                revision: Revision { value: 3 },
                payload: JsonValue::String("canonical".into()),
            }),
        },
    };
    let mut query = UnitOfWorkResourceQuery::new(factory);
    let record = query.get(request(resource_ref)).unwrap();
    assert_eq!(record.revision, Revision { value: 3 });
    assert_eq!(record.payload, JsonValue::String("canonical".into()));
}

#[test]
fn denied_authorization_is_rejected_before_persistence_read() {
    let resource_ref = ResourceRef::new(ResourceType::Case, "case-1".into()).unwrap();
    let mut request = request(resource_ref);
    request.authorization.decision = AuthorizationDecision::Deny;
    let factory = FakeFactory::default();
    let mut query = UnitOfWorkResourceQuery::new(factory);
    assert_eq!(query.get(request), Err(QueryError::AuthorizationDenied));
}

#[test]
fn authorization_must_bind_to_exact_resource() {
    let resource_ref = ResourceRef::new(ResourceType::Case, "case-1".into()).unwrap();
    let other_ref = ResourceRef::new(ResourceType::Case, "case-2".into()).unwrap();
    let mut request = request(resource_ref);
    request.authorization_request.resource_ref = other_ref;
    let factory = FakeFactory::default();
    let mut query = UnitOfWorkResourceQuery::new(factory);
    assert_eq!(query.get(request), Err(QueryError::AuthorizationMismatch));
}

#[test]
fn authorization_result_must_match_exact_request_context() {
    let resource_ref = ResourceRef::new(ResourceType::Case, "case-1".into()).unwrap();
    let mut request = request(resource_ref);
    request.authorization.purpose = "different purpose".into();
    let factory = FakeFactory::default();
    let mut query = UnitOfWorkResourceQuery::new(factory);
    assert_eq!(query.get(request), Err(QueryError::AuthorizationMismatch));
}

#[test]
fn expired_authorization_is_rejected_before_persistence_read() {
    let resource_ref = ResourceRef::new(ResourceType::Case, "case-1".into()).unwrap();
    let mut request = request(resource_ref);
    request.authorization.expires_at_epoch_seconds = Some(1_500);
    let factory = FakeFactory::default();
    let mut query = UnitOfWorkResourceQuery::new(factory);
    assert_eq!(query.get(request), Err(QueryError::AuthorizationExpired));
}

#[test]
fn stale_request_is_rejected_before_persistence_read() {
    let resource_ref = ResourceRef::new(ResourceType::Case, "case-1".into()).unwrap();
    let mut request = request(resource_ref);
    request.authorization_request.requested_at_epoch_seconds = 1_000;
    request.authorization_request.freshness_seconds = Some(100);
    let factory = FakeFactory::default();
    let mut query = UnitOfWorkResourceQuery::new(factory);
    assert_eq!(query.get(request), Err(QueryError::AuthorizationExpired));
}

#[test]
fn data_classification_must_match_authorization_request() {
    let resource_ref = ResourceRef::new(ResourceType::Case, "case-1".into()).unwrap();
    let mut request = request(resource_ref);
    request.requested_data_class = Some("restricted".into());
    let factory = FakeFactory::default();
    let mut query = UnitOfWorkResourceQuery::new(factory);
    assert_eq!(query.get(request), Err(QueryError::AuthorizationMismatch));
}

#[test]
fn missing_resource_is_distinguished_from_denial() {
    let resource_ref = ResourceRef::new(ResourceType::Case, "missing".into()).unwrap();
    let factory = FakeFactory::default();
    let mut query = UnitOfWorkResourceQuery::new(factory);
    assert_eq!(query.get(request(resource_ref)), Err(QueryError::NotFound));
}

#[test]
fn blank_data_class_is_an_invalid_request() {
    let resource_ref = ResourceRef::new(ResourceType::Case, "case-1".into()).unwrap();
    let mut request = request(resource_ref);
    request.requested_data_class = Some("  ".into());
    request.authorization_request.data_class = Some("  ".into());
    request.authorization.data_class = Some("  ".into());
    let mut query = UnitOfWorkResourceQuery::new(FakeFactory::default());
    assert_eq!(query.get(request), Err(QueryError::InvalidRequest));
}

#[test]
fn unknown_constraint_is_an_invalid_authorization() {
    let resource_ref = ResourceRef::new(ResourceType::Case, "case-1".into()).unwrap();
    let mut request = request(resource_ref);
    request.authorization.constraints.push(AuthorizationConstraint {
        key: "retention".into(),
        value: "forever".into(),
    });
    let mut query = UnitOfWorkResourceQuery::new(FakeFactory::default());
    assert_eq!(query.get(request), Err(QueryError::AuthorizationInvalid));
}

#[test]
fn storage_errors_are_reported_as_persistence_errors() {
    assert_eq!(
        sidereth::query::settle_read(Err(UnitOfWorkError::Persistence(PersistenceError::Timeout))),
        Err(QueryError::Persistence(PersistenceError::Timeout))
    );
    assert_eq!(
        sidereth::query::settle_read(Err(UnitOfWorkError::InvalidOperation)),
        Err(QueryError::InvalidRequest)
    );
    assert_eq!(sidereth::query::settle_read(Ok(None)), Err(QueryError::NotFound));
}
