use sidereth::party::{Party, PartyKind, PartyRelationship, PartyStatus};
use sidereth::party_repository::PartyUnitOfWorkRepository;
use sidereth::persistence::{PersistenceError, ResourceLink, ResourceRecord, ResourceWrite, ResourceWriteMode, Revision, UnitOfWorkContext, UnitOfWorkError};
use sidereth::{Id, ResourceRef, ResourceType};
#[derive(Default)]
struct FakeContext {
    records: std::collections::HashMap<(ResourceType, Id), ResourceRecord>,
}

impl UnitOfWorkContext for FakeContext {
    fn read_resource(
        &mut self,
        resource_ref: &ResourceRef,
    ) -> Result<Option<ResourceRecord>, UnitOfWorkError> {
        Ok(self
            .records
            .get(&(resource_ref.resource_type, resource_ref.id.clone()))
            .cloned())
    }

    fn write_resource(&mut self, write: ResourceWrite) -> Result<(), UnitOfWorkError> {
        let key = (write.resource_ref.resource_type, write.resource_ref.id.clone());
        if write.mode == ResourceWriteMode::Insert && self.records.contains_key(&key) {
            return Err(UnitOfWorkError::Persistence(PersistenceError::Duplicate));
        }
        self.records.insert(
            key,
            ResourceRecord {
                resource_ref: write.resource_ref,
                schema_version: write.schema_version,
                revision: Revision::initial(),
                payload: write.payload,
            },
        );
        Ok(())
    }

    fn link_resources(
        &mut self,
        _link: ResourceLink,
    ) -> Result<(), UnitOfWorkError> {
        Ok(())
    }
}

fn party(id: &str) -> Party {
    Party {
        party_id: id.into(),
        schema_version: 1,
        party_kind: PartyKind::Person,
        status: PartyStatus::Active,
        display_name: "Test Person".into(),
        identity_refs: vec![],
        jurisdiction_refs: vec!["j-1".into()],
        organization_ref: None,
        provenance_ref: None,
        privacy_classification: "private".into(),
        created_at: "2026-09-07T00:00:00Z".into(),
        updated_at: "2026-09-07T00:00:00Z".into(),
    }
}

fn relationship() -> PartyRelationship {
    PartyRelationship {
        relationship_id: "rel-1".into(),
        schema_version: 1,
        from_party_id: "p-1".into(),
        to_party_id: "p-2".into(),
        relationship_type: "representation".into(),
        context_ref: Some("case-1".into()),
        role: "legal_representative".into(),
        valid_from: "2026-09-07T00:00:00Z".into(),
        valid_to: None,
        provenance_ref: None,
        authorization_ref: None,
        created_at: "2026-09-07T00:00:00Z".into(),
    }
}

#[test]
fn party_round_trip_uses_canonical_uow_boundary() {
    let mut context = FakeContext::default();
    let mut repository = PartyUnitOfWorkRepository::new(&mut context);
    let value = party("p-1");
    repository.create_party(value.clone()).unwrap();
    assert_eq!(repository.get_party(&"p-1".into()).unwrap(), Some(value));
}

#[test]
fn relationship_round_trip_uses_distinct_resource_type() {
    let mut context = FakeContext::default();
    let mut repository = PartyUnitOfWorkRepository::new(&mut context);
    let value = relationship();
    repository.create_relationship(value.clone()).unwrap();
    assert_eq!(
        repository.get_relationship(&"rel-1".into()).unwrap(),
        Some(value)
    );
}

#[test]
fn duplicate_party_is_propagated_from_provider() {
    let mut context = FakeContext::default();
    let mut repository = PartyUnitOfWorkRepository::new(&mut context);
    let value = party("p-1");
    repository.create_party(value.clone()).unwrap();
    assert_eq!(
        repository.create_party(value),
        Err(PersistenceError::Duplicate)
    );
}

#[test]
fn invalid_party_is_rejected_before_write() {
    let mut context = FakeContext::default();
    let mut repository = PartyUnitOfWorkRepository::new(&mut context);
    let mut value = party("p-1");
    value.display_name.clear();
    assert_eq!(
        repository.create_party(value),
        Err(PersistenceError::ValidationFailure)
    );
    assert!(context.records.is_empty());
}

#[test]
fn party_with_references_round_trips() {
    let mut context = FakeContext::default();
    let mut repository = PartyUnitOfWorkRepository::new(&mut context);
    let mut value = party("p-2");
    value.party_kind = PartyKind::GovernmentEntity;
    value.status = PartyStatus::Superseded;
    value.identity_refs = vec!["id-1".into(), "id-2".into()];
    value.organization_ref = Some("org-1".into());
    value.provenance_ref = Some("prov-1".into());
    repository.create_party(value.clone()).unwrap();
    assert_eq!(repository.get_party(&"p-2".into()).unwrap(), Some(value));
    assert_eq!(repository.get_party(&"p-3".into()).unwrap(), None);
}

#[test]
fn schema_version_without_low_bits_is_refused() {
    let mut context = FakeContext::default();
    let mut repository = PartyUnitOfWorkRepository::new(&mut context);
    let mut value = party("p-1");
    value.schema_version = 65536;
    assert_eq!(repository.create_party(value), Err(PersistenceError::ValidationFailure));
}

#[test]
fn empty_party_id_is_an_integrity_failure() {
    let mut context = FakeContext::default();
    let mut repository = PartyUnitOfWorkRepository::new(&mut context);
    assert_eq!(repository.get_party(&"".into()), Err(PersistenceError::IntegrityFailure));
    assert_eq!(repository.get_relationship(&"".into()), Err(PersistenceError::IntegrityFailure));
}

#[test]
fn malformed_payload_is_a_serialization_failure() {
    let mut context = FakeContext::default();
    context.records.insert(
        (ResourceType::Party, "p-1".into()),
        ResourceRecord {
            resource_ref: ResourceRef::new(ResourceType::Party, "p-1".into()).unwrap(),
            schema_version: 1,
            revision: Revision::initial(),
            payload: sidereth::json::JsonValue::String("not a party".into()),
        },
    );
    let mut repository = PartyUnitOfWorkRepository::new(&mut context);
    assert_eq!(repository.get_party(&"p-1".into()), Err(PersistenceError::SerializationFailure));
}

#[test]
fn self_referencing_relationship_is_refused() {
    let mut context = FakeContext::default();
    let mut repository = PartyUnitOfWorkRepository::new(&mut context);
    let mut value = relationship();
    value.to_party_id = value.from_party_id.clone();
    assert_eq!(
        repository.create_relationship(value),
        Err(PersistenceError::ValidationFailure)
    );
}
