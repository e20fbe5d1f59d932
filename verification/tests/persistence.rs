use sidereth::json::JsonValue;
use sidereth::persistence::{
    Persisted, PersistenceError, ResourceLink, ResourceLinkClass, ResourceWrite, ResourceWriteMode,
    Revision, UnitOfWorkError,
};
use sidereth::{Case, ResourceRef, ResourceType};

#[test]
fn revision_is_deterministic() {
    assert_eq!(Revision::initial().next().unwrap().value, 1);
}

#[test]
fn mod_zero_schema_version_is_rejected() {
    let case = Case::new("case-1".into()).unwrap();
    assert_eq!(
        Persisted::new(0, case),
        Err(PersistenceError::ValidationFailure)
    );
}

#[test]
fn revision_overflow_is_a_conflict() {
    let revision = Revision { value: u64::MAX };
    assert_eq!(revision.next(), Err(PersistenceError::Conflict));
}

#[test]
fn resource_write_requires_schema_version() {
    let resource = ResourceRef::new(ResourceType::Case, "case-1".into()).unwrap();
    assert_eq!(
        ResourceWrite::new(resource, 0, JsonValue::Null, ResourceWriteMode::Insert),
        Err(UnitOfWorkError::InvalidOperation)
    );
}

#[test]
fn resource_link_requires_relation() {
    let source = ResourceRef::new(ResourceType::Case, "case-1".into()).unwrap();
    let target = ResourceRef::new(ResourceType::Document, "doc-1".into()).unwrap();
    assert_eq!(
        ResourceLink::new(source, "   ", target),
        Err(UnitOfWorkError::InvalidOperation)
    );
}

#[test]
fn resource_write_can_carry_expected_revision() {
    let resource = ResourceRef::new(ResourceType::Case, "case-1".into()).unwrap();
    let write = ResourceWrite::new(resource, 1, JsonValue::Null, ResourceWriteMode::Upsert)
        .unwrap()
        .with_expected_revision(Revision { value: 7 });
    assert_eq!(write.expected_revision, Some(Revision { value: 7 }));
}

#[test]
fn resource_link_classes_are_explicit_and_legacy_is_not_strong() {
    let source = ResourceRef::new(ResourceType::Case, "case-1".into()).unwrap();
    let target = ResourceRef::new(ResourceType::Event, "event-1".into()).unwrap();
    let strong = ResourceLink::new_with_class(
        source.clone(),
        "has_event",
        target.clone(),
        ResourceLinkClass::Strong,
    )
    .unwrap();
    assert_eq!(strong.semantic_class(), Some(ResourceLinkClass::Strong));
    let legacy = ResourceLink::new(source, "has_event", target).unwrap();
    assert_eq!(legacy.semantic_class(), None);
}

#[test]
fn typed_link_constructors_carry_their_class() {
    let source = ResourceRef::new(ResourceType::Case, "case-1".into()).unwrap();
    let target = ResourceRef::new(ResourceType::Event, "event-1".into()).unwrap();
    let forward = ResourceLink::forward(source.clone(), "rel", target.clone()).unwrap();
    assert_eq!(forward.semantic_class(), Some(ResourceLinkClass::Forward));
    let external = ResourceLink::external(source.clone(), "rel", target.clone()).unwrap();
    assert_eq!(external.semantic_class(), Some(ResourceLinkClass::External));
    let strong = ResourceLink::strong(source, "rel", target).unwrap();
    assert_eq!(strong.semantic_class(), Some(ResourceLinkClass::Strong));
    assert_eq!(strong.relation, "rel");
}

#[test]
fn persisted_value_starts_at_the_initial_revision() {
    let case = Case::new("case-1".into()).unwrap();
    let persisted = Persisted::new(3, case.clone()).unwrap();
    assert_eq!(persisted.schema_version, 3);
    assert_eq!(persisted.revision, Revision::initial());
    assert_eq!(persisted.value, case);
}
