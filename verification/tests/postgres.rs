use sidereth::persistence::{
    PersistenceError, ResourceLinkClass, ResourceWriteMode, Revision, UnitOfWorkError,
};
use sidereth::postgres::{
    compare_and_set_outcome, link_class_name, map_sqlstate, resource_type_of_name,
    stored_resource_ref, stored_versions, strong_link_check, write_statement,
    PostgresUnitOfWorkFactory, WriteStatement,
};
use sidereth::{ResourceRef, ResourceType};

#[test]
fn factory_preserves_connection_configuration() {
    let factory = PostgresUnitOfWorkFactory::new("host=localhost user=sidereth");
    assert_eq!(factory.connection_string(), "host=localhost user=sidereth");
}

#[test]
fn sqlstate_codes_map_to_persistence_errors() {
    assert_eq!(map_sqlstate(Some("23505")), PersistenceError::Duplicate);
    assert_eq!(map_sqlstate(Some("23503")), PersistenceError::IntegrityFailure);
    assert_eq!(map_sqlstate(Some("23514")), PersistenceError::IntegrityFailure);
    assert_eq!(map_sqlstate(Some("40001")), PersistenceError::Conflict);
    assert_eq!(map_sqlstate(Some("40P01")), PersistenceError::Conflict);
    assert_eq!(map_sqlstate(Some("57014")), PersistenceError::Timeout);
    assert_eq!(map_sqlstate(Some("08006")), PersistenceError::Unavailable);
    assert_eq!(map_sqlstate(None), PersistenceError::Unavailable);
}

#[test]
fn stored_names_read_back_as_types() {
    assert_eq!(resource_type_of_name("party_relationship"), Some(ResourceType::PartyRelationship));
    assert_eq!(resource_type_of_name("evidence"), Some(ResourceType::Evidence));
    assert_eq!(resource_type_of_name("Case"), None);
    assert_eq!(
        stored_resource_ref("case", "case-1".into()),
        Ok(ResourceRef::new(ResourceType::Case, "case-1".into()).unwrap())
    );
    assert_eq!(
        stored_resource_ref("unknown", "x".into()),
        Err(UnitOfWorkError::Persistence(PersistenceError::IntegrityFailure))
    );
    assert_eq!(
        stored_resource_ref("case", String::new()),
        Err(UnitOfWorkError::Persistence(PersistenceError::IntegrityFailure))
    );
}

#[test]
fn stored_versions_are_checked() {
    assert_eq!(stored_versions(1, 0), Ok((1, Revision { value: 0 })));
    assert_eq!(stored_versions(65535, 9), Ok((65535, Revision { value: 9 })));
    assert_eq!(
        stored_versions(0, 0),
        Err(UnitOfWorkError::Persistence(PersistenceError::IntegrityFailure))
    );
    assert_eq!(
        stored_versions(65536, 0),
        Err(UnitOfWorkError::Persistence(PersistenceError::IntegrityFailure))
    );
    assert_eq!(
        stored_versions(1, -1),
        Err(UnitOfWorkError::Persistence(PersistenceError::IntegrityFailure))
    );
}

#[test]
fn writes_become_the_right_statements() {
    assert_eq!(write_statement(ResourceWriteMode::Insert, None), Ok(WriteStatement::Insert));
    assert_eq!(
        write_statement(ResourceWriteMode::Insert, Some(Revision { value: 1 })),
        Err(UnitOfWorkError::InvalidOperation)
    );
    assert_eq!(
        write_statement(ResourceWriteMode::Upsert, Some(Revision { value: 4 })),
        Ok(WriteStatement::CompareAndSet { expected: 4, next: 5 })
    );
    assert_eq!(
        write_statement(ResourceWriteMode::Upsert, Some(Revision { value: i64::MAX as u64 })),
        Err(UnitOfWorkError::Persistence(PersistenceError::Conflict))
    );
    assert_eq!(write_statement(ResourceWriteMode::Upsert, None), Ok(WriteStatement::Upsert));
    assert_eq!(
        compare_and_set_outcome(0),
        Err(UnitOfWorkError::Persistence(PersistenceError::Conflict))
    );
    assert_eq!(compare_and_set_outcome(1), Ok(()));
}

#[test]
fn link_classes_and_strong_links() {
    assert_eq!(link_class_name(Some(ResourceLinkClass::Strong)), Some("strong"));
    assert_eq!(link_class_name(Some(ResourceLinkClass::Legacy)), None);
    assert_eq!(link_class_name(None), None);
    assert_eq!(
        strong_link_check(Some(ResourceLinkClass::Strong), true, false),
        Err(UnitOfWorkError::Persistence(PersistenceError::IntegrityFailure))
    );
    assert_eq!(strong_link_check(Some(ResourceLinkClass::Forward), false, false), Ok(()));
}
