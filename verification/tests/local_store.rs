use sidereth::local_store::{check_creation, next_revision, record_file_name, validate_id, SCHEMA_VERSION};
use sidereth::persistence::Revision;

#[test]
fn ids_that_escape_the_directory_are_invalid() {
    assert_eq!(validate_id(""), Err("id is required"));
    assert_eq!(validate_id("."), Err("invalid id"));
    assert_eq!(validate_id(".."), Err("invalid id"));
    assert_eq!(validate_id("a/b"), Err("invalid id"));
    assert_eq!(validate_id("a\\b"), Err("invalid id"));
    assert_eq!(validate_id("case-1"), Ok(()));
    assert_eq!(validate_id("..."), Ok(()));
}

#[test]
fn record_files_are_named_by_id() {
    assert_eq!(record_file_name("case-1"), "case-1.json");
}

#[test]
fn creation_needs_a_valid_id_and_schema_version() {
    assert_eq!(check_creation("case-1", SCHEMA_VERSION), Ok(()));
    assert_eq!(check_creation("case-1", 0), Err("schema version is required"));
    assert_eq!(check_creation("", 0), Err("id is required"));
}

#[test]
fn replacement_checks_the_revision() {
    let initial = Revision::initial();
    assert_eq!(next_revision(1, initial, initial), Ok(Revision { value: 1 }));
    assert_eq!(
        next_revision(1, Revision { value: 1 }, initial),
        Err("revision conflict")
    );
    assert_eq!(next_revision(0, initial, initial), Err("schema version is required"));
    let last = Revision { value: u64::MAX };
    assert_eq!(next_revision(1, last, last), Err("revision conflict"));
}
