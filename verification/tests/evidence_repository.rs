use sidereth::evidence::EvidenceCapture;
use sidereth::evidence_repository::{check_record, check_transformation, storage_error, EvidencePersistenceError};
use sidereth::evidence_trust::EvidenceTransformation;
use sidereth::persistence::{PersistenceError, UnitOfWorkError};
use sidereth::EvidenceOriginal;

fn original() -> EvidenceOriginal {
    EvidenceOriginal::from_capture(EvidenceCapture {
        evidence_id: "evidence-1".into(),
        schema_version: 1,
        case_id: Some("case-1".into()),
        incident_id: None,
        captured_at: "2026-09-07T10:00:00Z".into(),
        captured_by: "user-1".into(),
        media_type: "image/jpeg".into(),
        storage_ref: "object-1".into(),
        content: b"original",
    })
    .unwrap()
}

fn transformation(id: &str, source: &str) -> EvidenceTransformation {
    EvidenceTransformation {
        transformation_id: id.into(),
        source_evidence_id: source.into(),
        transformation_type: "ocr".into(),
        created_at: "2026-09-07T10:01:00Z".into(),
        created_by: "system".into(),
        tool_id: Some("ocr-engine".into()),
        tool_version: Some("1.0".into()),
        input_hash: Some("input".into()),
        output_hash: Some("output".into()),
    }
}

#[test]
fn transformation_of_other_evidence_is_an_integrity_failure() {
    assert_eq!(
        check_transformation(&"evidence-1".into(), &vec![], &transformation("transform-1", "evidence-2")),
        Err(EvidencePersistenceError::IntegrityFailure)
    );
}

#[test]
fn repeated_transformation_id_is_a_duplicate() {
    let existing = vec![transformation("transform-1", "evidence-1")];
    assert_eq!(
        check_transformation(&"evidence-1".into(), &existing, &transformation("transform-1", "evidence-1")),
        Err(EvidencePersistenceError::Duplicate)
    );
    assert_eq!(
        check_transformation(&"evidence-1".into(), &existing, &transformation("transform-2", "evidence-1")),
        Ok(())
    );
}

#[test]
fn invalid_transformation_is_a_validation_failure() {
    let mut t = transformation("transform-1", "evidence-1");
    t.created_by.clear();
    assert_eq!(
        check_transformation(&"evidence-1".into(), &vec![], &t),
        Err(EvidencePersistenceError::ValidationFailure)
    );
}

#[test]
fn zero_schema_version_record_is_refused() {
    assert_eq!(check_record(0, &original()), Err(EvidencePersistenceError::ValidationFailure));
    assert_eq!(check_record(1, &original()), Ok(()));
}

#[test]
fn evidence_errors_convert_to_persistence_errors() {
    assert_eq!(PersistenceError::from(EvidencePersistenceError::Duplicate), PersistenceError::Duplicate);
    assert_eq!(PersistenceError::from(EvidencePersistenceError::NotFound), PersistenceError::NotFound);
    assert_eq!(storage_error(UnitOfWorkError::InvalidOperation), PersistenceError::ValidationFailure);
    assert_eq!(
        storage_error(UnitOfWorkError::Persistence(PersistenceError::Timeout)),
        PersistenceError::Timeout
    );
}
