use sidereth::evidence::{EvidenceCapture, EvidenceOriginal};
use sidereth::evidence_store::{EvidenceObjectStore, EvidenceRepository, InMemoryEvidenceVault};
fn original() -> EvidenceOriginal {
    EvidenceOriginal::from_capture(EvidenceCapture {
        evidence_id: "evidence-1".into(),
        schema_version: 1,
        case_id: Some("case-1".into()),
        incident_id: None,
        captured_at: "2026-09-03T10:00:00Z".into(),
        captured_by: "user-1".into(),
        media_type: "text/plain".into(),
        storage_ref: "object-1".into(),
        content: b"original evidence",
    })
    .unwrap()
}

#[test]
fn object_store_round_trip() {
    let mut vault = InMemoryEvidenceVault::default();
    EvidenceObjectStore::put(&mut vault, "object-1".into(), b"evidence".to_vec())
        .unwrap();
    let content = EvidenceObjectStore::get(&vault, &"object-1".into())
        .unwrap()
        .unwrap();
    assert_eq!(content, b"evidence");
}

#[test]
fn object_store_rejects_duplicate_reference() {
    let mut vault = InMemoryEvidenceVault::default();
    EvidenceObjectStore::put(&mut vault, "object-1".into(), b"one".to_vec())
        .unwrap();
    assert_eq!(
        EvidenceObjectStore::put(&mut vault, "object-1".into(), b"two".to_vec()),
        Err("storage object already exists")
    );
}

#[test]
fn original_can_be_saved_and_loaded() {
    let mut vault = InMemoryEvidenceVault::default();
    EvidenceRepository::save_original(&mut vault, original()).unwrap();
    let saved = EvidenceRepository::get_original(&vault, &"evidence-1".into())
        .unwrap()
        .unwrap();
    assert_eq!(saved.evidence_id, "evidence-1");
}

#[test]
fn original_cannot_be_replaced() {
    let mut vault = InMemoryEvidenceVault::default();
    EvidenceRepository::save_original(&mut vault, original()).unwrap();
    assert_eq!(
        EvidenceRepository::save_original(&mut vault, original()),
        Err("evidence original already exists")
    );
}
