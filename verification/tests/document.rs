use sidereth::document::{DerivedArtifact, Document, DocumentRegistry, DocumentStatus, DocumentVersion, IntegrityStatus};
fn document() -> Document {
    Document {
        document_id: "doc-1".into(),
        schema_version: 1,
        document_type: "notice".into(),
        status: DocumentStatus::Active,
        title: "Notice".into(),
        issuer_party_id: Some("p-1".into()),
        recipient_party_refs: vec!["p-2".into()],
        case_refs: vec!["case-1".into()],
        incident_refs: vec![],
        jurisdiction_refs: vec!["j-1".into()],
        authority_ref: Some("a-1".into()),
        current_version_id: "dv-1".into(),
        provenance_ref: None,
        privacy_classification: "sensitive".into(),
        retention_policy_ref: None,
        created_at: "2026-09-04T00:00:00Z".into(),
        updated_at: "2026-09-04T00:00:00Z".into(),
    }
}

fn version(n: u32, id: &str, supersedes: Option<&str>) -> DocumentVersion {
    DocumentVersion {
        document_version_id: id.into(),
        document_id: "doc-1".into(),
        schema_version: 1,
        version_number: n,
        media_type: "application/pdf".into(),
        content_ref: format!("blob-{id}"),
        content_hash: "sha256:abc".into(),
        byte_length: Some(10),
        captured_at: None,
        created_by: "p-2".into(),
        source_ref: None,
        provenance_ref: None,
        integrity_status: IntegrityStatus::Unverified,
        supersedes_version_id: supersedes.map(str::to_string),
        language: Some("en".into()),
        created_at: "2026-09-04T00:00:00Z".into(),
    }
}

#[test]
fn valid_document_passes() {
    assert!(document().validate().is_ok());
}

#[test]
fn missing_document_id_rejected() {
    let mut d = document();
    d.document_id.clear();
    assert_eq!(d.validate(), Err("document id is required"));
}

#[test]
fn atomic_initial_registration_requires_matching_pointer() {
    let mut r = DocumentRegistry::default();
    let mut d = document();
    d.current_version_id = "wrong".into();
    assert_eq!(
        r.insert_document_with_initial_version(d, version(1, "dv-1", None)),
        Err("document current version must match initial version")
    );
    assert!(r.get_document(&"doc-1".into()).is_none());
    assert!(r.get_version(&"dv-1".into()).is_none());
}

#[test]
fn atomic_initial_registration_creates_valid_registry() {
    let mut r = DocumentRegistry::default();
    r.insert_document_with_initial_version(document(), version(1, "dv-1", None))
        .unwrap();
    assert_eq!(
        r.get_document(&"doc-1".into()).unwrap().current_version_id,
        "dv-1"
    );
    assert!(r.validate_integrity().is_ok());
}

#[test]
fn legacy_document_insert_is_detected_until_initial_version_exists() {
    let mut r = DocumentRegistry::default();
    r.insert_document(document()).unwrap();
    assert_eq!(
        r.validate_integrity(),
        Err("document current version not found")
    );
    assert_eq!(
        r.insert_version(version(1, "dv-1", None)),
        Err("initial document version must be registered with its document")
    );
}

#[test]
fn later_version_atomically_advances_current_pointer() {
    let mut r = DocumentRegistry::default();
    r.insert_document_with_initial_version(document(), version(1, "dv-1", None))
        .unwrap();
    r.insert_version(version(2, "dv-2", Some("dv-1"))).unwrap();
    assert_eq!(
        r.get_document(&"doc-1".into()).unwrap().current_version_id,
        "dv-2"
    );
    assert!(r.validate_integrity().is_ok());
}

#[test]
fn later_version_must_supersede_current_version() {
    let mut r = DocumentRegistry::default();
    r.insert_document_with_initial_version(document(), version(1, "dv-1", None))
        .unwrap();
    r.insert_version(version(2, "dv-2", Some("dv-1"))).unwrap();
    assert_eq!(
        r.insert_version(version(3, "dv-3", Some("dv-1"))),
        Err("new version must supersede the document current version")
    );
    assert_eq!(
        r.get_document(&"doc-1".into()).unwrap().current_version_id,
        "dv-2"
    );
}

#[test]
fn version_number_must_advance_sequentially() {
    let mut r = DocumentRegistry::default();
    r.insert_document_with_initial_version(document(), version(1, "dv-1", None))
        .unwrap();
    assert_eq!(
        r.insert_version(version(3, "dv-3", Some("dv-1"))),
        Err("document version number must advance sequentially")
    );
    assert_eq!(
        r.get_document(&"doc-1".into()).unwrap().current_version_id,
        "dv-1"
    );
}

#[test]
fn derived_artifact_requires_source_version() {
    let mut r = DocumentRegistry::default();
    r.insert_document_with_initial_version(document(), version(1, "dv-1", None))
        .unwrap();
    let a = DerivedArtifact {
        artifact_id: "art-1".into(),
        source_document_version_id: "missing".into(),
        artifact_type: "ocr".into(),
        content_ref: "blob-art".into(),
        content_hash: None,
        created_at: "2026-09-04T00:00:00Z".into(),
        created_by: "system".into(),
        processing_provenance_ref: None,
        model_ref: None,
        confidence: Some(95),
    };
    assert_eq!(
        r.insert_artifact(a),
        Err("artifact source document version not found")
    );
}

#[test]
fn artifact_confidence_is_bounded() {
    let a = DerivedArtifact {
        artifact_id: "art-1".into(),
        source_document_version_id: "dv-1".into(),
        artifact_type: "ocr".into(),
        content_ref: "blob-art".into(),
        content_hash: None,
        created_at: "2026-09-04T00:00:00Z".into(),
        created_by: "system".into(),
        processing_provenance_ref: None,
        model_ref: None,
        confidence: Some(101),
    };
    assert_eq!(
        a.validate(),
        Err("artifact confidence must be between 0 and 100")
    );
}

#[test]
fn failed_initial_registration_changes_nothing_and_ids_stay_unique() {
    let mut r = DocumentRegistry::default();
    r.insert_document_with_initial_version(document(), version(1, "dv-1", None))
        .unwrap();
    assert_eq!(
        r.insert_document_with_initial_version(document(), version(1, "dv-9", None)),
        Err("duplicate document id")
    );
    assert!(r.get_version(&"dv-9".into()).is_none());
    assert_eq!(
        r.insert_document(document()),
        Err("duplicate document id")
    );
}

#[test]
fn later_version_needs_a_superseded_version() {
    let mut r = DocumentRegistry::default();
    r.insert_document_with_initial_version(document(), version(1, "dv-1", None))
        .unwrap();
    assert_eq!(
        r.insert_version(version(2, "dv-2", None)),
        Err("non-initial document version must identify superseded version")
    );
    assert_eq!(
        r.insert_version(version(2, "dv-2", Some("dv-missing"))),
        Err("superseded document version not found")
    );
    assert!(r.get_version(&"dv-2".into()).is_none());
}

#[test]
fn artifact_of_registered_version_is_kept() {
    let mut r = DocumentRegistry::default();
    r.insert_document_with_initial_version(document(), version(1, "dv-1", None))
        .unwrap();
    let a = DerivedArtifact {
        artifact_id: "art-1".into(),
        source_document_version_id: "dv-1".into(),
        artifact_type: "ocr".into(),
        content_ref: "blob-art".into(),
        content_hash: None,
        created_at: "2026-09-04T00:00:00Z".into(),
        created_by: "system".into(),
        processing_provenance_ref: None,
        model_ref: None,
        confidence: Some(100),
    };
    r.insert_artifact(a.clone()).unwrap();
    assert_eq!(r.get_artifact(&"art-1".into()), Some(&a));
    assert_eq!(r.insert_artifact(a), Err("duplicate artifact id"));
}
