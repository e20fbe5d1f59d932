use sidereth::evidence::{sha256_hex, DerivedArtifact, EvidenceOriginal};

fn original() -> EvidenceOriginal {
    EvidenceOriginal::from_content(
        "evidence-1".into(),
        1,
        Some("case-1".into()),
        None,
        "2026-09-02T10:00:00Z".into(),
        "user-1".into(),
        "text/plain".into(),
        "storage-1".into(),
        b"original evidence",
    )
    .unwrap()
}

#[test]
fn content_hash_is_deterministic() {
    assert_eq!(sha256_hex(b"hello"), sha256_hex(b"hello"));
}

#[test]
fn content_hash_is_the_sha256_digest_in_hex() {
    assert_eq!(
        sha256_hex(b"hello"),
        "2cf24dba5fb0a30e26e83b2ac5b9e29e1b161e5c1fa7425e73043362938b9824"
    );
    assert_eq!(
        sha256_hex(b""),
        "e3b0c44298fc1c149afbf4c8996fb92427ae41e4649b934ca495991b7852b855"
    );
}

#[test]
fn original_requires_case_or_incident() {
    let result = EvidenceOriginal::from_content(
        "evidence-1".into(),
        1,
        None,
        None,
        "2026-09-02T10:00:00Z".into(),
        "user-1".into(),
        "text/plain".into(),
        "storage-1".into(),
        b"evidence",
    );

    assert_eq!(result, Err("evidence aggregate is required"));
}

#[test]
fn original_cannot_target_two_aggregates() {
    let result = EvidenceOriginal::from_content(
        "evidence-1".into(),
        1,
        Some("case-1".into()),
        Some("incident-1".into()),
        "2026-09-02T10:00:00Z".into(),
        "user-1".into(),
        "text/plain".into(),
        "storage-1".into(),
        b"evidence",
    );

    assert_eq!(result, Err("evidence aggregate must be singular"));
}

#[test]
fn original_hash_matches_content() {
    assert_eq!(original().content_hash, sha256_hex(b"original evidence"));
}

#[test]
fn derived_artifact_requires_source() {
    let artifact = DerivedArtifact {
        artifact_id: "artifact-1".into(),
        schema_version: 1,
        source_evidence_id: String::new(),
        artifact_type: "ocr".into(),
        created_at: "2026-09-02T10:01:00Z".into(),
        created_by: "system".into(),
        storage_ref: "storage-2".into(),
    };

    assert_eq!(artifact.validate(), Err("source evidence id is required"));
}
