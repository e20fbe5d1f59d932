use sidereth::evidence_trust::{
    attestation_is_consistent, EvidenceTransformation, HardwareAttestationStatus, IntegrityStatus,
    MediaOrigin,
};

#[test]
fn imported_media_is_distinct_from_live_capture() {
    assert_ne!(MediaOrigin::ImportedFile, MediaOrigin::LiveCapture);
}

#[test]
fn transformation_requires_source() {
    let transformation = EvidenceTransformation {
        transformation_id: "transform-1".into(),
        source_evidence_id: String::new(),
        transformation_type: "ocr".into(),
        created_at: "2026-09-07T10:00:00Z".into(),
        created_by: "system".into(),
        tool_id: None,
        tool_version: None,
        input_hash: None,
        output_hash: None,
    };
    assert_eq!(transformation.validate(), Err("source evidence id is required"));
}

#[test]
fn hardware_claim_needs_hardware_attestation() {
    assert!(!attestation_is_consistent(
        IntegrityStatus::HardwareAttested,
        HardwareAttestationStatus::SoftwareFallback
    ));
    assert!(attestation_is_consistent(
        IntegrityStatus::HardwareAttested,
        HardwareAttestationStatus::HardwareAttested
    ));
    assert!(attestation_is_consistent(
        IntegrityStatus::HashVerified,
        HardwareAttestationStatus::SoftwareFallback
    ));
}
