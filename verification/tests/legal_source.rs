use sidereth::legal_source::{LegalProposition, LegalSource, PropositionType, SourceType, VerificationStatus};
fn source() -> LegalSource {
    LegalSource {
        source_id: "law-1".into(),
        source_type: SourceType::ConstitutionOrLegislation,
        title: "Example Act".into(),
        issuing_authority: "legislature".into(),
        jurisdiction: "IN".into(),
        citation: "s. 1".into(),
        published_at: "2026-01-01T00:00:00Z".into(),
        effective_from: "2026-02-01T00:00:00Z".into(),
        effective_to: None,
        version: "1".into(),
        retrieved_at: "2026-09-03T00:00:00Z".into(),
        verification_status: VerificationStatus::Verified,
        supersedes: None,
    }
}

fn proposition() -> LegalProposition {
    LegalProposition {
        proposition_id: "prop-1".into(),
        schema_version: 1,
        proposition_type: PropositionType::VerifiedRule,
        statement: "A requirement applies.".into(),
        source_refs: vec!["law-1".into()],
        verification_status: VerificationStatus::Verified,
        confidence_basis_points: 10_000,
    }
}

#[test]
fn valid_source_passes_validation() {
    assert!(source().validate().is_ok());
}

#[test]
fn self_supersession_is_rejected() {
    let mut value = source();
    value.supersedes = Some(value.source_id.clone());
    assert_eq!(
        value.validate(),
        Err("source cannot supersede itself")
    );
}

#[test]
fn invalid_effective_interval_is_rejected() {
    let mut value = source();
    value.effective_to = Some("2026-01-31T23:59:59Z".into());
    assert_eq!(
        value.validate(),
        Err("effective end precedes effective start")
    );
}

#[test]
fn proposition_requires_source() {
    let mut value = proposition();
    value.source_refs.clear();
    assert_eq!(
        value.validate(),
        Err("proposition requires a source reference")
    );
}

#[test]
fn confidence_is_bounded() {
    let mut value = proposition();
    value.confidence_basis_points = 10_001;
    assert_eq!(
        value.validate(),
        Err("confidence must be between 0 and 10000 basis points")
    );
}

#[test]
fn source_refs_have_deterministic_order() {
    let mut value = proposition();
    value.source_refs = vec!["law-2".into(), "law-1".into(), "law-2".into()];
    value.canonical_source_refs();
    assert_eq!(value.source_refs, vec!["law-1", "law-2"]);
}

#[test]
fn provenance_types_remain_distinct() {
    assert_ne!(
        PropositionType::UserFact,
        PropositionType::VerifiedRule
    );
    assert_ne!(
        PropositionType::Inference,
        PropositionType::AuthoritativeInterpretation
    );
    assert_ne!(
        PropositionType::Uncertainty,
        PropositionType::DisputedInterpretation
    );
}

#[test]
fn canonical_source_refs_is_idempotent() {
    let mut value = proposition();
    value.source_refs = vec!["law-3".into(), "law-1".into(), "law-3".into(), "law-2".into()];
    value.canonical_source_refs();
    let once = value.source_refs.clone();
    value.canonical_source_refs();
    assert_eq!(value.source_refs, once);
    assert_eq!(once, vec!["law-1", "law-2", "law-3"]);
}
