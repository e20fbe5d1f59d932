use sidereth::remedy::{ApplicabilityStatus, Remedy, RemedyRegistry, RemedyState};
fn remedy() -> Remedy {
    Remedy {
        remedy_id: "rem-1".into(),
        case_id: "case-1".into(),
        escalation_id: Some("esc-1".into()),
        category: "review".into(),
        description: "Review the disputed decision".into(),
        state: RemedyState::Candidate,
        applicability: ApplicabilityStatus::Unverified,
        source_refs: vec!["src-1".into()],
        evidence_refs: vec!["ev-1".into()],
    }
}

#[test]
fn remedy_lifecycle_is_deterministic() {
    let mut registry = RemedyRegistry::default();
    registry.insert(remedy()).unwrap();
    registry
        .transition(&"rem-1".into(), RemedyState::Requested)
        .unwrap();
    registry
        .transition(&"rem-1".into(), RemedyState::UnderReview)
        .unwrap();
    assert_eq!(
        registry.get(&"rem-1".into()).unwrap().state,
        RemedyState::UnderReview
    );
}

#[test]
fn applicability_requires_explicit_transition() {
    let mut registry = RemedyRegistry::default();
    registry.insert(remedy()).unwrap();
    registry
        .transition_applicability(&"rem-1".into(), ApplicabilityStatus::Verified)
        .unwrap();
    assert_eq!(
        registry.get(&"rem-1".into()).unwrap().applicability,
        ApplicabilityStatus::Verified
    );
}

#[test]
fn invalid_remedy_transition_is_rejected() {
    let mut registry = RemedyRegistry::default();
    registry.insert(remedy()).unwrap();
    assert_eq!(
        registry.transition(&"rem-1".into(), RemedyState::Granted),
        Err("invalid remedy state transition")
    );
}

#[test]
fn duplicate_remedy_ids_are_rejected() {
    let mut registry = RemedyRegistry::default();
    registry.insert(remedy()).unwrap();
    assert_eq!(
        registry.insert(remedy()),
        Err("duplicate remedy id")
    );
}
