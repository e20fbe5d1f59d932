use sidereth::resolution::{Resolution, ResolutionRegistry, ResolutionState};
fn resolution() -> Resolution {
    Resolution {
        resolution_id: "res-1".into(),
        case_id: "case-1".into(),
        remedy_id: Some("rem-1".into()),
        escalation_id: Some("esc-1".into()),
        response_id: Some("resp-1".into()),
        requested_outcome: "Review the decision".into(),
        recorded_outcome: None,
        state: ResolutionState::Open,
        source_refs: vec!["src-1".into()],
        evidence_refs: vec!["ev-1".into()],
    }
}

#[test]
fn requested_and_recorded_outcomes_are_distinct() {
    let mut value = resolution();
    value.recorded_outcome = Some("Decision reviewed".into());
    let mut registry = ResolutionRegistry::default();
    registry.insert(value).unwrap();
    registry
        .transition(&"res-1".into(), ResolutionState::Resolved)
        .unwrap();
    assert_eq!(
        registry
            .get(&"res-1".into())
            .unwrap()
            .recorded_outcome
            .as_deref(),
        Some("Decision reviewed")
    );
}

#[test]
fn completed_resolution_requires_recorded_outcome() {
    let mut registry = ResolutionRegistry::default();
    registry.insert(resolution()).unwrap();
    assert_eq!(
        registry.transition(&"res-1".into(), ResolutionState::Resolved),
        Err("recorded outcome is required for completed resolution")
    );
}

#[test]
fn invalid_resolution_transition_is_rejected() {
    let mut registry = ResolutionRegistry::default();
    registry.insert(resolution()).unwrap();
    assert_eq!(
        registry.transition(&"res-1".into(), ResolutionState::Closed),
        Err("invalid resolution state transition")
    );
}

#[test]
fn duplicate_resolution_ids_are_rejected() {
    let mut registry = ResolutionRegistry::default();
    registry.insert(resolution()).unwrap();
    assert_eq!(
        registry.insert(resolution()),
        Err("duplicate resolution id")
    );
}
