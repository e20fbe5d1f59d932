use sidereth::compliance::{ComplianceRegistry, ComplianceRequirement, ComplianceState};
fn requirement() -> ComplianceRequirement {
    ComplianceRequirement {
        requirement_id: "r-1".into(),
        obligation_id: "o-1".into(),
        description: "Submit the required document".into(),
        state: ComplianceState::Unknown,
        evidence_refs: vec![],
        source_refs: vec!["src-1".into()],
    }
}

#[test]
fn valid_requirement_is_accepted() {
    assert!(requirement().validate().is_ok());
}

#[test]
fn satisfied_requires_evidence() {
    let mut registry = ComplianceRegistry::default();
    registry.insert(requirement()).unwrap();
    registry
        .transition(&"r-1".into(), ComplianceState::Required, vec![])
        .unwrap();
    assert_eq!(
        registry.transition(&"r-1".into(), ComplianceState::Satisfied, vec![]),
        Err("satisfied requirement evidence is required")
    );
}

#[test]
fn compliance_duplicate_ids_are_rejected() {
    let mut registry = ComplianceRegistry::default();
    registry.insert(requirement()).unwrap();
    assert_eq!(
        registry.insert(requirement()),
        Err("duplicate requirement id")
    );
}

#[test]
fn state_transition_is_deterministic() {
    let mut registry = ComplianceRegistry::default();
    registry.insert(requirement()).unwrap();
    registry
        .transition(&"r-1".into(), ComplianceState::Required, vec![])
        .unwrap();
    registry
        .transition(
            &"r-1".into(),
            ComplianceState::Satisfied,
            vec!["ev-1".into()],
        )
        .unwrap();
    assert_eq!(
        registry.get(&"r-1".into()).unwrap().state,
        ComplianceState::Satisfied
    );
    assert_eq!(
        registry.get(&"r-1".into()).unwrap().evidence_refs,
        vec!["ev-1"]
    );
}

#[test]
fn compliance_invalid_transition_is_rejected() {
    let mut registry = ComplianceRegistry::default();
    registry.insert(requirement()).unwrap();
    assert_eq!(
        registry.transition(&"r-1".into(), ComplianceState::Breached, vec![]),
        Err("invalid compliance state transition")
    );
}

#[test]
fn requirements_are_sorted() {
    let mut registry = ComplianceRegistry::default();
    let mut second = requirement();
    second.requirement_id = "r-2".into();
    registry.insert(second).unwrap();
    registry.insert(requirement()).unwrap();
    assert_eq!(registry.ids(), vec!["r-1", "r-2"]);
}
