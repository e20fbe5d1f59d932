use sidereth::procedure::{Procedure, ProcedureRegistry, ProcedureStatus, ProcedureStep};
use sidereth::Id;
fn procedure() -> Procedure {
    Procedure {
        procedure_id: "p-1".into(),
        name: "Example procedure".into(),
        jurisdiction_id: "j-1".into(),
        authority_id: "a-1".into(),
        status: ProcedureStatus::Active,
        step_ids: vec!["s-1".into(), "s-2".into()],
        source_refs: vec!["src-1".into()],
    }
}

fn step(id: &str, sequence: u32) -> ProcedureStep {
    ProcedureStep {
        step_id: id.into(),
        procedure_id: "p-1".into(),
        sequence,
        name: format!("Step {id}"),
        authority_id: "a-1".into(),
        prerequisite_ids: Vec::new(),
        evidence_refs: Vec::new(),
        source_refs: vec!["src-1".into()],
    }
}

#[test]
fn valid_procedure_is_accepted() {
    let mut registry = ProcedureRegistry::default();
    assert!(registry
        .insert(procedure(), vec![step("s-1", 1), step("s-2", 2)])
        .is_ok());
}

#[test]
fn missing_scope_is_rejected() {
    let mut value = procedure();
    value.jurisdiction_id.clear();
    assert_eq!(value.validate(), Err("procedure jurisdiction is required"));
}

#[test]
fn procedure_missing_source_is_rejected() {
    let mut value = procedure();
    value.source_refs.clear();
    assert_eq!(value.validate(), Err("procedure source references are required"));
}

#[test]
fn duplicate_step_ids_are_rejected() {
    let mut value = procedure();
    value.step_ids = vec!["s-1".into(), "s-1".into()];
    assert_eq!(value.validate(), Err("duplicate procedure step id"));
}

#[test]
fn zero_sequence_is_rejected() {
    assert_eq!(step("s-1", 0).validate(), Err("procedure step sequence must be positive"));
}

#[test]
fn unknown_prerequisite_is_rejected_atomically() {
    let mut registry = ProcedureRegistry::default();
    let mut second = step("s-2", 2);
    second.prerequisite_ids = vec!["missing".into()];
    assert_eq!(
        registry.insert(procedure(), vec![step("s-1", 1), second]),
        Err("procedure prerequisite step not found")
    );
    assert!(registry.get_procedure(&"p-1".into()).is_none());
}

#[test]
fn forward_prerequisite_is_rejected() {
    let mut registry = ProcedureRegistry::default();
    let mut first = step("s-1", 1);
    first.prerequisite_ids = vec!["s-2".into()];
    assert_eq!(
        registry.insert(procedure(), vec![first, step("s-2", 2)]),
        Err("procedure prerequisite must precede step")
    );
}

#[test]
fn authority_mismatch_is_rejected() {
    let mut registry = ProcedureRegistry::default();
    let mut value = step("s-1", 1);
    value.authority_id = "a-2".into();
    assert_eq!(
        registry.insert(
            procedure(),
            vec![value, step("s-2", 2)]
        ),
        Err("procedure step authority mismatch")
    );
}

#[test]
fn duplicate_sequences_are_rejected() {
    let mut registry = ProcedureRegistry::default();
    assert_eq!(
        registry.insert(procedure(), vec![step("s-1", 1), step("s-2", 1)]),
        Err("duplicate procedure step sequence")
    );
}

#[test]
fn steps_are_returned_in_stable_sequence_order() {
    let mut registry = ProcedureRegistry::default();
    registry
        .insert(procedure(), vec![step("s-2", 2), step("s-1", 1)])
        .unwrap();
    let ids: Vec<Id> = registry
        .steps_for(&"p-1".into())
        .into_iter()
        .map(|step| step.step_id.clone())
        .collect();
    assert_eq!(ids, vec!["s-1", "s-2"]);
}

#[test]
fn undeclared_step_is_rejected_and_nothing_is_stored() {
    let mut registry = ProcedureRegistry::default();
    assert_eq!(
        registry.insert(procedure(), vec![step("s-1", 1), step("s-3", 2)]),
        Err("procedure step is not declared")
    );
    assert!(registry.get_procedure(&"p-1".into()).is_none());
    assert!(registry.get_step(&"s-1".into()).is_none());
}

#[test]
fn failed_validation_rolls_back_every_step() {
    let mut registry = ProcedureRegistry::default();
    let mut second = step("s-2", 2);
    second.authority_id = "a-9".into();
    assert_eq!(
        registry.insert(procedure(), vec![step("s-1", 1), second]),
        Err("procedure step authority mismatch")
    );
    assert!(registry.get_step(&"s-1".into()).is_none());
    assert!(registry.procedure_ids().is_empty());
    let mut chained = step("s-2", 2);
    chained.prerequisite_ids = vec!["s-1".into()];
    registry.insert(procedure(), vec![step("s-1", 1), chained]).unwrap();
    assert_eq!(registry.procedure_ids(), vec!["p-1"]);
    assert_eq!(registry.steps_for(&"p-1".into()).len(), 2);
}
