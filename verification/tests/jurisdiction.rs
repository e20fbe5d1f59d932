use sidereth::jurisdiction::{Jurisdiction, JurisdictionRegistry, JurisdictionStatus, JurisdictionType};
fn jurisdiction(id: &str) -> Jurisdiction {
    Jurisdiction {
        jurisdiction_id: id.into(),
        jurisdiction_type: JurisdictionType::Territorial,
        name: format!("Jurisdiction {id}"),
        parent_id: None,
        status: JurisdictionStatus::Active,
    }
}

#[test]
fn valid_jurisdiction_passes() {
    assert!(jurisdiction("j-1").validate().is_ok());
}

#[test]
fn empty_id_is_rejected() {
    let mut value = jurisdiction("j-1");
    value.jurisdiction_id.clear();
    assert_eq!(value.validate(), Err("jurisdiction id is required"));
}

#[test]
fn self_parent_is_rejected() {
    let mut value = jurisdiction("j-1");
    value.parent_id = Some("j-1".into());
    assert_eq!(value.validate(), Err("jurisdiction cannot parent itself"));
}

#[test]
fn jurisdiction_duplicate_ids_are_rejected() {
    let mut registry = JurisdictionRegistry::default();
    registry.insert(jurisdiction("j-1")).unwrap();
    assert_eq!(registry.insert(jurisdiction("j-1")), Err("duplicate jurisdiction id"));
}

#[test]
fn jurisdiction_ids_are_stable() {
    let mut registry = JurisdictionRegistry::default();
    registry.insert(jurisdiction("j-2")).unwrap();
    registry.insert(jurisdiction("j-1")).unwrap();
    assert_eq!(registry.ids(), vec!["j-1", "j-2"]);
}

#[test]
fn parent_cycle_is_reported() {
    let mut registry = JurisdictionRegistry::default();
    let mut first = jurisdiction("j-1");
    first.parent_id = Some("j-2".into());
    let mut second = jurisdiction("j-2");
    second.parent_id = Some("j-1".into());
    registry.insert(first).unwrap();
    assert_eq!(
        registry.insert(second),
        Err("jurisdiction hierarchy cycle detected")
    );
}

#[test]
fn parent_chain_is_accepted() {
    let mut registry = JurisdictionRegistry::default();
    let mut child = jurisdiction("j-2");
    child.parent_id = Some("j-1".into());
    registry.insert(jurisdiction("j-1")).unwrap();
    assert_eq!(registry.insert(child), Ok(()));
    assert_eq!(
        registry.get(&"j-2".into()).unwrap().parent_id.as_deref(),
        Some("j-1")
    );
}
