use sidereth::authority::{Authority, AuthorityPower, AuthorityRegistry, AuthorityStatus, AuthorityType};
fn authority() -> Authority {
    Authority {
        authority_id: "auth-1".into(),
        name: "Example Authority".into(),
        authority_type: AuthorityType::GovernmentBody,
        jurisdiction_id: "j-1".into(),
        status: AuthorityStatus::Active,
    }
}

fn power() -> AuthorityPower {
    AuthorityPower {
        power_id: "power-1".into(),
        authority_id: "auth-1".into(),
        jurisdiction_id: "j-1".into(),
        name: "Example power".into(),
        source_refs: vec!["law-1".into()],
        status: AuthorityStatus::Active,
    }
}

#[test]
fn valid_authority_passes() {
    assert!(authority().validate().is_ok());
}

#[test]
fn missing_jurisdiction_is_rejected() {
    let mut value = authority();
    value.jurisdiction_id.clear();
    assert_eq!(
        value.validate(),
        Err("authority jurisdiction is required")
    );
}

#[test]
fn power_requires_authority() {
    let mut value = power();
    value.authority_id.clear();
    assert_eq!(value.validate(), Err("power authority is required"));
}

#[test]
fn power_requires_source() {
    let mut value = power();
    value.source_refs.clear();
    assert_eq!(
        value.validate(),
        Err("power requires a source reference")
    );
}

#[test]
fn authority_jurisdiction_mismatch_is_rejected() {
    let mut registry = AuthorityRegistry::default();
    registry.insert_authority(authority()).unwrap();
    let mut value = power();
    value.jurisdiction_id = "j-2".into();
    assert_eq!(
        registry.insert_power(value),
        Err("power jurisdiction does not match authority")
    );
}

#[test]
fn unknown_authority_is_rejected() {
    let mut registry = AuthorityRegistry::default();
    assert_eq!(
        registry.insert_power(power()),
        Err("power authority not found")
    );
}

#[test]
fn duplicate_authority_is_rejected() {
    let mut registry = AuthorityRegistry::default();
    registry.insert_authority(authority()).unwrap();
    assert_eq!(
        registry.insert_authority(authority()),
        Err("duplicate authority id")
    );
}

#[test]
fn duplicate_power_is_rejected() {
    let mut registry = AuthorityRegistry::default();
    registry.insert_authority(authority()).unwrap();
    registry.insert_power(power()).unwrap();
    assert_eq!(
        registry.insert_power(power()),
        Err("duplicate power id")
    );
}

#[test]
fn authority_ids_are_stable() {
    let mut registry = AuthorityRegistry::default();
    let mut second = authority();
    second.authority_id = "auth-2".into();
    registry.insert_authority(second).unwrap();
    registry.insert_authority(authority()).unwrap();
    assert_eq!(registry.authority_ids(), vec!["auth-1", "auth-2"]);
}
