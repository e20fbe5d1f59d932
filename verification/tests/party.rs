use sidereth::party::{Party, PartyKind, PartyRegistry, PartyRelationship, PartyStatus};
use sidereth::party_codec::{kind_wire_name, status_wire_name};
fn party(id: &str) -> Party {
    Party {
        party_id: id.into(),
        schema_version: 1,
        party_kind: PartyKind::Person,
        status: PartyStatus::Active,
        display_name: "Test Person".into(),
        identity_refs: vec![],
        jurisdiction_refs: vec!["j-1".into()],
        organization_ref: None,
        provenance_ref: None,
        privacy_classification: "private".into(),
        created_at: "2026-09-04T00:00:00Z".into(),
        updated_at: "2026-09-04T00:00:00Z".into(),
    }
}

fn relationship() -> PartyRelationship {
    PartyRelationship {
        relationship_id: "rel-1".into(),
        schema_version: 1,
        from_party_id: "p-1".into(),
        to_party_id: "p-2".into(),
        relationship_type: "representation".into(),
        context_ref: Some("case-1".into()),
        role: "legal_representative".into(),
        valid_from: "2026-09-04T00:00:00Z".into(),
        valid_to: None,
        provenance_ref: None,
        authorization_ref: Some("authz-1".into()),
        created_at: "2026-09-04T00:00:00Z".into(),
    }
}

#[test]
fn valid_party_passes() {
    assert!(party("p-1").validate().is_ok());
}

#[test]
fn missing_party_id_rejected() {
    let mut p = party("p-1");
    p.party_id = "".into();
    assert_eq!(p.validate(), Err("party id is required"));
}

#[test]
fn missing_display_name_rejected() {
    let mut p = party("p-1");
    p.display_name.clear();
    assert_eq!(p.validate(), Err("party display name is required"));
}

#[test]
fn relationship_requires_existing_parties() {
    let mut r = PartyRegistry::default();
    r.insert_party(party("p-1")).unwrap();
    assert_eq!(
        r.insert_relationship(relationship()),
        Err("relationship party not found")
    );
}

#[test]
fn relationship_is_contextual_and_reusable() {
    let mut r = PartyRegistry::default();
    r.insert_party(party("p-1")).unwrap();
    r.insert_party(party("p-2")).unwrap();
    r.insert_relationship(relationship()).unwrap();
    assert!(r.get_relationship(&"rel-1".into()).is_some());
}

#[test]
fn self_relationship_rejected() {
    let mut x = relationship();
    x.to_party_id = x.from_party_id.clone();
    assert_eq!(
        x.validate(),
        Err("party relationship cannot self-reference")
    );
}

#[test]
fn duplicate_party_rejected() {
    let mut r = PartyRegistry::default();
    r.insert_party(party("p-1")).unwrap();
    assert_eq!(r.insert_party(party("p-1")), Err("duplicate party id"));
}

#[test]
fn public_enum_wire_values_are_snake_case() {
    assert_eq!(
        format!("\"{}\"", kind_wire_name(PartyKind::GovernmentEntity)),
        "\"government_entity\""
    );
    assert_eq!(
        format!("\"{}\"", status_wire_name(PartyStatus::Active)),
        "\"active\""
    );
}
