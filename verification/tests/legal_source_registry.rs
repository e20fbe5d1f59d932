use sidereth::legal_source::{LegalSource, SourceType, VerificationStatus};
use sidereth::legal_source_registry::LegalSourceRegistry;
fn source(id: &str) -> LegalSource {
    LegalSource {
        source_id: id.into(),
        source_type: SourceType::ConstitutionOrLegislation,
        title: format!("Source {id}"),
        issuing_authority: "authority".into(),
        jurisdiction: "IN".into(),
        citation: format!("citation-{id}"),
        published_at: "2026-01-01T00:00:00Z".into(),
        effective_from: "2026-01-01T00:00:00Z".into(),
        effective_to: None,
        version: "1".into(),
        retrieved_at: "2026-09-03T00:00:00Z".into(),
        verification_status: VerificationStatus::Verified,
        supersedes: None,
    }
}

#[test]
fn duplicate_source_ids_are_rejected() {
    let mut registry = LegalSourceRegistry::default();
    registry.insert(source("law-1")).unwrap();
    assert_eq!(registry.insert(source("law-1")), Err("duplicate source id"));
}

#[test]
fn ids_are_returned_in_stable_order() {
    let mut registry = LegalSourceRegistry::default();
    registry.insert(source("law-2")).unwrap();
    registry.insert(source("law-1")).unwrap();
    assert_eq!(registry.ids(), vec!["law-1", "law-2"]);
}

#[test]
fn supersession_cycle_is_rejected() {
    let mut registry = LegalSourceRegistry::default();
    let mut first = source("law-1");
    first.supersedes = Some("law-2".into());
    let mut second = source("law-2");
    second.supersedes = Some("law-1".into());
    registry.insert(first).unwrap();
    assert_eq!(
        registry.insert(second),
        Err("supersession cycle detected")
    );
    assert_eq!(
        registry.validate_supersession_graph(),
        Err("supersession cycle detected")
    );
}

#[test]
fn supersession_chain_without_cycle_is_accepted() {
    let mut registry = LegalSourceRegistry::default();
    let mut newer = source("law-2");
    newer.supersedes = Some("law-1".into());
    registry.insert(source("law-1")).unwrap();
    registry.insert(newer).unwrap();
    let mut newest = source("law-3");
    newest.supersedes = Some("law-2".into());
    assert_eq!(registry.insert(newest), Ok(()));
    assert!(registry.get(&"law-3".into()).is_some());
}
