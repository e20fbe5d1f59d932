use sidereth::json::JsonValue;
use sidereth::repository::{CaseRepository, EventRepository, InMemoryRepositories, IncidentRepository};
use sidereth::{Case, EventEnvelope, Incident};

fn case() -> Case {
    Case::new("case-1".into()).unwrap()
}

fn event(id: &str) -> EventEnvelope {
    EventEnvelope {
        event_id: id.into(),
        event_type: "case.activated".into(),
        aggregate_type: "case".into(),
        aggregate_id: "case-1".into(),
        occurred_at: "2026-09-02T10:00:00Z".into(),
        actor_type: "user".into(),
        actor_id: "user-1".into(),
        schema_version: 1,
        payload: JsonValue::Bool(true),
        source_refs: vec!["source-1".into()],
        correlation_id: "corr-1".into(),
        causation_id: Some("event-0".into()),
    }
}

#[test]
fn case_can_be_saved_and_loaded() {
    let mut repo = InMemoryRepositories::default();
    CaseRepository::save(&mut repo, case()).unwrap();
    let saved = CaseRepository::get(&repo, &"case-1".into())
        .unwrap()
        .unwrap();
    assert_eq!(saved.case_id, "case-1");
}

#[test]
fn duplicate_case_is_rejected() {
    let mut repo = InMemoryRepositories::default();
    CaseRepository::save(&mut repo, case()).unwrap();
    assert_eq!(
        CaseRepository::save(&mut repo, case()),
        Err("case already exists")
    );
}

#[test]
fn missing_case_returns_none() {
    let repo = InMemoryRepositories::default();
    assert!(CaseRepository::get(&repo, &"missing".into())
        .unwrap()
        .is_none());
}

#[test]
fn case_without_id_is_rejected() {
    let mut repo = InMemoryRepositories::default();
    let mut value = case();
    value.case_id.clear();
    assert_eq!(CaseRepository::save(&mut repo, value), Err("case id is required"));
}

#[test]
fn incident_round_trip_and_duplicate() {
    let mut repo = InMemoryRepositories::default();
    let incident = Incident::new("incident-1".into()).unwrap();
    IncidentRepository::save(&mut repo, incident.clone()).unwrap();
    assert_eq!(
        IncidentRepository::get(&repo, &"incident-1".into()).unwrap(),
        Some(incident.clone())
    );
    assert_eq!(IncidentRepository::save(&mut repo, incident), Err("incident already exists"));
    let mut blank = Incident::new("incident-2".into()).unwrap();
    blank.incident_id.clear();
    assert_eq!(IncidentRepository::save(&mut repo, blank), Err("incident id is required"));
}

#[test]
fn event_round_trip_keeps_every_field() {
    let mut repo = InMemoryRepositories::default();
    EventRepository::append(&mut repo, event("event-1")).unwrap();
    assert_eq!(
        EventRepository::get(&repo, &"event-1".into()).unwrap(),
        Some(event("event-1"))
    );
    assert_eq!(EventRepository::get(&repo, &"event-2".into()).unwrap(), None);
}

#[test]
fn event_append_validates_and_refuses_duplicates() {
    let mut repo = InMemoryRepositories::default();
    let mut invalid = event("event-1");
    invalid.schema_version = 0;
    assert_eq!(
        EventRepository::append(&mut repo, invalid),
        Err("schema version must be positive")
    );
    EventRepository::append(&mut repo, event("event-1")).unwrap();
    assert_eq!(
        EventRepository::append(&mut repo, event("event-1")),
        Err("event already exists")
    );
}
