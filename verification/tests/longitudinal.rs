use sidereth::longitudinal::{LongitudinalEntry, LongitudinalView};
use sidereth::intelligence::{EpistemicStatus, IntelligenceDataClass};
use sidereth::observation::{Observation, ObservationOrigin, ObservationType};
use sidereth::json::JsonValue;
use sidereth::{EventEnvelope, ResourceRef, ResourceType};

fn case_ref() -> ResourceRef {
    ResourceRef::new(ResourceType::Case, "case-1".into()).unwrap()
}

fn event(id: &str, time: &str) -> EventEnvelope {
    EventEnvelope {
        event_id: id.into(),
        event_type: "case.event".into(),
        aggregate_type: "case".into(),
        aggregate_id: "case-1".into(),
        occurred_at: time.into(),
        actor_type: "user".into(),
        actor_id: "user-1".into(),
        schema_version: 1,
        payload: JsonValue::Null,
        source_refs: vec![],
        correlation_id: "corr-1".into(),
        causation_id: None,
    }
}

fn observation(id: &str, time: &str) -> Observation {
    Observation {
        observation_id: id.into(),
        schema_version: 1,
        subject_ref: case_ref(),
        observation_type: ObservationType::Condition,
        observation_origin: ObservationOrigin::UserReport,
        observed_at: time.into(),
        recorded_at: "2026-09-13T10:00:00Z".into(),
        assertion: JsonValue::String("reported".into()),
        epistemic_status: EpistemicStatus::UserReported,
        source_refs: vec![],
        evidence_refs: vec![],
        provenance_ref: None,
        context_refs: vec![],
        data_class: IntelligenceDataClass::Public,
    }
}

#[test]
fn projection_orders_events_and_observations_without_rewriting_sources() {
    let view = LongitudinalView::from_entries(
        case_ref(),
        vec![
            LongitudinalEntry::Observation(observation("obs-2", "2026-09-02T11:00:00Z")),
            LongitudinalEntry::Event(event("event-1", "2026-09-02T10:00:00Z")),
            LongitudinalEntry::Observation(observation("obs-1", "2026-09-02T10:30:00Z")),
        ],
    )
    .unwrap();

    assert_eq!(view.source_ids(), vec!["event-1", "obs-1", "obs-2"]);
}

#[test]
fn projection_rejects_entry_for_different_subject() {
    let mut other = observation("obs-1", "2026-09-02T10:00:00Z");
    other.subject_ref = ResourceRef::new(ResourceType::Incident, "incident-1".into()).unwrap();
    assert_eq!(
        LongitudinalView::from_entries(case_ref(), vec![LongitudinalEntry::Observation(other)]),
        Err("longitudinal entry does not belong to subject")
    );
}

#[test]
fn projection_does_not_upgrade_observation_status() {
    let obs = observation("obs-1", "2026-09-02T10:00:00Z");
    let view = LongitudinalView::from_entries(case_ref(), vec![LongitudinalEntry::Observation(obs)]).unwrap();
    match &view.entries()[0] {
        LongitudinalEntry::Observation(observation) => {
            assert_eq!(observation.epistemic_status, EpistemicStatus::UserReported);
        }
        _ => panic!("expected observation"),
    }
}

#[test]
fn empty_projection_is_rejected() {
    assert_eq!(
        LongitudinalView::from_entries(case_ref(), vec![]),
        Err("longitudinal view requires at least one entry")
    );
}

#[test]
fn invalid_entry_is_reported_before_subject_mismatch() {
    let mut other = observation("obs-1", "2026-09-02T10:00:00Z");
    other.subject_ref = ResourceRef::new(ResourceType::Incident, "incident-1".into()).unwrap();
    let mut broken = event("event-1", "2026-09-02T10:00:00Z");
    broken.actor_type.clear();
    assert_eq!(
        LongitudinalView::from_entries(
            case_ref(),
            vec![LongitudinalEntry::Observation(other), LongitudinalEntry::Event(broken)]
        ),
        Err("actor type is required")
    );
}

#[test]
fn event_for_other_aggregate_is_rejected() {
    let mut other = event("event-1", "2026-09-02T10:00:00Z");
    other.aggregate_type = "incident".into();
    assert_eq!(
        LongitudinalView::from_entries(case_ref(), vec![LongitudinalEntry::Event(other)]),
        Err("longitudinal entry does not belong to subject")
    );
}

#[test]
fn source_refs_name_entry_kind() {
    let entry = LongitudinalEntry::Observation(observation("obs-1", "2026-09-02T10:00:00Z"));
    assert_eq!(
        entry.source_ref(),
        ResourceRef::new(ResourceType::Observation, "obs-1".into()).unwrap()
    );
    let entry = LongitudinalEntry::Event(event("event-1", "2026-09-02T10:00:00Z"));
    assert_eq!(
        entry.source_ref(),
        ResourceRef::new(ResourceType::Event, "event-1".into()).unwrap()
    );
}

#[test]
fn view_keeps_subject() {
    let view = LongitudinalView::from_entries(
        case_ref(),
        vec![LongitudinalEntry::Event(event("event-1", "2026-09-02T10:00:00Z"))],
    )
    .unwrap();
    assert_eq!(view.subject_ref(), &case_ref());
    assert_eq!(view.entries().len(), 1);
}
