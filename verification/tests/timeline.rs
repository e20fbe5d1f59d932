use sidereth::EventEnvelope;
use sidereth::Timeline;
use sidereth::json::JsonValue;

fn event(id: &str, time: &str) -> EventEnvelope {
    EventEnvelope {
        event_id: id.into(),
        event_type: "case.event".into(),
        aggregate_type: "case".into(),
        aggregate_id: "case-1".into(),
        occurred_at: time.into(),
        actor_type: "user".into(),
        actor_id: "user-1".into(),
        schema_version: 1,
        payload: JsonValue::Null,
        source_refs: vec![],
        correlation_id: "corr-1".into(),
        causation_id: None,
    }
}

#[test]
fn timeline_orders_events_by_time() {
    let timeline = Timeline::from_events(vec![
        event("event-2", "2026-09-02T11:00:00Z"),
        event("event-1", "2026-09-02T10:00:00Z"),
    ])
    .unwrap();

    assert_eq!(
        timeline.event_ids(),
        vec!["event-1".to_string(), "event-2".to_string()]
    );
}

#[test]
fn equal_times_use_event_id_as_tie_breaker() {
    let timeline = Timeline::from_events(vec![
        event("event-b", "2026-09-02T10:00:00Z"),
        event("event-a", "2026-09-02T10:00:00Z"),
    ])
    .unwrap();

    assert_eq!(
        timeline.event_ids(),
        vec!["event-a".to_string(), "event-b".to_string()]
    );
}

#[test]
fn duplicate_event_ids_are_rejected() {
    let result = Timeline::from_events(vec![
        event("event-1", "2026-09-02T10:00:00Z"),
        event("event-1", "2026-09-02T11:00:00Z"),
    ]);

    assert_eq!(result, Err("duplicate event id"));
}

#[test]
fn duplicate_ids_apart_in_time_are_rejected() {
    let result = Timeline::from_events(vec![
        event("event-1", "2026-09-02T10:00:00Z"),
        event("event-2", "2026-09-02T11:00:00Z"),
        event("event-1", "2026-09-02T12:00:00Z"),
    ]);

    assert_eq!(result, Err("duplicate event id"));
}

#[test]
fn invalid_event_is_reported_before_duplicates() {
    let mut broken = event("event-1", "2026-09-02T10:00:00Z");
    broken.schema_version = 0;
    let result = Timeline::from_events(vec![
        event("event-1", "2026-09-02T10:00:00Z"),
        broken,
    ]);

    assert_eq!(result, Err("schema version must be positive"));
}

#[test]
fn timeline_orders_many_events() {
    let timeline = Timeline::from_events(vec![
        event("event-c", "2026-09-03T00:00:00Z"),
        event("event-b", "2026-09-01T00:00:00Z"),
        event("event-a", "2026-09-02T00:00:00Z"),
        event("event-0", "2026-09-01T00:00:00Z"),
    ])
    .unwrap();

    assert_eq!(
        timeline.event_ids(),
        vec![
            "event-0".to_string(),
            "event-b".to_string(),
            "event-a".to_string(),
            "event-c".to_string()
        ]
    );
    assert_eq!(timeline.events().len(), 4);
}

#[test]
fn empty_timeline_is_accepted() {
    let timeline = Timeline::from_events(vec![]).unwrap();
    assert!(timeline.event_ids().is_empty());
}
