use sidereth::EventEnvelope;
use sidereth::json::JsonValue;
use sidereth::ResourceType;
fn event() -> EventEnvelope {
    EventEnvelope {
        event_id: "event-1".into(),
        event_type: "case.activated".into(),
        aggregate_type: "case".into(),
        aggregate_id: "case-1".into(),
        occurred_at: "2026-09-02T10:00:00Z".into(),
        actor_type: "user".into(),
        actor_id: "user-1".into(),
        schema_version: 1,
        payload: JsonValue::Null,
        source_refs: vec![],
        correlation_id: "corr-1".into(),
        causation_id: None,
    }
}

#[test]
fn valid_event_passes_validation() {
    assert!(event().validate().is_ok());
}

#[test]
fn missing_event_id_is_rejected() {
    let mut value = event();
    value.event_id.clear();
    assert_eq!(value.validate(), Err("event id is required"));
}

#[test]
fn event_zero_schema_version_is_rejected() {
    let mut value = event();
    value.schema_version = 0;
    assert_eq!(value.validate(), Err("schema version must be positive"));
}

#[test]
fn aggregate_ref_is_explicit() {
    let reference = event().aggregate_ref().unwrap();
    assert_eq!(reference.resource_type, ResourceType::Case);
    assert_eq!(reference.id, "case-1");
}

#[test]
fn unknown_aggregate_type_maps_to_other() {
    let mut value = event();
    value.aggregate_type = "widget".into();
    let reference = value.aggregate_ref().unwrap();
    assert_eq!(reference.resource_type, ResourceType::Other);
    assert_eq!(reference.id, "case-1");
}

#[test]
fn empty_aggregate_id_has_no_reference() {
    let mut value = event();
    value.aggregate_id.clear();
    assert_eq!(value.aggregate_ref(), Err("resource reference id is required"));
}

#[test]
fn missing_correlation_id_is_reported_last() {
    let mut value = event();
    value.correlation_id.clear();
    assert_eq!(value.validate(), Err("correlation id is required"));
    value.actor_id.clear();
    assert_eq!(value.validate(), Err("actor id is required"));
}

#[test]
fn duplicate_keeps_payload() {
    let mut value = event();
    value.payload = JsonValue::Array(vec![JsonValue::UInt(3), JsonValue::String("x".into())]);
    assert_eq!(value.duplicate(), value);
}
