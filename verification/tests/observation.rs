use sidereth::intelligence::{EpistemicStatus, IntelligenceDataClass};
use sidereth::json::{member, text, JsonValue};
use sidereth::observation::{observation_json, Observation, ObservationOrigin, ObservationType};
use sidereth::{ResourceRef, ResourceType};

fn subject() -> ResourceRef {
    ResourceRef::new(ResourceType::Incident, "incident-1".into()).unwrap()
}

fn observation() -> Observation {
    Observation {
        observation_id: "obs-1".into(),
        schema_version: 1,
        subject_ref: subject(),
        observation_type: ObservationType::Condition,
        observation_origin: ObservationOrigin::DirectObservation,
        observed_at: "2026-09-12T10:00:00Z".into(),
        recorded_at: "2026-09-12T10:01:00Z".into(),
        assertion: JsonValue::Object(vec![member("condition", text("damaged"))]),
        epistemic_status: EpistemicStatus::Observed,
        source_refs: Vec::new(),
        evidence_refs: Vec::new(),
        provenance_ref: None,
        context_refs: Vec::new(),
        data_class: IntelligenceDataClass::Confidential,
    }
}

fn field<'a>(v: &'a JsonValue, name: &str) -> &'a JsonValue {
    match v {
        JsonValue::Object(members) => &members.iter().find(|m| m.name == name).unwrap().value,
        _ => panic!("not an object"),
    }
}

fn string(v: &JsonValue) -> &str {
    match v {
        JsonValue::String(s) => s.as_str(),
        _ => panic!("not a string"),
    }
}

#[test]
fn valid_observation_passes_validation() {
    assert!(observation().validate().is_ok());
}

#[test]
fn observation_origin_and_epistemic_status_are_independent() {
    let mut value = observation();
    value.observation_origin = ObservationOrigin::Measurement;
    value.epistemic_status = EpistemicStatus::Unverified;
    assert!(value.validate().is_ok());
    assert_eq!(value.observation_origin, ObservationOrigin::Measurement);
    assert_eq!(value.epistemic_status(), EpistemicStatus::Unverified);
}

#[test]
fn ai_derivation_does_not_imply_epistemic_upgrade() {
    let mut value = observation();
    value.observation_origin = ObservationOrigin::AiDerivation;
    value.epistemic_status = EpistemicStatus::Inferred;
    assert!(value.validate().is_ok());
    assert_eq!(value.epistemic_status(), EpistemicStatus::Inferred);
}

#[test]
fn empty_identity_is_rejected() {
    let mut value = observation();
    value.observation_id.clear();
    assert_eq!(value.validate(), Err("observation id is required"));
}

#[test]
fn missing_observation_time_is_rejected() {
    let mut value = observation();
    value.observed_at.clear();
    assert_eq!(value.validate(), Err("observation time is required"));
}

#[test]
fn missing_recorded_time_is_rejected() {
    let mut value = observation();
    value.recorded_at.clear();
    assert_eq!(
        value.validate(),
        Err("observation recorded time is required")
    );
}

#[test]
fn null_assertion_is_rejected() {
    let mut value = observation();
    value.assertion = JsonValue::Null;
    assert_eq!(value.validate(), Err("observation assertion is required"));
}

#[test]
fn wire_format_is_stable() {
    let (json, _) = observation_json(observation());
    assert_eq!(string(field(&json, "observation_id")), "obs-1");
    assert_eq!(string(field(field(&json, "subject_ref"), "resource_type")), "incident");
    assert_eq!(string(field(&json, "observation_origin")), "DIRECT_OBSERVATION");
    assert_eq!(string(field(&json, "epistemic_status")), "OBSERVED");
    assert_eq!(string(field(&json, "data_class")), "CONFIDENTIAL");
}
