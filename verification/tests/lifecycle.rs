use sidereth::lifecycle::{LifecycleMeta, LifecycleTransition};
use sidereth::resource::{ResourceRef, ResourceType};
fn reference(resource_type: ResourceType, id: &str) -> ResourceRef {
    ResourceRef::new(resource_type, id.into()).unwrap()
}

#[test]
fn lifecycle_transition_validates() {
    let transition = LifecycleTransition {
        transition_id: "transition-1".into(),
        resource_ref: reference(ResourceType::Case, "case-1"),
        from_state: Some("draft".into()), to_state: "active".into(),
        actor_ref: reference(ResourceType::Party, "party-1"),
        occurred_at: "2026-09-04T10:00:00Z".into(), reason: Some("submitted".into()),
        authorization_ref: None, provenance_ref: None,
        correlation_id: "corr-1".into(), causation_id: None,
    };
    assert!(transition.validate().is_ok());
}

#[test]
fn lifecycle_meta_does_not_impose_a_universal_state_vocabulary() {
    assert!(LifecycleMeta::new("waiting_authority".into()).is_ok());
    assert!(LifecycleMeta::new("under_review".into()).is_ok());
}
