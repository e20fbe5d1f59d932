use sidereth::capability_lease::{CapabilityLease, CapabilityLeaseError, CapabilityLeaseState};
use sidereth::resource::{ResourceRef, ResourceType};
fn reference(resource_type: ResourceType, id: &str) -> ResourceRef {
    ResourceRef::new(resource_type, id.into()).unwrap()
}

fn lease() -> CapabilityLease {
    CapabilityLease {
        lease_id: reference(ResourceType::Other, "lease-1"),
        schema_version: "0.1".into(),
        capability_ref: reference(ResourceType::Other, "microphone"),
        resource_ref: Some(reference(ResourceType::Other, "device-mic-1")),
        subject_ref: reference(ResourceType::Party, "party-1"),
        actor_ref: Some(reference(ResourceType::Other, "surface-1")),
        purpose: "safety incident evidence capture".into(),
        purpose_version: Some("1".into()),
        authorization_ref: reference(ResourceType::Other, "auth-1"),
        incident_ref: Some(reference(ResourceType::Incident, "incident-1")),
        session_ref: Some(reference(ResourceType::Other, "session-1")),
        scope: "incident-1:audio".into(),
        issued_at_epoch_seconds: 100,
        expires_at_epoch_seconds: 200,
        state: CapabilityLeaseState::Authorized,
        revoked_at_epoch_seconds: None,
        cancelled_at_epoch_seconds: None,
        activated_at_epoch_seconds: None,
        released_at_epoch_seconds: None,
        adapter_ref: None,
        audit_ref: None,
    }
}

#[test]
fn valid_lease_activates_only_in_exact_context() {
    let mut lease = lease();
    let capability = lease.capability_ref.clone();
    let resource = lease.resource_ref.clone();
    let subject = lease.subject_ref.clone();
    let actor = lease.actor_ref.clone();
    let incident = lease.incident_ref.clone();
    let session = lease.session_ref.clone();

    assert!(lease.validate_activation(
        150,
        &capability,
        resource.as_ref(),
        &subject,
        actor.as_ref(),
        "safety incident evidence capture",
        Some("1"),
        "incident-1:audio",
        incident.as_ref(),
        session.as_ref(),
    ).is_ok());

    lease.transition(CapabilityLeaseState::Active, 150).unwrap();
    assert!(lease.validate_use(
        150,
        &capability,
        resource.as_ref(),
        &subject,
        actor.as_ref(),
        "safety incident evidence capture",
        Some("1"),
        "incident-1:audio",
        incident.as_ref(),
        session.as_ref(),
    ).is_ok());
}

#[test]
fn exact_expiry_is_fail_closed() {
    let lease = lease();
    assert_eq!(lease.is_expired_at(200), true);
    assert_eq!(
        lease.validate_activation(
            200,
            &lease.capability_ref,
            lease.resource_ref.as_ref(),
            &lease.subject_ref,
            lease.actor_ref.as_ref(),
            &lease.purpose,
            lease.purpose_version.as_deref(),
            &lease.scope,
            lease.incident_ref.as_ref(),
            lease.session_ref.as_ref(),
        ),
        Err(CapabilityLeaseError::Expired)
    );
}

#[test]
fn purpose_scope_and_subject_are_exact() {
    let lease = lease();
    let mut bad_purpose = lease.purpose.clone();
    bad_purpose.push_str("-different");
    assert_eq!(
        lease.validate_activation(
            150,
            &lease.capability_ref,
            lease.resource_ref.as_ref(),
            &lease.subject_ref,
            lease.actor_ref.as_ref(),
            &bad_purpose,
            lease.purpose_version.as_deref(),
            &lease.scope,
            lease.incident_ref.as_ref(),
            lease.session_ref.as_ref(),
        ),
        Err(CapabilityLeaseError::PurposeMismatch)
    );
    assert_eq!(
        lease.validate_activation(
            150,
            &lease.capability_ref,
            lease.resource_ref.as_ref(),
            &lease.subject_ref,
            lease.actor_ref.as_ref(),
            &lease.purpose,
            lease.purpose_version.as_deref(),
            "incident-1:audio-wide",
            lease.incident_ref.as_ref(),
            lease.session_ref.as_ref(),
        ),
        Err(CapabilityLeaseError::ScopeMismatch)
    );
    let other_subject = reference(ResourceType::Party, "party-2");
    assert_eq!(
        lease.validate_activation(
            150,
            &lease.capability_ref,
            lease.resource_ref.as_ref(),
            &other_subject,
            lease.actor_ref.as_ref(),
            &lease.purpose,
            lease.purpose_version.as_deref(),
            &lease.scope,
            lease.incident_ref.as_ref(),
            lease.session_ref.as_ref(),
        ),
        Err(CapabilityLeaseError::SubjectMismatch)
    );
}

#[test]
fn terminal_lease_cannot_reactivate() {
    let mut lease = lease();
    lease.transition(CapabilityLeaseState::Active, 150).unwrap();
    lease.transition(CapabilityLeaseState::Completed, 160).unwrap();
    lease.transition(CapabilityLeaseState::Released, 161).unwrap();
    assert!(lease.state.is_terminal());
    assert_eq!(
        lease.transition(CapabilityLeaseState::Active, 170),
        Err(CapabilityLeaseError::InvalidTransition)
    );
}

#[test]
fn revocation_and_cancellation_are_terminal_for_use() {
    let mut revoked = lease();
    revoked.transition(CapabilityLeaseState::Active, 150).unwrap();
    revoked.transition(CapabilityLeaseState::Revoked, 155).unwrap();
    assert_eq!(
        revoked.validate_use(
            156,
            &revoked.capability_ref,
            revoked.resource_ref.as_ref(),
            &revoked.subject_ref,
            revoked.actor_ref.as_ref(),
            &revoked.purpose,
            revoked.purpose_version.as_deref(),
            &revoked.scope,
            revoked.incident_ref.as_ref(),
            revoked.session_ref.as_ref(),
        ),
        Err(CapabilityLeaseError::NotActivatable)
    );

    let mut cancelled = lease();
    cancelled.transition(CapabilityLeaseState::Active, 150).unwrap();
    cancelled.transition(CapabilityLeaseState::Cancelled, 155).unwrap();
    assert!(cancelled.state.is_terminal());
}

#[test]
fn release_is_recorded_and_old_lease_is_not_reusable() {
    let mut lease = lease();
    lease.transition(CapabilityLeaseState::Active, 150).unwrap();
    lease.transition(CapabilityLeaseState::Completed, 160).unwrap();
    lease.transition(CapabilityLeaseState::Released, 161).unwrap();
    assert_eq!(lease.released_at_epoch_seconds, Some(161));
    assert_eq!(
        lease.validate_use(
            162,
            &lease.capability_ref,
            lease.resource_ref.as_ref(),
            &lease.subject_ref,
            lease.actor_ref.as_ref(),
            &lease.purpose,
            lease.purpose_version.as_deref(),
            &lease.scope,
            lease.incident_ref.as_ref(),
            lease.session_ref.as_ref(),
        ),
        Err(CapabilityLeaseError::NotActivatable)
    );
}
