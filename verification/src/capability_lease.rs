//! Purpose-bound, time-limited leases of a capability, and the checks made
//! before a lease is activated or used.
use vstd::prelude::*;
use crate::resource::{ResourceRef, ResourceRefView, opt_ref_view};
use crate::text::str_eq;

verus! {

/// Lifecycle state of a capability lease.
#[derive(Debug, Clone, Copy, PartialEq, Eq, Structural)]
pub enum CapabilityLeaseState {
    Requested,
    Authorized,
    Active,
    Completed,
    Released,
    Revoked,
    Cancelled,
    Expired,
}

/// The lease state machine.
pub open spec fn lease_step(from: CapabilityLeaseState, to: CapabilityLeaseState) -> bool {
    match (from, to) {
        (CapabilityLeaseState::Requested, CapabilityLeaseState::Authorized) => true,
        (CapabilityLeaseState::Authorized, CapabilityLeaseState::Active) => true,
        (CapabilityLeaseState::Authorized, CapabilityLeaseState::Expired) => true,
        (CapabilityLeaseState::Authorized, CapabilityLeaseState::Revoked) => true,
        (CapabilityLeaseState::Active, CapabilityLeaseState::Completed) => true,
        (CapabilityLeaseState::Active, CapabilityLeaseState::Released) => true,
        (CapabilityLeaseState::Active, CapabilityLeaseState::Revoked) => true,
        (CapabilityLeaseState::Active, CapabilityLeaseState::Cancelled) => true,
        (CapabilityLeaseState::Active, CapabilityLeaseState::Expired) => true,
        (CapabilityLeaseState::Completed, CapabilityLeaseState::Released) => true,
        _ => false,
    }
}

pub open spec fn terminal(state: CapabilityLeaseState) -> bool {
    state == CapabilityLeaseState::Released || state == CapabilityLeaseState::Revoked || state
        == CapabilityLeaseState::Cancelled || state == CapabilityLeaseState::Expired
}

impl CapabilityLeaseState {
    pub fn can_activate(&self) -> (b: bool)
        ensures
            b == (*self == CapabilityLeaseState::Authorized),
    {
        match self {
            CapabilityLeaseState::Authorized => true,
            _ => false,
        }
    }

    pub fn is_terminal(&self) -> (b: bool)
        ensures
            b == terminal(*self),
    {
        match self {
            CapabilityLeaseState::Released | CapabilityLeaseState::Revoked | CapabilityLeaseState::Cancelled
            | CapabilityLeaseState::Expired => true,
            _ => false,
        }
    }

    pub fn can_transition_to(&self, next: Self) -> (b: bool)
        ensures
            b == lease_step(*self, next),
    {
        match (self, next) {
            (CapabilityLeaseState::Requested, CapabilityLeaseState::Authorized) => true,
            (CapabilityLeaseState::Authorized, CapabilityLeaseState::Active) => true,
            (CapabilityLeaseState::Authorized, CapabilityLeaseState::Expired) => true,
            (CapabilityLeaseState::Authorized, CapabilityLeaseState::Revoked) => true,
            (CapabilityLeaseState::Active, CapabilityLeaseState::Completed) => true,
            (CapabilityLeaseState::Active, CapabilityLeaseState::Released) => true,
            (CapabilityLeaseState::Active, CapabilityLeaseState::Revoked) => true,
            (CapabilityLeaseState::Active, CapabilityLeaseState::Cancelled) => true,
            (CapabilityLeaseState::Active, CapabilityLeaseState::Expired) => true,
            (CapabilityLeaseState::Completed, CapabilityLeaseState::Released) => true,
            _ => false,
        }
    }
}

/// A terminal lease never changes state again.
pub proof fn lemma_terminal_lease_is_final(from: CapabilityLeaseState, to: CapabilityLeaseState)
    requires
        terminal(from),
    ensures
        !lease_step(from, to),
{
}

/// Only an authorized lease becomes active.
pub proof fn lemma_activation_needs_authorization(from: CapabilityLeaseState)
    requires
        lease_step(from, CapabilityLeaseState::Active),
    ensures
        from == CapabilityLeaseState::Authorized,
{
}

/// Identity and lifecycle record of a temporary, purpose-bound use of a
/// capability.
#[derive(Debug, Clone, PartialEq, Eq)]
pub struct CapabilityLease {
    pub lease_id: ResourceRef,
    pub schema_version: String,
    pub capability_ref: ResourceRef,
    pub resource_ref: Option<ResourceRef>,
    pub subject_ref: ResourceRef,
    pub actor_ref: Option<ResourceRef>,
    pub purpose: String,
    pub purpose_version: Option<String>,
    pub authorization_ref: ResourceRef,
    pub incident_ref: Option<ResourceRef>,
    pub session_ref: Option<ResourceRef>,
    pub scope: String,
    pub issued_at_epoch_seconds: u64,
    pub expires_at_epoch_seconds: u64,
    pub state: CapabilityLeaseState,
    pub revoked_at_epoch_seconds: Option<u64>,
    pub cancelled_at_epoch_seconds: Option<u64>,
    pub activated_at_epoch_seconds: Option<u64>,
    pub released_at_epoch_seconds: Option<u64>,
    pub adapter_ref: Option<ResourceRef>,
    pub audit_ref: Option<ResourceRef>,
}

#[derive(Debug, Clone, Copy, PartialEq, Eq, Structural)]
pub enum CapabilityLeaseError {
    InvalidLease,
    Expired,
    NotActivatable,
    InvalidTransition,
    PurposeMismatch,
    ScopeMismatch,
    SubjectMismatch,
    ActorMismatch,
    SessionMismatch,
    IncidentMismatch,
    CapabilityMismatch,
    ResourceMismatch,
    PurposeVersionMismatch,
}

/// Abstract value of an optional borrowed reference.
pub open spec fn ref_view_of(r: Option<&ResourceRef>) -> Option<ResourceRefView> {
    match r {
        Some(x) => Some(x@),
        None => None,
    }
}

/// Abstract value of an optional borrowed text.
pub open spec fn str_view_of(s: Option<&str>) -> Option<Seq<char>> {
    match s {
        Some(x) => Some(x@),
        None => None,
    }
}

/// Abstract value of an optional owned text.
pub open spec fn string_view_of(s: Option<String>) -> Option<Seq<char>> {
    match s {
        Some(x) => Some(x@),
        None => None,
    }
}

fn same_ref(a: &Option<ResourceRef>, b: Option<&ResourceRef>) -> (r: bool)
    ensures
        r == (opt_ref_view(*a) == ref_view_of(b)),
{
    match (a, b) {
        (Some(x), Some(y)) => x.same(y),
        (None, None) => true,
        _ => false,
    }
}

fn same_text(a: &Option<String>, b: Option<&str>) -> (r: bool)
    ensures
        r == (string_view_of(*a) == str_view_of(b)),
{
    match (a, b) {
        (Some(x), Some(y)) => str_eq(x.as_str(), y),
        (None, None) => true,
        _ => false,
    }
}

impl CapabilityLease {
    pub open spec fn validity(&self) -> Result<(), CapabilityLeaseError> {
        if self.lease_id.id@.len() == 0 || self.schema_version@.len() == 0 || self.capability_ref.id@.len()
            == 0 || self.subject_ref.id@.len() == 0 || self.authorization_ref.id@.len() == 0
            || self.purpose@.len() == 0 || self.scope@.len() == 0 || self.expires_at_epoch_seconds
            <= self.issued_at_epoch_seconds {
            Err(CapabilityLeaseError::InvalidLease)
        } else if self.state == CapabilityLeaseState::Active && self.activated_at_epoch_seconds is None {
            Err(CapabilityLeaseError::InvalidLease)
        } else if (self.state == CapabilityLeaseState::Released || self.state == CapabilityLeaseState::Cancelled)
            && self.released_at_epoch_seconds is None {
            Err(CapabilityLeaseError::InvalidLease)
        } else {
            Ok(())
        }
    }

    pub fn validate(&self) -> (r: Result<(), CapabilityLeaseError>)
        ensures
            r == self.validity(),
    {
        if self.lease_id.id.as_str().is_empty() || self.schema_version.as_str().is_empty()
            || self.capability_ref.id.as_str().is_empty() || self.subject_ref.id.as_str().is_empty()
            || self.authorization_ref.id.as_str().is_empty() || self.purpose.as_str().is_empty()
            || self.scope.as_str().is_empty() || self.expires_at_epoch_seconds <= self.issued_at_epoch_seconds {
            return Err(CapabilityLeaseError::InvalidLease);
        }
        if self.state == CapabilityLeaseState::Active && self.activated_at_epoch_seconds.is_none() {
            return Err(CapabilityLeaseError::InvalidLease);
        }
        let closed = match self.state {
            CapabilityLeaseState::Released | CapabilityLeaseState::Revoked | CapabilityLeaseState::Cancelled
            | CapabilityLeaseState::Expired => true,
            _ => false,
        };
        let exempt = match self.state {
            CapabilityLeaseState::Revoked | CapabilityLeaseState::Expired => true,
            _ => false,
        };
        if closed && self.released_at_epoch_seconds.is_none() && !exempt {
            return Err(CapabilityLeaseError::InvalidLease);
        }
        Ok(())
    }

    pub open spec fn expired_at(&self, now: u64) -> bool {
        now >= self.expires_at_epoch_seconds
    }

    pub fn is_expired_at(&self, now_epoch_seconds: u64) -> (b: bool)
        ensures
            b == self.expired_at(now_epoch_seconds),
    {
        now_epoch_seconds >= self.expires_at_epoch_seconds
    }

    /// The first context field that differs from the lease.
    pub open spec fn context_check(
        &self,
        capability_ref: ResourceRef,
        resource_ref: Option<ResourceRefView>,
        subject_ref: ResourceRef,
        actor_ref: Option<ResourceRefView>,
        purpose: Seq<char>,
        purpose_version: Option<Seq<char>>,
        scope: Seq<char>,
        incident_ref: Option<ResourceRefView>,
        session_ref: Option<ResourceRefView>,
    ) -> Result<(), CapabilityLeaseError> {
        if self.capability_ref@ != capability_ref@ {
            Err(CapabilityLeaseError::CapabilityMismatch)
        } else if opt_ref_view(self.resource_ref) != resource_ref {
            Err(CapabilityLeaseError::ResourceMismatch)
        } else if self.subject_ref@ != subject_ref@ {
            Err(CapabilityLeaseError::SubjectMismatch)
        } else if opt_ref_view(self.actor_ref) != actor_ref {
            Err(CapabilityLeaseError::ActorMismatch)
        } else if self.purpose@ != purpose {
            Err(CapabilityLeaseError::PurposeMismatch)
        } else if string_view_of(self.purpose_version) != purpose_version {
            Err(CapabilityLeaseError::PurposeVersionMismatch)
        } else if self.scope@ != scope {
            Err(CapabilityLeaseError::ScopeMismatch)
        } else if opt_ref_view(self.incident_ref) != incident_ref {
            Err(CapabilityLeaseError::IncidentMismatch)
        } else if opt_ref_view(self.session_ref) != session_ref {
            Err(CapabilityLeaseError::SessionMismatch)
        } else {
            Ok(())
        }
    }

    /// A lease is bound to its exact context: the context check passes
    /// exactly when the capability, resource, subject, actor, purpose,
    /// purpose version, scope, incident and session are the lease's own, and
    /// a lease for another capability is refused as a capability mismatch.
    pub proof fn lemma_bound_to_context(
        &self,
        capability_ref: ResourceRef,
        resource_ref: Option<ResourceRefView>,
        subject_ref: ResourceRef,
        actor_ref: Option<ResourceRefView>,
        purpose: Seq<char>,
        purpose_version: Option<Seq<char>>,
        scope: Seq<char>,
        incident_ref: Option<ResourceRefView>,
        session_ref: Option<ResourceRefView>,
    )
        ensures
            self.context_check(
                capability_ref,
                resource_ref,
                subject_ref,
                actor_ref,
                purpose,
                purpose_version,
                scope,
                incident_ref,
                session_ref,
            ) is Ok <==> (self.capability_ref@ == capability_ref@ && opt_ref_view(self.resource_ref) == resource_ref
                && self.subject_ref@ == subject_ref@ && opt_ref_view(self.actor_ref) == actor_ref && self.purpose@
                == purpose && string_view_of(self.purpose_version) == purpose_version && self.scope@ == scope
                && opt_ref_view(self.incident_ref) == incident_ref && opt_ref_view(self.session_ref) == session_ref),
            self.capability_ref@ != capability_ref@ ==> self.context_check(
                capability_ref,
                resource_ref,
                subject_ref,
                actor_ref,
                purpose,
                purpose_version,
                scope,
                incident_ref,
                session_ref,
            ) == Err::<(), CapabilityLeaseError>(CapabilityLeaseError::CapabilityMismatch),
    {
    }

    /// What checking a use of the lease at `now` in this context answers.
    pub open spec fn use_outcome(
        &self,
        now: u64,
        capability_ref: ResourceRef,
        resource_ref: Option<ResourceRefView>,
        subject_ref: ResourceRef,
        actor_ref: Option<ResourceRefView>,
        purpose: Seq<char>,
        purpose_version: Option<Seq<char>>,
        scope: Seq<char>,
        incident_ref: Option<ResourceRefView>,
        session_ref: Option<ResourceRefView>,
    ) -> Result<(), CapabilityLeaseError> {
        if self.validity() is Err {
            self.validity()
        } else if self.expired_at(now) {
            Err(CapabilityLeaseError::Expired)
        } else if self.state != CapabilityLeaseState::Active {
            Err(CapabilityLeaseError::NotActivatable)
        } else {
            self.context_check(
                capability_ref,
                resource_ref,
                subject_ref,
                actor_ref,
                purpose,
                purpose_version,
                scope,
                incident_ref,
                session_ref,
            )
        }
    }

    /// Checks the exact context before a lease is used: valid, active, not
    /// expired, and bound to the same capability, resource, subject, actor,
    /// purpose, scope, incident and session.
    pub fn validate_use(
        &self,
        now_epoch_seconds: u64,
        capability_ref: &ResourceRef,
        resource_ref: Option<&ResourceRef>,
        subject_ref: &ResourceRef,
        actor_ref: Option<&ResourceRef>,
        purpose: &str,
        purpose_version: Option<&str>,
        scope: &str,
        incident_ref: Option<&ResourceRef>,
        session_ref: Option<&ResourceRef>,
    ) -> (r: Result<(), CapabilityLeaseError>)
        ensures
            r == self.use_outcome(
                now_epoch_seconds,
                *capability_ref,
                ref_view_of(resource_ref),
                *subject_ref,
                ref_view_of(actor_ref),
                purpose@,
                str_view_of(purpose_version),
                scope@,
                ref_view_of(incident_ref),
                ref_view_of(session_ref),
            ),
            r is Ok ==> self.state == CapabilityLeaseState::Active && !self.expired_at(now_epoch_seconds) && self.capability_ref@ == capability_ref@ && opt_ref_view(self.resource_ref) == ref_view_of(resource_ref) && self.subject_ref@
                == subject_ref@ && opt_ref_view(self.actor_ref) == ref_view_of(actor_ref) && self.purpose@ == purpose@
                && string_view_of(self.purpose_version) == str_view_of(purpose_version) && self.scope@ == scope@
                && opt_ref_view(self.incident_ref) == ref_view_of(incident_ref) && opt_ref_view(self.session_ref) == ref_view_of(session_ref),
    {
        proof {
            self.lemma_bound_to_context(*capability_ref, ref_view_of(resource_ref), *subject_ref, ref_view_of(actor_ref), purpose@, str_view_of(purpose_version), scope@, ref_view_of(incident_ref), ref_view_of(session_ref));
        }
        match self.validate() {
            Ok(()) => {},
            Err(e) => return Err(e),
        }
        if self.is_expired_at(now_epoch_seconds) || self.state != CapabilityLeaseState::Active {
            return Err(
                if self.is_expired_at(now_epoch_seconds) {
                    CapabilityLeaseError::Expired
                } else {
                    CapabilityLeaseError::NotActivatable
                },
            );
        }
        self.validate_context(
            capability_ref,
            resource_ref,
            subject_ref,
            actor_ref,
            purpose,
            purpose_version,
            scope,
            incident_ref,
            session_ref,
        )
    }

    /// Checks the exact context before an authorized lease is activated.
    pub fn validate_activation(
        &self,
        now_epoch_seconds: u64,
        capability_ref: &ResourceRef,
        resource_ref: Option<&ResourceRef>,
        subject_ref: &ResourceRef,
        actor_ref: Option<&ResourceRef>,
        purpose: &str,
        purpose_version: Option<&str>,
        scope: &str,
        incident_ref: Option<&ResourceRef>,
        session_ref: Option<&ResourceRef>,
    ) -> (r: Result<(), CapabilityLeaseError>)
        ensures
            r == if self.validity() is Err {
                self.validity()
            } else if self.expired_at(now_epoch_seconds) {
                Err(CapabilityLeaseError::Expired)
            } else if self.state != CapabilityLeaseState::Authorized {
                Err(CapabilityLeaseError::NotActivatable)
            } else {
                self.context_check(*capability_ref, ref_view_of(resource_ref), *subject_ref, ref_view_of(actor_ref), purpose@, str_view_of(purpose_version), scope@, ref_view_of(incident_ref), ref_view_of(session_ref))
            },
            r is Ok ==> self.state == CapabilityLeaseState::Authorized && !self.expired_at(now_epoch_seconds) && self.capability_ref@ == capability_ref@ && opt_ref_view(self.resource_ref) == ref_view_of(resource_ref)
                && self.subject_ref@ == subject_ref@ && opt_ref_view(self.actor_ref) == ref_view_of(actor_ref)
                && self.purpose@ == purpose@ && string_view_of(self.purpose_version) == str_view_of(purpose_version)
                && self.scope@ == scope@ && opt_ref_view(self.incident_ref) == ref_view_of(incident_ref)
                && opt_ref_view(self.session_ref) == ref_view_of(session_ref),
    {
        proof {
            self.lemma_bound_to_context(*capability_ref, ref_view_of(resource_ref), *subject_ref, ref_view_of(actor_ref), purpose@, str_view_of(purpose_version), scope@, ref_view_of(incident_ref), ref_view_of(session_ref));
        }
        match self.validate() {
            Ok(()) => {},
            Err(e) => return Err(e),
        }
        if self.is_expired_at(now_epoch_seconds) {
            return Err(CapabilityLeaseError::Expired);
        }
        if !self.state.can_activate() {
            return Err(CapabilityLeaseError::NotActivatable);
        }
        self.validate_context(
            capability_ref,
            resource_ref,
            subject_ref,
            actor_ref,
            purpose,
            purpose_version,
            scope,
            incident_ref,
            session_ref,
        )
    }

    fn validate_context(
        &self,
        capability_ref: &ResourceRef,
        resource_ref: Option<&ResourceRef>,
        subject_ref: &ResourceRef,
        actor_ref: Option<&ResourceRef>,
        purpose: &str,
        purpose_version: Option<&str>,
        scope: &str,
        incident_ref: Option<&ResourceRef>,
        session_ref: Option<&ResourceRef>,
    ) -> (r: Result<(), CapabilityLeaseError>)
        ensures
            r == self.context_check(*capability_ref, ref_view_of(resource_ref), *subject_ref, ref_view_of(actor_ref), purpose@, str_view_of(purpose_version), scope@, ref_view_of(incident_ref), ref_view_of(session_ref)),
    {
        if !self.capability_ref.same(capability_ref) {
            return Err(CapabilityLeaseError::CapabilityMismatch);
        }
        if !same_ref(&self.resource_ref, resource_ref) {
            return Err(CapabilityLeaseError::ResourceMismatch);
        }
        if !self.subject_ref.same(subject_ref) {
            return Err(CapabilityLeaseError::SubjectMismatch);
        }
        if !same_ref(&self.actor_ref, actor_ref) {
            return Err(CapabilityLeaseError::ActorMismatch);
        }
        if !str_eq(self.purpose.as_str(), purpose) {
            return Err(CapabilityLeaseError::PurposeMismatch);
        }
        if !same_text(&self.purpose_version, purpose_version) {
            return Err(CapabilityLeaseError::PurposeVersionMismatch);
        }
        if !str_eq(self.scope.as_str(), scope) {
            return Err(CapabilityLeaseError::ScopeMismatch);
        }
        if !same_ref(&self.incident_ref, incident_ref) {
            return Err(CapabilityLeaseError::IncidentMismatch);
        }
        if !same_ref(&self.session_ref, session_ref) {
            return Err(CapabilityLeaseError::SessionMismatch);
        }
        Ok(())
    }

    /// Moves the lease to `next` at `at_epoch_seconds`, recording the time
    /// of the move; only expiry may happen at or after the expiry time.
    pub fn transition(&mut self, next: CapabilityLeaseState, at_epoch_seconds: u64) -> (r: Result<
        (),
        CapabilityLeaseError,
    >)
        ensures
            !lease_step(old(self).state, next) ==> r == Err::<(), CapabilityLeaseError>(
                CapabilityLeaseError::InvalidTransition,
            ),
            lease_step(old(self).state, next) && next != CapabilityLeaseState::Expired
                && at_epoch_seconds >= old(self).expires_at_epoch_seconds ==> r == Err::<(), CapabilityLeaseError>(
                CapabilityLeaseError::Expired,
            ),
            r is Ok <==> lease_step(old(self).state, next) && (next == CapabilityLeaseState::Expired
                || at_epoch_seconds < old(self).expires_at_epoch_seconds),
            r is Err ==> *final(self) == *old(self),
            r is Ok ==> *final(self) == (match next {
                CapabilityLeaseState::Active => CapabilityLease {
                    state: next,
                    activated_at_epoch_seconds: Some(at_epoch_seconds),
                    ..*old(self)
                },
                CapabilityLeaseState::Revoked => CapabilityLease {
                    state: next,
                    revoked_at_epoch_seconds: Some(at_epoch_seconds),
                    ..*old(self)
                },
                CapabilityLeaseState::Cancelled => CapabilityLease {
                    state: next,
                    cancelled_at_epoch_seconds: Some(at_epoch_seconds),
                    ..*old(self)
                },
                CapabilityLeaseState::Released => CapabilityLease {
                    state: next,
                    released_at_epoch_seconds: Some(at_epoch_seconds),
                    ..*old(self)
                },
                CapabilityLeaseState::Expired => CapabilityLease {
                    state: next,
                    released_at_epoch_seconds: None,
                    ..*old(self)
                },
                _ => CapabilityLease { state: next, ..*old(self) },
            }),
    {
        if !self.state.can_transition_to(next) {
            return Err(CapabilityLeaseError::InvalidTransition);
        }
        if next != CapabilityLeaseState::Expired && at_epoch_seconds >= self.expires_at_epoch_seconds {
            return Err(CapabilityLeaseError::Expired);
        }
        self.state = next;
        match next {
            CapabilityLeaseState::Active => self.activated_at_epoch_seconds = Some(at_epoch_seconds),
            CapabilityLeaseState::Revoked => self.revoked_at_epoch_seconds = Some(at_epoch_seconds),
            CapabilityLeaseState::Cancelled => self.cancelled_at_epoch_seconds = Some(at_epoch_seconds),
            CapabilityLeaseState::Released => self.released_at_epoch_seconds = Some(at_epoch_seconds),
            CapabilityLeaseState::Expired => self.released_at_epoch_seconds = None,
            _ => {},
        }
        Ok(())
    }
}

} // verus!
