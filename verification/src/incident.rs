//! Incident lifecycle.
use vstd::prelude::*;
use crate::resource::Id;

verus! {

#[derive(Debug, Clone, PartialEq, Eq, Structural)]
pub enum IncidentState {
    Open,
    Recorded,
    UnderReview,
    Resolved,
    Closed,
}

/// The incident state machine: a single forward path.
pub open spec fn incident_step(from: IncidentState, to: IncidentState) -> bool {
    match (from, to) {
        (IncidentState::Open, IncidentState::Recorded) => true,
        (IncidentState::Recorded, IncidentState::UnderReview) => true,
        (IncidentState::UnderReview, IncidentState::Resolved) => true,
        (IncidentState::Resolved, IncidentState::Closed) => true,
        _ => false,
    }
}

/// Position of a state on the incident path.
pub open spec fn incident_rank(s: IncidentState) -> int {
    match s {
        IncidentState::Open => 0,
        IncidentState::Recorded => 1,
        IncidentState::UnderReview => 2,
        IncidentState::Resolved => 3,
        IncidentState::Closed => 4,
    }
}

impl IncidentState {
    /// A copy of the state.
    pub fn duplicate(&self) -> (r: IncidentState)
        ensures
            r == *self,
    {
        match self {
            IncidentState::Open => IncidentState::Open,
            IncidentState::Recorded => IncidentState::Recorded,
            IncidentState::UnderReview => IncidentState::UnderReview,
            IncidentState::Resolved => IncidentState::Resolved,
            IncidentState::Closed => IncidentState::Closed,
        }
    }

    pub fn can_transition_to(&self, next: &Self) -> (b: bool)
        ensures
            b == incident_step(*self, *next),
    {
        match (self, next) {
            (IncidentState::Open, IncidentState::Recorded) => true,
            (IncidentState::Recorded, IncidentState::UnderReview) => true,
            (IncidentState::UnderReview, IncidentState::Resolved) => true,
            (IncidentState::Resolved, IncidentState::Closed) => true,
            _ => false,
        }
    }
}

#[derive(Debug, Clone, PartialEq, Eq)]
pub struct Incident {
    pub incident_id: Id,
    pub state: IncidentState,
}

impl Incident {
    /// A copy of the incident.
    pub fn duplicate(&self) -> (r: Incident)
        ensures
            r == *self,
    {
        Incident { incident_id: self.incident_id.clone(), state: self.state.duplicate() }
    }

    /// A new incident with a non-empty id starts `Open`.
    pub fn new(incident_id: Id) -> (r: Result<Self, &'static str>)
        ensures
            incident_id@.len() == 0 ==> r == Err::<Incident, &'static str>("incident id is required"),
            incident_id@.len() > 0 ==> r == Ok::<Incident, &'static str>(
                Incident { incident_id, state: IncidentState::Open },
            ),
    {
        if incident_id.as_str().is_empty() {
            return Err("incident id is required");
        }
        Ok(Incident { incident_id, state: IncidentState::Open })
    }

    pub fn transition(&mut self, next: IncidentState) -> (r: Result<(), &'static str>)
        ensures
            incident_step(old(self).state, next) ==> r is Ok && *final(self) == (Incident { state: next, ..*old(self) }),
            !incident_step(old(self).state, next) ==> r == Err::<(), &'static str>("invalid incident state transition")
                && *final(self) == *old(self),
    {
        if !self.state.can_transition_to(&next) {
            return Err("invalid incident state transition");
        }
        self.state = next;
        Ok(())
    }
}

/// Every incident transition moves exactly one step forward along the path,
/// so an incident can never return to an earlier state.
pub proof fn lemma_incident_moves_forward(from: IncidentState, to: IncidentState)
    requires
        incident_step(from, to),
    ensures
        incident_rank(to) == incident_rank(from) + 1,
{
}

} // verus!
