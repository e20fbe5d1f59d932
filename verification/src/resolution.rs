//! Resolutions of cases and their recorded outcomes.
use vstd::prelude::*;
use crate::id_map::{IdMap, strictly_sorted};
use crate::resource::{Id, texts_view};

verus! {

#[derive(Debug, Clone, Copy, PartialEq, Eq, Structural)]
pub enum ResolutionState {
    Open,
    Resolved,
    PartiallyResolved,
    Unresolved,
    Closed,
    Reopened,
}

/// The resolution state machine.
pub open spec fn resolution_step(from: ResolutionState, to: ResolutionState) -> bool {
    match (from, to) {
        (ResolutionState::Open, ResolutionState::Resolved) => true,
        (ResolutionState::Open, ResolutionState::PartiallyResolved) => true,
        (ResolutionState::Open, ResolutionState::Unresolved) => true,
        (ResolutionState::Resolved, ResolutionState::Reopened) => true,
        (ResolutionState::PartiallyResolved, ResolutionState::Reopened) => true,
        (ResolutionState::Unresolved, ResolutionState::Reopened) => true,
        (ResolutionState::Resolved, ResolutionState::Closed) => true,
        (ResolutionState::PartiallyResolved, ResolutionState::Closed) => true,
        (ResolutionState::Unresolved, ResolutionState::Closed) => true,
        (ResolutionState::Reopened, ResolutionState::Resolved) => true,
        (ResolutionState::Reopened, ResolutionState::PartiallyResolved) => true,
        (ResolutionState::Reopened, ResolutionState::Unresolved) => true,
        _ => false,
    }
}

/// States in which an outcome has been reached.
pub open spec fn completed(state: ResolutionState) -> bool {
    state == ResolutionState::Resolved || state == ResolutionState::PartiallyResolved || state
        == ResolutionState::Closed
}

fn is_completed(state: ResolutionState) -> (b: bool)
    ensures
        b == completed(state),
{
    match state {
        ResolutionState::Resolved | ResolutionState::PartiallyResolved | ResolutionState::Closed => true,
        _ => false,
    }
}

impl ResolutionState {
    pub fn can_transition_to(&self, next: &Self) -> (b: bool)
        ensures
            b == resolution_step(*self, *next),
    {
        match (self, next) {
            (ResolutionState::Open, ResolutionState::Resolved) => true,
            (ResolutionState::Open, ResolutionState::PartiallyResolved) => true,
            (ResolutionState::Open, ResolutionState::Unresolved) => true,
            (ResolutionState::Resolved, ResolutionState::Reopened) => true,
            (ResolutionState::PartiallyResolved, ResolutionState::Reopened) => true,
            (ResolutionState::Unresolved, ResolutionState::Reopened) => true,
            (ResolutionState::Resolved, ResolutionState::Closed) => true,
            (ResolutionState::PartiallyResolved, ResolutionState::Closed) => true,
            (ResolutionState::Unresolved, ResolutionState::Closed) => true,
            (ResolutionState::Reopened, ResolutionState::Resolved) => true,
            (ResolutionState::Reopened, ResolutionState::PartiallyResolved) => true,
            (ResolutionState::Reopened, ResolutionState::Unresolved) => true,
            _ => false,
        }
    }
}

/// A closed resolution is final, and nothing leads back to `Open`.
pub proof fn lemma_resolution_closed_is_final(from: ResolutionState, to: ResolutionState)
    requires
        resolution_step(from, to),
    ensures
        from != ResolutionState::Closed,
        to != ResolutionState::Open,
{
}

#[derive(Debug, Clone, PartialEq, Eq)]
pub struct Resolution {
    pub resolution_id: Id,
    pub case_id: Id,
    pub remedy_id: Option<Id>,
    pub escalation_id: Option<Id>,
    pub response_id: Option<Id>,
    pub requested_outcome: String,
    pub recorded_outcome: Option<String>,
    pub state: ResolutionState,
    pub source_refs: Vec<Id>,
    pub evidence_refs: Vec<Id>,
}

impl Resolution {
    pub open spec fn validity(&self) -> Result<(), &'static str> {
        if self.resolution_id@.len() == 0 {
            Err("resolution id is required")
        } else if self.case_id@.len() == 0 {
            Err("resolution case is required")
        } else if self.requested_outcome@.len() == 0 {
            Err("requested outcome is required")
        } else if self.source_refs@.len() == 0 {
            Err("resolution source references are required")
        } else if completed(self.state) && self.recorded_outcome is None {
            Err("recorded outcome is required for completed resolution")
        } else {
            Ok(())
        }
    }

    pub fn validate(&self) -> (r: Result<(), &'static str>)
        ensures
            r == self.validity(),
    {
        if self.resolution_id.as_str().is_empty() {
            return Err("resolution id is required");
        }
        if self.case_id.as_str().is_empty() {
            return Err("resolution case is required");
        }
        if self.requested_outcome.as_str().is_empty() {
            return Err("requested outcome is required");
        }
        if self.source_refs.len() == 0 {
            return Err("resolution source references are required");
        }
        if is_completed(self.state) && self.recorded_outcome.is_none() {
            return Err("recorded outcome is required for completed resolution");
        }
        Ok(())
    }
}

/// Every completed resolution records its outcome.
pub open spec fn completed_with_outcome(m: Map<Seq<char>, Resolution>) -> bool {
    forall|k: Seq<char>| #[trigger] m.contains_key(k) && completed(m[k].state) ==> m[k].recorded_outcome is Some
}

pub struct ResolutionRegistry {
    resolutions: IdMap<Resolution>,
}

impl ResolutionRegistry {
    pub closed spec fn wf(&self) -> bool {
        self.resolutions.wf()
    }

    pub closed spec fn resolution_map(&self) -> Map<Seq<char>, Resolution> {
        self.resolutions.map()
    }

    pub fn new() -> (r: Self)
        ensures
            r.wf(),
            r.resolution_map() == Map::<Seq<char>, Resolution>::empty(),
    {
        ResolutionRegistry { resolutions: IdMap::new() }
    }

    pub open spec fn insertion(&self, resolution: Resolution) -> Result<(), &'static str> {
        if resolution.validity() is Err {
            resolution.validity()
        } else if self.resolution_map().contains_key(resolution.resolution_id@) {
            Err("duplicate resolution id")
        } else {
            Ok(())
        }
    }

    /// Stores a valid resolution under a fresh id.
    pub fn insert(&mut self, resolution: Resolution) -> (r: Result<(), &'static str>)
        requires
            old(self).wf(),
        ensures
            final(self).wf(),
            r == old(self).insertion(resolution),
            r is Ok ==> final(self).resolution_map() == old(self).resolution_map().insert(
                resolution.resolution_id@,
                resolution,
            ),
            r is Err ==> final(self).resolution_map() == old(self).resolution_map(),
            completed_with_outcome(old(self).resolution_map()) ==> completed_with_outcome(final(self).resolution_map()),
    {
        match resolution.validate() {
            Ok(()) => {},
            Err(e) => return Err(e),
        }
        if self.resolutions.contains_key(resolution.resolution_id.as_str()) {
            return Err("duplicate resolution id");
        }
        let key = resolution.resolution_id.clone();
        self.resolutions.insert_new(key, resolution);
        Ok(())
    }

    pub open spec fn transition_outcome(&self, id: Seq<char>, next: ResolutionState) -> Result<(), &'static str> {
        if !self.resolution_map().contains_key(id) {
            Err("resolution not found")
        } else if !resolution_step(self.resolution_map()[id].state, next) {
            Err("invalid resolution state transition")
        } else if completed(next) && self.resolution_map()[id].recorded_outcome is None {
            Err("recorded outcome is required for completed resolution")
        } else {
            Ok(())
        }
    }

    /// Moves a resolution to `next`; completing it needs a recorded outcome.
    pub fn transition(&mut self, resolution_id: &Id, next: ResolutionState) -> (r: Result<(), &'static str>)
        requires
            old(self).wf(),
        ensures
            final(self).wf(),
            r == old(self).transition_outcome(resolution_id@, next),
            r is Ok ==> final(self).resolution_map() == old(self).resolution_map().insert(
                resolution_id@,
                Resolution { state: next, ..old(self).resolution_map()[resolution_id@] },
            ),
            r is Err ==> final(self).resolution_map() == old(self).resolution_map(),
            completed_with_outcome(old(self).resolution_map()) ==> completed_with_outcome(final(self).resolution_map()),
    {
        let (allowed, has_outcome) = match self.resolutions.get(resolution_id.as_str()) {
            None => return Err("resolution not found"),
            Some(v) => (v.state.can_transition_to(&next), v.recorded_outcome.is_some()),
        };
        if !allowed {
            return Err("invalid resolution state transition");
        }
        if is_completed(next) && !has_outcome {
            return Err("recorded outcome is required for completed resolution");
        }
        let mut item = self.resolutions.take(resolution_id.as_str());
        item.state = next;
        self.resolutions.insert_new(resolution_id.clone(), item);
        Ok(())
    }

    pub fn get(&self, id: &Id) -> (r: Option<&Resolution>)
        requires
            self.wf(),
        ensures
            r is Some <==> self.resolution_map().contains_key(id@),
            r matches Some(v) ==> *v == self.resolution_map()[id@],
    {
        self.resolutions.get(id.as_str())
    }

    /// Resolution ids in ascending order.
    pub fn ids(&self) -> (r: Vec<Id>)
        requires
            self.wf(),
        ensures
            strictly_sorted(texts_view(r@)),
            forall|k: Seq<char>| self.resolution_map().contains_key(k) <==> texts_view(r@).contains(k),
    {
        let r = self.resolutions.keys();
        assert(texts_view(r@) =~= r@.map_values(|s: String| s@));
        r
    }
}

impl Default for ResolutionRegistry {
    fn default() -> (r: Self)
        ensures
            r.wf(),
            r.resolution_map() == Map::<Seq<char>, Resolution>::empty(),
    {
        ResolutionRegistry::new()
    }
}

} // verus!
