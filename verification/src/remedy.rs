//! Remedies that a case may pursue, and their review states.
use vstd::prelude::*;
use crate::id_map::{IdMap, strictly_sorted};
use crate::resource::{Id, texts_view};

verus! {

#[derive(Debug, Clone, Copy, PartialEq, Eq, Structural)]
pub enum ApplicabilityStatus {
    Unverified,
    Verified,
    Uncertain,
    ReviewRequired,
}

/// The applicability review machine.
pub open spec fn applicability_step(from: ApplicabilityStatus, to: ApplicabilityStatus) -> bool {
    match (from, to) {
        (ApplicabilityStatus::Unverified, ApplicabilityStatus::Verified) => true,
        (ApplicabilityStatus::Unverified, ApplicabilityStatus::Uncertain) => true,
        (ApplicabilityStatus::Unverified, ApplicabilityStatus::ReviewRequired) => true,
        (ApplicabilityStatus::Verified, ApplicabilityStatus::Uncertain) => true,
        (ApplicabilityStatus::Verified, ApplicabilityStatus::ReviewRequired) => true,
        (ApplicabilityStatus::Uncertain, ApplicabilityStatus::Verified) => true,
        (ApplicabilityStatus::Uncertain, ApplicabilityStatus::ReviewRequired) => true,
        (ApplicabilityStatus::ReviewRequired, ApplicabilityStatus::Verified) => true,
        (ApplicabilityStatus::ReviewRequired, ApplicabilityStatus::Uncertain) => true,
        _ => false,
    }
}

impl ApplicabilityStatus {
    pub fn can_transition_to(&self, next: &Self) -> (b: bool)
        ensures
            b == applicability_step(*self, *next),
    {
        match (self, next) {
            (ApplicabilityStatus::Unverified, ApplicabilityStatus::Verified) => true,
            (ApplicabilityStatus::Unverified, ApplicabilityStatus::Uncertain) => true,
            (ApplicabilityStatus::Unverified, ApplicabilityStatus::ReviewRequired) => true,
            (ApplicabilityStatus::Verified, ApplicabilityStatus::Uncertain) => true,
            (ApplicabilityStatus::Verified, ApplicabilityStatus::ReviewRequired) => true,
            (ApplicabilityStatus::Uncertain, ApplicabilityStatus::Verified) => true,
            (ApplicabilityStatus::Uncertain, ApplicabilityStatus::ReviewRequired) => true,
            (ApplicabilityStatus::ReviewRequired, ApplicabilityStatus::Verified) => true,
            (ApplicabilityStatus::ReviewRequired, ApplicabilityStatus::Uncertain) => true,
            _ => false,
        }
    }
}

/// Once reviewed, applicability never returns to `Unverified`.
pub proof fn lemma_applicability_never_unverified_again(from: ApplicabilityStatus, to: ApplicabilityStatus)
    requires
        applicability_step(from, to),
    ensures
        to != ApplicabilityStatus::Unverified,
{
}

#[derive(Debug, Clone, Copy, PartialEq, Eq, Structural)]
pub enum RemedyState {
    Candidate,
    Requested,
    UnderReview,
    Submitted,
    Granted,
    Denied,
    Withdrawn,
    Expired,
}

/// The remedy state machine.
pub open spec fn remedy_step(from: RemedyState, to: RemedyState) -> bool {
    match (from, to) {
        (RemedyState::Candidate, RemedyState::Requested) => true,
        (RemedyState::Candidate, RemedyState::UnderReview) => true,
        (RemedyState::Candidate, RemedyState::Withdrawn) => true,
        (RemedyState::Requested, RemedyState::UnderReview) => true,
        (RemedyState::Requested, RemedyState::Withdrawn) => true,
        (RemedyState::UnderReview, RemedyState::Submitted) => true,
        (RemedyState::UnderReview, RemedyState::Withdrawn) => true,
        (RemedyState::Submitted, RemedyState::Granted) => true,
        (RemedyState::Submitted, RemedyState::Denied) => true,
        (RemedyState::Submitted, RemedyState::Expired) => true,
        (RemedyState::Granted, RemedyState::Expired) => true,
        _ => false,
    }
}

impl RemedyState {
    pub fn can_transition_to(&self, next: &Self) -> (b: bool)
        ensures
            b == remedy_step(*self, *next),
    {
        match (self, next) {
            (RemedyState::Candidate, RemedyState::Requested) => true,
            (RemedyState::Candidate, RemedyState::UnderReview) => true,
            (RemedyState::Candidate, RemedyState::Withdrawn) => true,
            (RemedyState::Requested, RemedyState::UnderReview) => true,
            (RemedyState::Requested, RemedyState::Withdrawn) => true,
            (RemedyState::UnderReview, RemedyState::Submitted) => true,
            (RemedyState::UnderReview, RemedyState::Withdrawn) => true,
            (RemedyState::Submitted, RemedyState::Granted) => true,
            (RemedyState::Submitted, RemedyState::Denied) => true,
            (RemedyState::Submitted, RemedyState::Expired) => true,
            (RemedyState::Granted, RemedyState::Expired) => true,
            _ => false,
        }
    }
}

/// Denied, withdrawn and expired remedies are final.
pub proof fn lemma_remedy_final_states(from: RemedyState, to: RemedyState)
    requires
        from == RemedyState::Denied || from == RemedyState::Withdrawn || from == RemedyState::Expired,
    ensures
        !remedy_step(from, to),
{
}

#[derive(Debug, Clone, PartialEq, Eq)]
pub struct Remedy {
    pub remedy_id: Id,
    pub case_id: Id,
    pub escalation_id: Option<Id>,
    pub category: String,
    pub description: String,
    pub state: RemedyState,
    pub applicability: ApplicabilityStatus,
    pub source_refs: Vec<Id>,
    pub evidence_refs: Vec<Id>,
}

impl Remedy {
    pub open spec fn validity(&self) -> Result<(), &'static str> {
        if self.remedy_id@.len() == 0 {
            Err("remedy id is required")
        } else if self.case_id@.len() == 0 {
            Err("remedy case is required")
        } else if self.category@.len() == 0 {
            Err("remedy category is required")
        } else if self.description@.len() == 0 {
            Err("remedy description is required")
        } else if self.source_refs@.len() == 0 {
            Err("remedy source references are required")
        } else {
            Ok(())
        }
    }

    pub fn validate(&self) -> (r: Result<(), &'static str>)
        ensures
            r == self.validity(),
    {
        if self.remedy_id.as_str().is_empty() {
            return Err("remedy id is required");
        }
        if self.case_id.as_str().is_empty() {
            return Err("remedy case is required");
        }
        if self.category.as_str().is_empty() {
            return Err("remedy category is required");
        }
        if self.description.as_str().is_empty() {
            return Err("remedy description is required");
        }
        if self.source_refs.len() == 0 {
            return Err("remedy source references are required");
        }
        Ok(())
    }
}

pub struct RemedyRegistry {
    remedies: IdMap<Remedy>,
}

impl RemedyRegistry {
    pub closed spec fn wf(&self) -> bool {
        self.remedies.wf()
    }

    pub closed spec fn remedy_map(&self) -> Map<Seq<char>, Remedy> {
        self.remedies.map()
    }

    pub fn new() -> (r: Self)
        ensures
            r.wf(),
            r.remedy_map() == Map::<Seq<char>, Remedy>::empty(),
    {
        RemedyRegistry { remedies: IdMap::new() }
    }

    pub open spec fn insertion(&self, remedy: Remedy) -> Result<(), &'static str> {
        if remedy.validity() is Err {
            remedy.validity()
        } else if self.remedy_map().contains_key(remedy.remedy_id@) {
            Err("duplicate remedy id")
        } else {
            Ok(())
        }
    }

    /// Stores a valid remedy under a fresh id.
    pub fn insert(&mut self, remedy: Remedy) -> (r: Result<(), &'static str>)
        requires
            old(self).wf(),
        ensures
            final(self).wf(),
            r == old(self).insertion(remedy),
            r is Ok ==> final(self).remedy_map() == old(self).remedy_map().insert(remedy.remedy_id@, remedy),
            r is Err ==> final(self).remedy_map() == old(self).remedy_map(),
    {
        match remedy.validate() {
            Ok(()) => {},
            Err(e) => return Err(e),
        }
        if self.remedies.contains_key(remedy.remedy_id.as_str()) {
            return Err("duplicate remedy id");
        }
        let key = remedy.remedy_id.clone();
        self.remedies.insert_new(key, remedy);
        Ok(())
    }

    /// Moves a remedy to `next` when the state machine allows it.
    pub fn transition(&mut self, remedy_id: &Id, next: RemedyState) -> (r: Result<(), &'static str>)
        requires
            old(self).wf(),
        ensures
            final(self).wf(),
            !old(self).remedy_map().contains_key(remedy_id@) ==> r == Err::<(), &'static str>("remedy not found"),
            old(self).remedy_map().contains_key(remedy_id@) && !remedy_step(old(self).remedy_map()[remedy_id@].state, next)
                ==> r == Err::<(), &'static str>("invalid remedy state transition"),
            r is Ok <==> old(self).remedy_map().contains_key(remedy_id@) && remedy_step(
                old(self).remedy_map()[remedy_id@].state,
                next,
            ),
            r is Ok ==> final(self).remedy_map() == old(self).remedy_map().insert(
                remedy_id@,
                Remedy { state: next, ..old(self).remedy_map()[remedy_id@] },
            ),
            r is Err ==> final(self).remedy_map() == old(self).remedy_map(),
    {
        let allowed = match self.remedies.get(remedy_id.as_str()) {
            None => return Err("remedy not found"),
            Some(v) => v.state.can_transition_to(&next),
        };
        if !allowed {
            return Err("invalid remedy state transition");
        }
        let mut item = self.remedies.take(remedy_id.as_str());
        item.state = next;
        self.remedies.insert_new(remedy_id.clone(), item);
        Ok(())
    }

    /// Moves a remedy's applicability to `next` when its review machine
    /// allows it.
    pub fn transition_applicability(&mut self, remedy_id: &Id, next: ApplicabilityStatus) -> (r: Result<
        (),
        &'static str,
    >)
        requires
            old(self).wf(),
        ensures
            final(self).wf(),
            !old(self).remedy_map().contains_key(remedy_id@) ==> r == Err::<(), &'static str>("remedy not found"),
            old(self).remedy_map().contains_key(remedy_id@) && !applicability_step(
                old(self).remedy_map()[remedy_id@].applicability,
                next,
            ) ==> r == Err::<(), &'static str>("invalid remedy applicability transition"),
            r is Ok <==> old(self).remedy_map().contains_key(remedy_id@) && applicability_step(
                old(self).remedy_map()[remedy_id@].applicability,
                next,
            ),
            r is Ok ==> final(self).remedy_map() == old(self).remedy_map().insert(
                remedy_id@,
                Remedy { applicability: next, ..old(self).remedy_map()[remedy_id@] },
            ),
            r is Err ==> final(self).remedy_map() == old(self).remedy_map(),
    {
        let allowed = match self.remedies.get(remedy_id.as_str()) {
            None => return Err("remedy not found"),
            Some(v) => v.applicability.can_transition_to(&next),
        };
        if !allowed {
            return Err("invalid remedy applicability transition");
        }
        let mut item = self.remedies.take(remedy_id.as_str());
        item.applicability = next;
        self.remedies.insert_new(remedy_id.clone(), item);
        Ok(())
    }

    pub fn get(&self, id: &Id) -> (r: Option<&Remedy>)
        requires
            self.wf(),
        ensures
            r is Some <==> self.remedy_map().contains_key(id@),
            r matches Some(v) ==> *v == self.remedy_map()[id@],
    {
        self.remedies.get(id.as_str())
    }

    /// Remedy ids in ascending order.
    pub fn ids(&self) -> (r: Vec<Id>)
        requires
            self.wf(),
        ensures
            strictly_sorted(texts_view(r@)),
            forall|k: Seq<char>| self.remedy_map().contains_key(k) <==> texts_view(r@).contains(k),
    {
        let r = self.remedies.keys();
        assert(texts_view(r@) =~= r@.map_values(|s: String| s@));
        r
    }
}

impl Default for RemedyRegistry {
    fn default() -> (r: Self)
        ensures
            r.wf(),
            r.remedy_map() == Map::<Seq<char>, Remedy>::empty(),
    {
        RemedyRegistry::new()
    }
}

} // verus!
