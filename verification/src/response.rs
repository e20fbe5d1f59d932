//! Responses to obligations and escalations to other bodies.
use vstd::prelude::*;
use crate::id_map::{IdMap, strictly_sorted};
use crate::resource::{Id, texts_view};

verus! {

#[derive(Debug, Clone, Copy, PartialEq, Eq, Structural)]
pub enum ResponseState {
    Draft,
    ReviewRequired,
    Approved,
    Submitted,
    Withdrawn,
    Resolved,
}

/// The response state machine.
pub open spec fn response_step(from: ResponseState, to: ResponseState) -> bool {
    match (from, to) {
        (ResponseState::Draft, ResponseState::ReviewRequired) => true,
        (ResponseState::Draft, ResponseState::Approved) => true,
        (ResponseState::Draft, ResponseState::Withdrawn) => true,
        (ResponseState::ReviewRequired, ResponseState::Approved) => true,
        (ResponseState::ReviewRequired, ResponseState::Draft) => true,
        (ResponseState::ReviewRequired, ResponseState::Withdrawn) => true,
        (ResponseState::Approved, ResponseState::Submitted) => true,
        (ResponseState::Approved, ResponseState::Withdrawn) => true,
        (ResponseState::Submitted, ResponseState::Resolved) => true,
        _ => false,
    }
}

impl ResponseState {
    pub fn can_transition_to(&self, next: &Self) -> (b: bool)
        ensures
            b == response_step(*self, *next),
    {
        match (self, next) {
            (ResponseState::Draft, ResponseState::ReviewRequired) => true,
            (ResponseState::Draft, ResponseState::Approved) => true,
            (ResponseState::Draft, ResponseState::Withdrawn) => true,
            (ResponseState::ReviewRequired, ResponseState::Approved) => true,
            (ResponseState::ReviewRequired, ResponseState::Draft) => true,
            (ResponseState::ReviewRequired, ResponseState::Withdrawn) => true,
            (ResponseState::Approved, ResponseState::Submitted) => true,
            (ResponseState::Approved, ResponseState::Withdrawn) => true,
            (ResponseState::Submitted, ResponseState::Resolved) => true,
            _ => false,
        }
    }
}

/// A response is submitted only after approval.
pub proof fn lemma_submission_needs_approval(from: ResponseState)
    requires
        response_step(from, ResponseState::Submitted),
    ensures
        from == ResponseState::Approved,
{
}

#[derive(Debug, Clone, PartialEq, Eq)]
pub struct Response {
    pub response_id: Id,
    pub case_id: Id,
    pub obligation_id: Option<Id>,
    pub title: String,
    pub content_ref: Id,
    pub state: ResponseState,
    pub evidence_refs: Vec<Id>,
    pub source_refs: Vec<Id>,
}

impl Response {
    pub open spec fn validity(&self) -> Result<(), &'static str> {
        if self.response_id@.len() == 0 {
            Err("response id is required")
        } else if self.case_id@.len() == 0 {
            Err("response case is required")
        } else if self.title@.len() == 0 {
            Err("response title is required")
        } else if self.content_ref@.len() == 0 {
            Err("response content reference is required")
        } else if self.source_refs@.len() == 0 {
            Err("response source references are required")
        } else {
            Ok(())
        }
    }

    pub fn validate(&self) -> (r: Result<(), &'static str>)
        ensures
            r == self.validity(),
    {
        if self.response_id.as_str().is_empty() {
            return Err("response id is required");
        }
        if self.case_id.as_str().is_empty() {
            return Err("response case is required");
        }
        if self.title.as_str().is_empty() {
            return Err("response title is required");
        }
        if self.content_ref.as_str().is_empty() {
            return Err("response content reference is required");
        }
        if self.source_refs.len() == 0 {
            return Err("response source references are required");
        }
        Ok(())
    }
}

#[derive(Debug, Clone, Copy, PartialEq, Eq, Structural)]
pub enum EscalationState {
    Draft,
    Ready,
    Submitted,
    Resolved,
    Withdrawn,
}

/// The escalation state machine.
pub open spec fn escalation_step(from: EscalationState, to: EscalationState) -> bool {
    match (from, to) {
        (EscalationState::Draft, EscalationState::Ready) => true,
        (EscalationState::Draft, EscalationState::Withdrawn) => true,
        (EscalationState::Ready, EscalationState::Submitted) => true,
        (EscalationState::Ready, EscalationState::Withdrawn) => true,
        (EscalationState::Submitted, EscalationState::Resolved) => true,
        _ => false,
    }
}

impl EscalationState {
    pub fn can_transition_to(&self, next: &Self) -> (b: bool)
        ensures
            b == escalation_step(*self, *next),
    {
        match (self, next) {
            (EscalationState::Draft, EscalationState::Ready) => true,
            (EscalationState::Draft, EscalationState::Withdrawn) => true,
            (EscalationState::Ready, EscalationState::Submitted) => true,
            (EscalationState::Ready, EscalationState::Withdrawn) => true,
            (EscalationState::Submitted, EscalationState::Resolved) => true,
            _ => false,
        }
    }
}

#[derive(Debug, Clone, PartialEq, Eq)]
pub struct Escalation {
    pub escalation_id: Id,
    pub case_id: Id,
    pub reason: String,
    pub target_ref: Id,
    pub response_id: Option<Id>,
    pub state: EscalationState,
    pub evidence_refs: Vec<Id>,
    pub source_refs: Vec<Id>,
}

impl Escalation {
    pub open spec fn validity(&self) -> Result<(), &'static str> {
        if self.escalation_id@.len() == 0 {
            Err("escalation id is required")
        } else if self.case_id@.len() == 0 {
            Err("escalation case is required")
        } else if self.reason@.len() == 0 {
            Err("escalation reason is required")
        } else if self.target_ref@.len() == 0 {
            Err("escalation target is required")
        } else if self.source_refs@.len() == 0 {
            Err("escalation source references are required")
        } else {
            Ok(())
        }
    }

    pub fn validate(&self) -> (r: Result<(), &'static str>)
        ensures
            r == self.validity(),
    {
        if self.escalation_id.as_str().is_empty() {
            return Err("escalation id is required");
        }
        if self.case_id.as_str().is_empty() {
            return Err("escalation case is required");
        }
        if self.reason.as_str().is_empty() {
            return Err("escalation reason is required");
        }
        if self.target_ref.as_str().is_empty() {
            return Err("escalation target is required");
        }
        if self.source_refs.len() == 0 {
            return Err("escalation source references are required");
        }
        Ok(())
    }
}

pub struct ResponseRegistry {
    responses: IdMap<Response>,
    escalations: IdMap<Escalation>,
}

/// Every escalation that names a response names a stored one.
pub open spec fn escalations_attached(
    responses: Map<Seq<char>, Response>,
    escalations: Map<Seq<char>, Escalation>,
) -> bool {
    forall|k: Seq<char>| #[trigger]
        escalations.contains_key(k) && escalations[k].response_id is Some ==> responses.contains_key(
            escalations[k].response_id->0@,
        )
}

impl ResponseRegistry {
    pub closed spec fn wf(&self) -> bool {
        self.responses.wf() && self.escalations.wf()
    }

    pub closed spec fn response_map(&self) -> Map<Seq<char>, Response> {
        self.responses.map()
    }

    pub closed spec fn escalation_map(&self) -> Map<Seq<char>, Escalation> {
        self.escalations.map()
    }

    pub fn new() -> (r: Self)
        ensures
            r.wf(),
            r.response_map() == Map::<Seq<char>, Response>::empty(),
            r.escalation_map() == Map::<Seq<char>, Escalation>::empty(),
    {
        ResponseRegistry { responses: IdMap::new(), escalations: IdMap::new() }
    }

    pub open spec fn response_insertion(&self, response: Response) -> Result<(), &'static str> {
        if response.validity() is Err {
            response.validity()
        } else if self.response_map().contains_key(response.response_id@) {
            Err("duplicate response id")
        } else {
            Ok(())
        }
    }

    /// Stores a valid response under a fresh id.
    pub fn insert_response(&mut self, response: Response) -> (r: Result<(), &'static str>)
        requires
            old(self).wf(),
        ensures
            final(self).wf(),
            r == old(self).response_insertion(response),
            r is Ok ==> final(self).response_map() == old(self).response_map().insert(response.response_id@, response),
            r is Err ==> final(self).response_map() == old(self).response_map(),
            final(self).escalation_map() == old(self).escalation_map(),
            escalations_attached(old(self).response_map(), old(self).escalation_map()) ==> escalations_attached(
                final(self).response_map(),
                final(self).escalation_map(),
            ),
    {
        match response.validate() {
            Ok(()) => {},
            Err(e) => return Err(e),
        }
        if self.responses.contains_key(response.response_id.as_str()) {
            return Err("duplicate response id");
        }
        let key = response.response_id.clone();
        self.responses.insert_new(key, response);
        Ok(())
    }

    /// Moves a response to `next` when its state machine allows it.
    pub fn transition_response(&mut self, response_id: &Id, next: ResponseState) -> (r: Result<(), &'static str>)
        requires
            old(self).wf(),
        ensures
            final(self).wf(),
            !old(self).response_map().contains_key(response_id@) ==> r == Err::<(), &'static str>("response not found"),
            old(self).response_map().contains_key(response_id@) && !response_step(old(self).response_map()[response_id@].state, next)
                ==> r == Err::<(), &'static str>("invalid response state transition"),
            r is Ok <==> old(self).response_map().contains_key(response_id@) && response_step(
                old(self).response_map()[response_id@].state,
                next,
            ),
            r is Ok ==> final(self).response_map() == old(self).response_map().insert(
                response_id@,
                Response { state: next, ..old(self).response_map()[response_id@] },
            ),
            r is Err ==> final(self).response_map() == old(self).response_map(),
            final(self).escalation_map() == old(self).escalation_map(),
    {
        let allowed = match self.responses.get(response_id.as_str()) {
            None => return Err("response not found"),
            Some(v) => v.state.can_transition_to(&next),
        };
        if !allowed {
            return Err("invalid response state transition");
        }
        let mut item = self.responses.take(response_id.as_str());
        item.state = next;
        self.responses.insert_new(response_id.clone(), item);
        Ok(())
    }

    pub open spec fn escalation_insertion(&self, escalation: Escalation) -> Result<(), &'static str> {
        if escalation.validity() is Err {
            escalation.validity()
        } else if self.escalation_map().contains_key(escalation.escalation_id@) {
            Err("duplicate escalation id")
        } else if escalation.response_id matches Some(r) && !self.response_map().contains_key(r@) {
            Err("escalation response not found")
        } else {
            Ok(())
        }
    }

    /// Stores a valid escalation under a fresh id; a named response must be
    /// stored.
    pub fn insert_escalation(&mut self, escalation: Escalation) -> (r: Result<(), &'static str>)
        requires
            old(self).wf(),
        ensures
            final(self).wf(),
            r == old(self).escalation_insertion(escalation),
            r is Ok ==> final(self).escalation_map() == old(self).escalation_map().insert(
                escalation.escalation_id@,
                escalation,
            ),
            r is Err ==> final(self).escalation_map() == old(self).escalation_map(),
            final(self).response_map() == old(self).response_map(),
            escalations_attached(old(self).response_map(), old(self).escalation_map()) ==> escalations_attached(
                final(self).response_map(),
                final(self).escalation_map(),
            ),
    {
        match escalation.validate() {
            Ok(()) => {},
            Err(e) => return Err(e),
        }
        if self.escalations.contains_key(escalation.escalation_id.as_str()) {
            return Err("duplicate escalation id");
        }
        let missing = match &escalation.response_id {
            Some(response_id) => !self.responses.contains_key(response_id.as_str()),
            None => false,
        };
        if missing {
            return Err("escalation response not found");
        }
        let key = escalation.escalation_id.clone();
        self.escalations.insert_new(key, escalation);
        Ok(())
    }

    /// Moves a escalation to `next` when its state machine allows it.
    pub fn transition_escalation(&mut self, escalation_id: &Id, next: EscalationState) -> (r: Result<(), &'static str>)
        requires
            old(self).wf(),
        ensures
            final(self).wf(),
            !old(self).escalation_map().contains_key(escalation_id@) ==> r == Err::<(), &'static str>("escalation not found"),
            old(self).escalation_map().contains_key(escalation_id@) && !escalation_step(old(self).escalation_map()[escalation_id@].state, next)
                ==> r == Err::<(), &'static str>("invalid escalation state transition"),
            r is Ok <==> old(self).escalation_map().contains_key(escalation_id@) && escalation_step(
                old(self).escalation_map()[escalation_id@].state,
                next,
            ),
            r is Ok ==> final(self).escalation_map() == old(self).escalation_map().insert(
                escalation_id@,
                Escalation { state: next, ..old(self).escalation_map()[escalation_id@] },
            ),
            r is Err ==> final(self).escalation_map() == old(self).escalation_map(),
            final(self).response_map() == old(self).response_map(),
            escalations_attached(old(self).response_map(), old(self).escalation_map()) ==> escalations_attached(
                final(self).response_map(),
                final(self).escalation_map(),
            ),
    {
        let allowed = match self.escalations.get(escalation_id.as_str()) {
            None => return Err("escalation not found"),
            Some(v) => v.state.can_transition_to(&next),
        };
        if !allowed {
            return Err("invalid escalation state transition");
        }
        let mut item = self.escalations.take(escalation_id.as_str());
        item.state = next;
        self.escalations.insert_new(escalation_id.clone(), item);
        Ok(())
    }

    pub fn get_response(&self, id: &Id) -> (r: Option<&Response>)
        requires
            self.wf(),
        ensures
            r is Some <==> self.response_map().contains_key(id@),
            r matches Some(v) ==> *v == self.response_map()[id@],
    {
        self.responses.get(id.as_str())
    }

    pub fn get_escalation(&self, id: &Id) -> (r: Option<&Escalation>)
        requires
            self.wf(),
        ensures
            r is Some <==> self.escalation_map().contains_key(id@),
            r matches Some(v) ==> *v == self.escalation_map()[id@],
    {
        self.escalations.get(id.as_str())
    }

    /// Response ids in ascending order.
    pub fn response_ids(&self) -> (r: Vec<Id>)
        requires
            self.wf(),
        ensures
            strictly_sorted(texts_view(r@)),
            forall|k: Seq<char>| self.response_map().contains_key(k) <==> texts_view(r@).contains(k),
    {
        let r = self.responses.keys();
        assert(texts_view(r@) =~= r@.map_values(|s: String| s@));
        r
    }

    /// Escalation ids in ascending order.
    pub fn escalation_ids(&self) -> (r: Vec<Id>)
        requires
            self.wf(),
        ensures
            strictly_sorted(texts_view(r@)),
            forall|k: Seq<char>| self.escalation_map().contains_key(k) <==> texts_view(r@).contains(k),
    {
        let r = self.escalations.keys();
        assert(texts_view(r@) =~= r@.map_values(|s: String| s@));
        r
    }
}

impl Default for ResponseRegistry {
    fn default() -> (r: Self)
        ensures
            r.wf(),
            r.response_map() == Map::<Seq<char>, Response>::empty(),
            r.escalation_map() == Map::<Seq<char>, Escalation>::empty(),
    {
        ResponseRegistry::new()
    }
}

} // verus!
