//! Repositories of cases, incidents and events, and their in-memory
//! implementation. A record is never replaced: a second save under an id that
//! is taken is refused.
use vstd::prelude::*;
use crate::case::Case;
use crate::event::{EventEnvelope, event_check, same_event};
use crate::id_map::IdMap;
use crate::incident::Incident;
use crate::resource::Id;

verus! {

/// Cases by id; implemented by each storage provider.
pub trait CaseRepository {
    fn get(&self, id: &Id) -> Result<Option<Case>, &'static str>;

    fn save(&mut self, case: Case) -> Result<(), &'static str>;
}

/// Incidents by id; implemented by each storage provider.
pub trait IncidentRepository {
    fn get(&self, id: &Id) -> Result<Option<Incident>, &'static str>;

    fn save(&mut self, incident: Incident) -> Result<(), &'static str>;
}

/// Append-only events by id; implemented by each storage provider.
pub trait EventRepository {
    fn get(&self, id: &Id) -> Result<Option<EventEnvelope>, &'static str>;

    fn append(&mut self, event: EventEnvelope) -> Result<(), &'static str>;
}

/// Cases, incidents and events kept in memory.
pub struct InMemoryRepositories {
    cases: IdMap<Case>,
    incidents: IdMap<Incident>,
    events: IdMap<EventEnvelope>,
}

/// Outcome of saving `case` into a store that holds `cases`.
pub open spec fn case_save_outcome(cases: Map<Seq<char>, Case>, case: Case) -> Result<(), &'static str> {
    if case.case_id@.len() == 0 {
        Err("case id is required")
    } else if cases.contains_key(case.case_id@) {
        Err("case already exists")
    } else {
        Ok(())
    }
}

/// Outcome of saving `incident` into a store that holds `incidents`.
pub open spec fn incident_save_outcome(incidents: Map<Seq<char>, Incident>, incident: Incident) -> Result<
    (),
    &'static str,
> {
    if incident.incident_id@.len() == 0 {
        Err("incident id is required")
    } else if incidents.contains_key(incident.incident_id@) {
        Err("incident already exists")
    } else {
        Ok(())
    }
}

/// Outcome of appending `event` to a store that holds `events`.
pub open spec fn event_append_outcome(events: Map<Seq<char>, EventEnvelope>, event: EventEnvelope) -> Result<
    (),
    &'static str,
> {
    if event_check(event) is Err {
        event_check(event)
    } else if events.contains_key(event.event_id@) {
        Err("event already exists")
    } else {
        Ok(())
    }
}

/// A saved case is found under its id, and a second save under that id is
/// refused: a case is never replaced.
pub proof fn lemma_saved_case_is_kept(cases: Map<Seq<char>, Case>, case: Case, again: Case)
    requires
        case_save_outcome(cases, case) is Ok,
        again.case_id@ == case.case_id@,
    ensures
        cases.insert(case.case_id@, case).contains_key(case.case_id@),
        cases.insert(case.case_id@, case)[case.case_id@] == case,
        case_save_outcome(cases.insert(case.case_id@, case), again) == Err::<(), &'static str>("case already exists"),
{
}

/// A saved incident is found under its id and never replaced.
pub proof fn lemma_saved_incident_is_kept(incidents: Map<Seq<char>, Incident>, incident: Incident, again: Incident)
    requires
        incident_save_outcome(incidents, incident) is Ok,
        again.incident_id@ == incident.incident_id@,
    ensures
        incidents.insert(incident.incident_id@, incident)[incident.incident_id@] == incident,
        incident_save_outcome(incidents.insert(incident.incident_id@, incident), again) == Err::<(), &'static str>(
            "incident already exists",
        ),
{
}

/// An appended event is found under its id, and a valid event with that id
/// is refused afterwards: the log is append-only.
pub proof fn lemma_appended_event_is_kept(events: Map<Seq<char>, EventEnvelope>, event: EventEnvelope, again: EventEnvelope)
    requires
        event_append_outcome(events, event) is Ok,
        event_check(again) is Ok,
        again.event_id@ == event.event_id@,
    ensures
        events.insert(event.event_id@, event)[event.event_id@] == event,
        event_append_outcome(events.insert(event.event_id@, event), again) == Err::<(), &'static str>(
            "event already exists",
        ),
{
}

impl InMemoryRepositories {
    /// Each record is stored under its own id.
    #[verifier::type_invariant]
    pub closed spec fn wf(&self) -> bool {
        &&& self.cases.wf()
        &&& self.incidents.wf()
        &&& self.events.wf()
        &&& forall|k: Seq<char>| #[trigger]
            self.cases.map().contains_key(k) ==> self.cases.map()[k].case_id@ == k
        &&& forall|k: Seq<char>| #[trigger]
            self.incidents.map().contains_key(k) ==> self.incidents.map()[k].incident_id@ == k
        &&& forall|k: Seq<char>| #[trigger]
            self.events.map().contains_key(k) ==> self.events.map()[k].event_id@ == k
    }

    pub closed spec fn case_map(&self) -> Map<Seq<char>, Case> {
        self.cases.map()
    }

    pub closed spec fn incident_map(&self) -> Map<Seq<char>, Incident> {
        self.incidents.map()
    }

    pub closed spec fn event_map(&self) -> Map<Seq<char>, EventEnvelope> {
        self.events.map()
    }

    pub fn new() -> (r: Self)
        ensures
            r.case_map() == Map::<Seq<char>, Case>::empty(),
            r.incident_map() == Map::<Seq<char>, Incident>::empty(),
            r.event_map() == Map::<Seq<char>, EventEnvelope>::empty(),
    {
        InMemoryRepositories { cases: IdMap::new(), incidents: IdMap::new(), events: IdMap::new() }
    }
}

impl Default for InMemoryRepositories {
    fn default() -> (r: Self)
        ensures
            r.case_map() == Map::<Seq<char>, Case>::empty(),
            r.incident_map() == Map::<Seq<char>, Incident>::empty(),
            r.event_map() == Map::<Seq<char>, EventEnvelope>::empty(),
    {
        InMemoryRepositories::new()
    }
}

impl InMemoryRepositories {
    /// The case saved under `id`, if any.
    pub fn get_case(&self, id: &Id) -> (r: Result<Option<Case>, &'static str>)
        ensures
            r is Ok,
            match r->Ok_0 {
                Some(c) => self.case_map().contains_key(id@) && c == self.case_map()[id@],
                None => !self.case_map().contains_key(id@),
            },
    {
        proof {
            use_type_invariant(self);
        }
        match self.cases.get(id.as_str()) {
            Some(c) => Ok(Some(c.duplicate())),
            None => Ok(None),
        }
    }

    /// Saves a case under its non-empty id; a saved case is never replaced.
    pub fn save_case(&mut self, case: Case) -> (r: Result<(), &'static str>)
        ensures
            r == case_save_outcome(old(self).case_map(), case),
            r is Ok ==> final(self).case_map() == old(self).case_map().insert(case.case_id@, case),
            r is Err ==> final(self).case_map() == old(self).case_map(),
            final(self).incident_map() == old(self).incident_map(),
            final(self).event_map() == old(self).event_map(),
    {
        proof {
            use_type_invariant(&*self);
        }
        if case.case_id.as_str().is_empty() {
            return Err("case id is required");
        }
        if self.cases.contains_key(case.case_id.as_str()) {
            return Err("case already exists");
        }
        let key = case.case_id.clone();
        let mut cases = IdMap::new();
        std::mem::swap(&mut cases, &mut self.cases);
        cases.insert_new(key, case);
        self.cases = cases;
        Ok(())
    }
}

impl InMemoryRepositories {
    /// The incident saved under `id`, if any.
    pub fn get_incident(&self, id: &Id) -> (r: Result<Option<Incident>, &'static str>)
        ensures
            r is Ok,
            match r->Ok_0 {
                Some(i) => self.incident_map().contains_key(id@) && i == self.incident_map()[id@],
                None => !self.incident_map().contains_key(id@),
            },
    {
        proof {
            use_type_invariant(self);
        }
        match self.incidents.get(id.as_str()) {
            Some(i) => Ok(Some(i.duplicate())),
            None => Ok(None),
        }
    }

    /// Saves an incident under its non-empty id; a saved incident is never
    /// replaced.
    pub fn save_incident(&mut self, incident: Incident) -> (r: Result<(), &'static str>)
        ensures
            r == incident_save_outcome(old(self).incident_map(), incident),
            r is Ok ==> final(self).incident_map() == old(self).incident_map().insert(
                incident.incident_id@,
                incident,
            ),
            r is Err ==> final(self).incident_map() == old(self).incident_map(),
            final(self).case_map() == old(self).case_map(),
            final(self).event_map() == old(self).event_map(),
    {
        proof {
            use_type_invariant(&*self);
        }
        if incident.incident_id.as_str().is_empty() {
            return Err("incident id is required");
        }
        if self.incidents.contains_key(incident.incident_id.as_str()) {
            return Err("incident already exists");
        }
        let key = incident.incident_id.clone();
        let mut incidents = IdMap::new();
        std::mem::swap(&mut incidents, &mut self.incidents);
        incidents.insert_new(key, incident);
        self.incidents = incidents;
        Ok(())
    }
}

impl InMemoryRepositories {
    /// A copy of the event appended under `id`, if any.
    pub fn get_event(&self, id: &Id) -> (r: Result<Option<EventEnvelope>, &'static str>)
        ensures
            r is Ok,
            match r->Ok_0 {
                Some(e) => self.event_map().contains_key(id@) && same_event(e, self.event_map()[id@]),
                None => !self.event_map().contains_key(id@),
            },
    {
        proof {
            use_type_invariant(self);
        }
        match self.events.get(id.as_str()) {
            Some(e) => Ok(Some(e.duplicate())),
            None => Ok(None),
        }
    }

    /// Appends a valid event under its id; an appended event is never
    /// replaced.
    pub fn append_event(&mut self, event: EventEnvelope) -> (r: Result<(), &'static str>)
        ensures
            r == event_append_outcome(old(self).event_map(), event),
            r is Ok ==> final(self).event_map() == old(self).event_map().insert(event.event_id@, event),
            r is Err ==> final(self).event_map() == old(self).event_map(),
            final(self).case_map() == old(self).case_map(),
            final(self).incident_map() == old(self).incident_map(),
    {
        proof {
            use_type_invariant(&*self);
        }
        match event.validate() {
            Ok(()) => {},
            Err(m) => return Err(m),
        }
        if self.events.contains_key(event.event_id.as_str()) {
            return Err("event already exists");
        }
        let key = event.event_id.clone();
        let mut events = IdMap::new();
        std::mem::swap(&mut events, &mut self.events);
        events.insert_new(key, event);
        self.events = events;
        Ok(())
    }
}

impl CaseRepository for InMemoryRepositories {
    fn get(&self, id: &Id) -> Result<Option<Case>, &'static str> {
        self.get_case(id)
    }

    fn save(&mut self, case: Case) -> Result<(), &'static str> {
        self.save_case(case)
    }
}

impl IncidentRepository for InMemoryRepositories {
    fn get(&self, id: &Id) -> Result<Option<Incident>, &'static str> {
        self.get_incident(id)
    }

    fn save(&mut self, incident: Incident) -> Result<(), &'static str> {
        self.save_incident(incident)
    }
}

impl EventRepository for InMemoryRepositories {
    fn get(&self, id: &Id) -> Result<Option<EventEnvelope>, &'static str> {
        self.get_event(id)
    }

    fn append(&mut self, event: EventEnvelope) -> Result<(), &'static str> {
        self.append_event(event)
    }
}

} // verus!
