//! A longitudinal view of one subject: its events and observations in
//! chronological order, each kept exactly as it was recorded.
use vstd::prelude::*;
use crate::chronology::{Chronological, Stamp, in_chronological_order, sort_chronologically};
use crate::event::{EventEnvelope, aggregate_type_of, event_check};
use crate::observation::Observation;
use crate::resource::{Id, ResourceRef, ResourceRefView, ResourceType};
use crate::text::{str_eq, str_lt};

verus! {

/// One recorded fact about the subject.
#[derive(Debug, Clone, PartialEq, Eq)]
pub enum LongitudinalEntry {
    Event(EventEnvelope),
    Observation(Observation),
}

/// The id of the recorded fact.
pub open spec fn entry_id(e: LongitudinalEntry) -> Seq<char> {
    match e {
        LongitudinalEntry::Event(ev) => ev.event_id@,
        LongitudinalEntry::Observation(o) => o.observation_id@,
    }
}

/// The kind of resource the fact is.
pub open spec fn entry_type(e: LongitudinalEntry) -> ResourceType {
    match e {
        LongitudinalEntry::Event(_) => ResourceType::Event,
        LongitudinalEntry::Observation(_) => ResourceType::Observation,
    }
}

/// The outcome of validating the fact.
pub open spec fn entry_check(e: LongitudinalEntry) -> Result<(), &'static str> {
    match e {
        LongitudinalEntry::Event(ev) => event_check(ev),
        LongitudinalEntry::Observation(o) => o.validity(),
    }
}

/// The subject the fact is about: an event's aggregate, an observation's
/// subject.
pub open spec fn entry_subject(e: LongitudinalEntry) -> ResourceRefView {
    match e {
        LongitudinalEntry::Event(ev) => ResourceRefView {
            resource_type: aggregate_type_of(ev.aggregate_type@),
            id: ev.aggregate_id@,
        },
        LongitudinalEntry::Observation(o) => o.subject_ref@,
    }
}

/// The fault of the first invalid entry of `s`, if any.
pub open spec fn first_entry_fault(s: Seq<LongitudinalEntry>) -> Option<&'static str>
    decreases s.len(),
{
    if s.len() == 0 {
        None
    } else {
        match first_entry_fault(s.drop_last()) {
            Some(m) => Some(m),
            None => match entry_check(s.last()) {
                Err(m) => Some(m),
                Ok(()) => None,
            },
        }
    }
}

/// Every entry of `s` is about `subject`.
pub open spec fn all_about(s: Seq<LongitudinalEntry>, subject: ResourceRefView) -> bool {
    forall|i: int| 0 <= i < s.len() ==> entry_subject(#[trigger] s[i]) == subject
}

impl Chronological for LongitudinalEntry {
    /// An event by when it occurred, an observation by when it was observed;
    /// then by id.
    open spec fn stamp(&self) -> Stamp {
        match self {
            LongitudinalEntry::Event(ev) => Stamp { time: ev.occurred_at@, id: ev.event_id@ },
            LongitudinalEntry::Observation(o) => Stamp { time: o.observed_at@, id: o.observation_id@ },
        }
    }

    fn comes_before(&self, other: &Self) -> (r: bool) {
        let (t1, i1) = self.time_and_id();
        let (t2, i2) = other.time_and_id();
        if str_lt(t1, t2) {
            true
        } else if str_eq(t1, t2) {
            str_lt(i1, i2)
        } else {
            false
        }
    }
}

impl LongitudinalEntry {
    fn time_and_id(&self) -> (r: (&str, &str))
        ensures
            r.0@ == self.stamp().time,
            r.1@ == self.stamp().id,
    {
        match self {
            LongitudinalEntry::Event(ev) => (ev.occurred_at.as_str(), ev.event_id.as_str()),
            LongitudinalEntry::Observation(o) => (o.observed_at.as_str(), o.observation_id.as_str()),
        }
    }

    /// A reference to the recorded fact; its id must not be empty.
    pub fn source_ref(&self) -> (r: ResourceRef)
        requires
            entry_id(*self).len() > 0,
        ensures
            r@ == (ResourceRefView { resource_type: entry_type(*self), id: entry_id(*self) }),
    {
        match self {
            LongitudinalEntry::Event(ev) => ResourceRef { resource_type: ResourceType::Event, id: ev.event_id.clone() },
            LongitudinalEntry::Observation(o) => ResourceRef {
                resource_type: ResourceType::Observation,
                id: o.observation_id.clone(),
            },
        }
    }

    fn validate(&self) -> (r: Result<(), &'static str>)
        ensures
            r == entry_check(*self),
    {
        match self {
            LongitudinalEntry::Event(ev) => ev.validate(),
            LongitudinalEntry::Observation(o) => o.validate(),
        }
    }

    /// Whether the fact is about `subject`.
    fn is_about(&self, subject: &ResourceRef) -> (r: bool)
        ensures
            r == (entry_subject(*self) == subject@),
    {
        match self {
            LongitudinalEntry::Event(ev) => {
                let t = crate::event::aggregate_resource_type(ev.aggregate_type.as_str());
                t == subject.resource_type && str_eq(ev.aggregate_id.as_str(), subject.id.as_str())
            },
            LongitudinalEntry::Observation(o) => o.subject_ref.same(subject),
        }
    }

    fn id_text(&self) -> (r: &Id)
        ensures
            r@ == entry_id(*self),
    {
        match self {
            LongitudinalEntry::Event(ev) => &ev.event_id,
            LongitudinalEntry::Observation(o) => &o.observation_id,
        }
    }
}

/// The events and observations of one subject, in chronological order.
#[derive(Debug, Clone, PartialEq, Eq)]
pub struct LongitudinalView {
    subject_ref: ResourceRef,
    entries: Vec<LongitudinalEntry>,
}

impl LongitudinalView {
    pub closed spec fn subject(&self) -> ResourceRef {
        self.subject_ref
    }

    pub closed spec fn items(&self) -> Seq<LongitudinalEntry> {
        self.entries@
    }

    /// Builds the view of `subject_ref`. An empty list is refused, then the
    /// first invalid entry's fault is returned, then an entry about another
    /// subject is refused; otherwise the entries, unchanged, are ordered by
    /// time, ties broken by id.
    pub fn from_entries(subject_ref: ResourceRef, entries: Vec<LongitudinalEntry>) -> (r: Result<
        Self,
        &'static str,
    >)
        ensures
            entries@.len() == 0 ==> r == Err::<Self, &'static str>(
                "longitudinal view requires at least one entry",
            ),
            entries@.len() > 0 && first_entry_fault(entries@) is Some ==> r == Err::<Self, &'static str>(
                first_entry_fault(entries@)->0,
            ),
            entries@.len() > 0 && first_entry_fault(entries@) is None && !all_about(entries@, subject_ref@)
                ==> r == Err::<Self, &'static str>("longitudinal entry does not belong to subject"),
            entries@.len() > 0 && first_entry_fault(entries@) is None && all_about(entries@, subject_ref@)
                ==> r is Ok,
            r matches Ok(v) ==> v.subject() == subject_ref && v.items().to_multiset()
                == entries@.to_multiset() && in_chronological_order(v.items()),
    {
        let n = entries.len();
        if n == 0 {
            return Err("longitudinal view requires at least one entry");
        }
        let mut i: usize = 0;
        while i < n
            invariant
                n == entries@.len(),
                i <= n,
                first_entry_fault(entries@.take(i as int)) is None,
            decreases n - i,
        {
            proof {
                assert(entries@.take(i + 1).drop_last() =~= entries@.take(i as int));
            }
            match entries[i].validate() {
                Err(m) => {
                    proof {
                        lemma_entry_fault_persists(entries@, i as int + 1);
                    }
                    return Err(m);
                },
                Ok(()) => {},
            }
            i = i + 1;
        }
        proof {
            assert(entries@.take(n as int) =~= entries@);
        }
        let mut j: usize = 0;
        while j < n
            invariant
                n == entries@.len(),
                j <= n,
                first_entry_fault(entries@) is None,
                forall|k: int| 0 <= k < j ==> entry_subject(#[trigger] entries@[k]) == subject_ref@,
            decreases n - j,
        {
            if !entries[j].is_about(&subject_ref) {
                return Err("longitudinal entry does not belong to subject");
            }
            j = j + 1;
        }
        let mut entries = entries;
        sort_chronologically(&mut entries);
        Ok(LongitudinalView { subject_ref, entries })
    }

    pub fn subject_ref(&self) -> (r: &ResourceRef)
        ensures
            *r == self.subject(),
    {
        &self.subject_ref
    }

    pub fn entries(&self) -> (r: &[LongitudinalEntry])
        ensures
            r@ == self.items(),
    {
        self.entries.as_slice()
    }

    /// The ids of the entries, in order.
    pub fn source_ids(&self) -> (r: Vec<Id>)
        ensures
            r@.len() == self.items().len(),
            forall|k: int| 0 <= k < r@.len() ==> (#[trigger] r@[k])@ == entry_id(self.items()[k]),
    {
        let mut out: Vec<Id> = Vec::new();
        let mut k: usize = 0;
        while k < self.entries.len()
            invariant
                k <= self.entries@.len(),
                out@.len() == k,
                forall|j: int| 0 <= j < k ==> (#[trigger] out@[j])@ == entry_id(self.entries@[j]),
            decreases self.entries@.len() - k,
        {
            out.push(self.entries[k].id_text().clone());
            k = k + 1;
        }
        out
    }
}

proof fn lemma_entry_fault_persists(s: Seq<LongitudinalEntry>, k: int)
    requires
        0 <= k <= s.len(),
        first_entry_fault(s.take(k)) is Some,
    ensures
        first_entry_fault(s) == first_entry_fault(s.take(k)),
    decreases s.len() - k,
{
    if k < s.len() {
        assert(s.take(k + 1).drop_last() =~= s.take(k));
        lemma_entry_fault_persists(s, k + 1);
    } else {
        assert(s.take(k) =~= s);
    }
}

} // verus!
