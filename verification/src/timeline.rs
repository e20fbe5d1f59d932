//! A case timeline: valid events with distinct ids in chronological order.
use vstd::prelude::*;
use crate::chronology::{Chronological, Stamp, in_chronological_order, sort_chronologically};
use crate::event::{EventEnvelope, event_fault};
use crate::resource::Id;
use crate::text::{str_eq, str_lt};

verus! {

/// When `e` happened and its id.
pub open spec fn event_stamp(e: EventEnvelope) -> Stamp {
    Stamp { time: e.occurred_at@, id: e.event_id@ }
}

/// The fault of the first invalid event of `s`, if any.
pub open spec fn first_event_fault(s: Seq<EventEnvelope>) -> Option<&'static str>
    decreases s.len(),
{
    if s.len() == 0 {
        None
    } else {
        match first_event_fault(s.drop_last()) {
            Some(m) => Some(m),
            None => event_fault(s.last()),
        }
    }
}

/// No two events of `s` share an id.
pub open spec fn distinct_event_ids(s: Seq<EventEnvelope>) -> bool {
    forall|i: int, j: int| 0 <= i < j < s.len() ==> (#[trigger] s[i]).event_id@ != (#[trigger] s[j]).event_id@
}

/// Events of a case or incident, validated and in chronological order.
#[derive(Debug, Clone, PartialEq, Eq)]
pub struct Timeline {
    events: Vec<EventEnvelope>,
}

impl Chronological for EventEnvelope {
    open spec fn stamp(&self) -> Stamp {
        event_stamp(*self)
    }

    fn comes_before(&self, other: &Self) -> (r: bool) {
        if str_lt(self.occurred_at.as_str(), other.occurred_at.as_str()) {
            true
        } else if str_eq(self.occurred_at.as_str(), other.occurred_at.as_str()) {
            str_lt(self.event_id.as_str(), other.event_id.as_str())
        } else {
            false
        }
    }
}

impl Timeline {
    /// The events, in order.
    pub closed spec fn entries(&self) -> Seq<EventEnvelope> {
        self.events@
    }

    /// Builds a timeline. The first invalid event's fault is returned; then
    /// two events with one id are refused; otherwise the events are ordered
    /// by time, ties broken by event id.
    pub fn from_events(events: Vec<EventEnvelope>) -> (r: Result<Self, &'static str>)
        ensures
            first_event_fault(events@) is Some ==> r == Err::<Self, &'static str>(
                first_event_fault(events@)->0,
            ),
            first_event_fault(events@) is None && !distinct_event_ids(events@) ==> r == Err::<
                Self,
                &'static str,
            >("duplicate event id"),
            first_event_fault(events@) is None && distinct_event_ids(events@) ==> r is Ok,
            r matches Ok(t) ==> t.entries().to_multiset() == events@.to_multiset() && in_chronological_order(
                t.entries(),
            ),
    {
        let n = events.len();
        let mut i: usize = 0;
        while i < n
            invariant
                n == events@.len(),
                i <= n,
                first_event_fault(events@.take(i as int)) is None,
            decreases n - i,
        {
            proof {
                assert(events@.take(i + 1).drop_last() =~= events@.take(i as int));
            }
            match events[i].validate() {
                Err(m) => {
                    proof {
                        lemma_fault_persists(events@, i as int + 1);
                    }
                    return Err(m);
                },
                Ok(()) => {},
            }
            i = i + 1;
        }
        proof {
            assert(events@.take(n as int) =~= events@);
        }
        let mut a: usize = 0;
        while a < n
            invariant
                n == events@.len(),
                a <= n,
                first_event_fault(events@) is None,
                forall|x: int, y: int|
                    0 <= x < a && x < y < n ==> (#[trigger] events@[x]).event_id@ != (#[trigger] events@[y]).event_id@,
            decreases n - a,
        {
            let mut b: usize = a + 1;
            while b < n
                invariant
                    n == events@.len(),
                    a < n,
                    a + 1 <= b <= n,
                    first_event_fault(events@) is None,
                    forall|x: int, y: int|
                        0 <= x < a && x < y < n ==> (#[trigger] events@[x]).event_id@ != (#[trigger] events@[y]).event_id@,
                    forall|y: int| a < y < b ==> events@[a as int].event_id@ != (#[trigger] events@[y]).event_id@,
                decreases n - b,
            {
                if str_eq(events[a].event_id.as_str(), events[b].event_id.as_str()) {
                    return Err("duplicate event id");
                }
                b = b + 1;
            }
            a = a + 1;
        }
        let mut events = events;
        sort_chronologically(&mut events);
        Ok(Timeline { events })
    }

    /// The events, in order.
    pub fn events(&self) -> (r: &[EventEnvelope])
        ensures
            r@ == self.entries(),
    {
        self.events.as_slice()
    }

    /// The ids of the events, in order.
    pub fn event_ids(&self) -> (r: Vec<Id>)
        ensures
            r@.len() == self.entries().len(),
            forall|k: int| 0 <= k < r@.len() ==> (#[trigger] r@[k]) == self.entries()[k].event_id,
    {
        let mut out: Vec<Id> = Vec::new();
        let mut k: usize = 0;
        while k < self.events.len()
            invariant
                k <= self.events@.len(),
                out@.len() == k,
                forall|j: int| 0 <= j < k ==> (#[trigger] out@[j]) == self.events@[j].event_id,
            decreases self.events@.len() - k,
        {
            out.push(self.events[k].event_id.clone());
            k = k + 1;
        }
        out
    }
}

/// Once a prefix holds an invalid event, every longer prefix reports that
/// same first fault.
proof fn lemma_fault_persists(s: Seq<EventEnvelope>, k: int)
    requires
        0 <= k <= s.len(),
        first_event_fault(s.take(k)) is Some,
    ensures
        first_event_fault(s) == first_event_fault(s.take(k)),
    decreases s.len() - k,
{
    if k < s.len() {
        assert(s.take(k + 1).drop_last() =~= s.take(k));
        lemma_fault_persists(s, k + 1);
    } else {
        assert(s.take(k) =~= s);
    }
}

} // verus!
