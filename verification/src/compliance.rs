//! Compliance requirements derived from obligations, and their states.
use vstd::prelude::*;
use crate::id_map::{IdMap, strictly_sorted};
use crate::resource::Id;
use crate::text::str_eq;

verus! {

#[derive(Debug, Clone, Copy, PartialEq, Eq, Structural)]
pub enum ComplianceState {
    Unknown,
    NotApplicable,
    Required,
    InProgress,
    Satisfied,
    Breached,
    Disputed,
    ReviewRequired,
}

/// The compliance state machine.
pub open spec fn compliance_step(from: ComplianceState, to: ComplianceState) -> bool {
    match (from, to) {
        (ComplianceState::Unknown, ComplianceState::NotApplicable) => true,
        (ComplianceState::Unknown, ComplianceState::Required) => true,
        (ComplianceState::Unknown, ComplianceState::ReviewRequired) => true,
        (ComplianceState::Required, ComplianceState::InProgress) => true,
        (ComplianceState::Required, ComplianceState::Satisfied) => true,
        (ComplianceState::Required, ComplianceState::Disputed) => true,
        (ComplianceState::Required, ComplianceState::ReviewRequired) => true,
        (ComplianceState::InProgress, ComplianceState::Satisfied) => true,
        (ComplianceState::InProgress, ComplianceState::Breached) => true,
        (ComplianceState::InProgress, ComplianceState::Disputed) => true,
        (ComplianceState::InProgress, ComplianceState::ReviewRequired) => true,
        (ComplianceState::Satisfied, ComplianceState::Disputed) => true,
        (ComplianceState::Satisfied, ComplianceState::ReviewRequired) => true,
        (ComplianceState::Breached, ComplianceState::InProgress) => true,
        (ComplianceState::Breached, ComplianceState::Disputed) => true,
        (ComplianceState::Breached, ComplianceState::ReviewRequired) => true,
        (ComplianceState::Disputed, ComplianceState::InProgress) => true,
        (ComplianceState::Disputed, ComplianceState::Satisfied) => true,
        (ComplianceState::Disputed, ComplianceState::Breached) => true,
        (ComplianceState::Disputed, ComplianceState::ReviewRequired) => true,
        (ComplianceState::ReviewRequired, ComplianceState::InProgress) => true,
        (ComplianceState::ReviewRequired, ComplianceState::Satisfied) => true,
        (ComplianceState::ReviewRequired, ComplianceState::Breached) => true,
        (ComplianceState::ReviewRequired, ComplianceState::Disputed) => true,
        _ => false,
    }
}

impl ComplianceState {
    pub fn can_transition_to(&self, next: &Self) -> (b: bool)
        ensures
            b == compliance_step(*self, *next),
    {
        match (self, next) {
            (ComplianceState::Unknown, ComplianceState::NotApplicable) => true,
            (ComplianceState::Unknown, ComplianceState::Required) => true,
            (ComplianceState::Unknown, ComplianceState::ReviewRequired) => true,
            (ComplianceState::Required, ComplianceState::InProgress) => true,
            (ComplianceState::Required, ComplianceState::Satisfied) => true,
            (ComplianceState::Required, ComplianceState::Disputed) => true,
            (ComplianceState::Required, ComplianceState::ReviewRequired) => true,
            (ComplianceState::InProgress, ComplianceState::Satisfied) => true,
            (ComplianceState::InProgress, ComplianceState::Breached) => true,
            (ComplianceState::InProgress, ComplianceState::Disputed) => true,
            (ComplianceState::InProgress, ComplianceState::ReviewRequired) => true,
            (ComplianceState::Satisfied, ComplianceState::Disputed) => true,
            (ComplianceState::Satisfied, ComplianceState::ReviewRequired) => true,
            (ComplianceState::Breached, ComplianceState::InProgress) => true,
            (ComplianceState::Breached, ComplianceState::Disputed) => true,
            (ComplianceState::Breached, ComplianceState::ReviewRequired) => true,
            (ComplianceState::Disputed, ComplianceState::InProgress) => true,
            (ComplianceState::Disputed, ComplianceState::Satisfied) => true,
            (ComplianceState::Disputed, ComplianceState::Breached) => true,
            (ComplianceState::Disputed, ComplianceState::ReviewRequired) => true,
            (ComplianceState::ReviewRequired, ComplianceState::InProgress) => true,
            (ComplianceState::ReviewRequired, ComplianceState::Satisfied) => true,
            (ComplianceState::ReviewRequired, ComplianceState::Breached) => true,
            (ComplianceState::ReviewRequired, ComplianceState::Disputed) => true,
            _ => false,
        }
    }
}

/// `NotApplicable` is final, and nothing leads back to `Unknown`.
pub proof fn lemma_compliance_one_way(from: ComplianceState, to: ComplianceState)
    requires
        compliance_step(from, to),
    ensures
        from != ComplianceState::NotApplicable,
        to != ComplianceState::Unknown,
{
}

#[derive(Debug, Clone, PartialEq, Eq)]
pub struct ComplianceRequirement {
    pub requirement_id: Id,
    pub obligation_id: Id,
    pub description: String,
    pub state: ComplianceState,
    pub evidence_refs: Vec<Id>,
    pub source_refs: Vec<Id>,
}

impl ComplianceRequirement {
    pub open spec fn validity(&self) -> Result<(), &'static str> {
        if self.requirement_id@.len() == 0 {
            Err("requirement id is required")
        } else if self.obligation_id@.len() == 0 {
            Err("requirement obligation is required")
        } else if self.description@.len() == 0 {
            Err("requirement description is required")
        } else if self.source_refs@.len() == 0 {
            Err("requirement source references are required")
        } else if self.state == ComplianceState::Satisfied && self.evidence_refs@.len() == 0 {
            Err("satisfied requirement evidence is required")
        } else {
            Ok(())
        }
    }

    pub fn validate(&self) -> (r: Result<(), &'static str>)
        ensures
            r == self.validity(),
    {
        if self.requirement_id.as_str().is_empty() {
            return Err("requirement id is required");
        }
        if self.obligation_id.as_str().is_empty() {
            return Err("requirement obligation is required");
        }
        if self.description.as_str().is_empty() {
            return Err("requirement description is required");
        }
        if self.source_refs.len() == 0 {
            return Err("requirement source references are required");
        }
        if self.state == ComplianceState::Satisfied && self.evidence_refs.len() == 0 {
            return Err("satisfied requirement evidence is required");
        }
        Ok(())
    }
}

/// Every satisfied requirement carries evidence.
pub open spec fn satisfied_with_evidence(m: Map<Seq<char>, ComplianceRequirement>) -> bool {
    forall|k: Seq<char>| #[trigger]
        m.contains_key(k) && m[k].state == ComplianceState::Satisfied ==> m[k].evidence_refs@.len() > 0
}

pub struct ComplianceRegistry {
    requirements: IdMap<ComplianceRequirement>,
}

impl ComplianceRegistry {
    pub closed spec fn wf(&self) -> bool {
        self.requirements.wf()
    }

    pub closed spec fn requirement_map(&self) -> Map<Seq<char>, ComplianceRequirement> {
        self.requirements.map()
    }

    /// Requirements in ascending id order.
    pub closed spec fn requirement_seq(&self) -> Seq<ComplianceRequirement> {
        self.requirements.value_seq()
    }

    pub fn new() -> (r: Self)
        ensures
            r.wf(),
            r.requirement_map() == Map::<Seq<char>, ComplianceRequirement>::empty(),
    {
        ComplianceRegistry { requirements: IdMap::new() }
    }

    pub open spec fn insertion(&self, requirement: ComplianceRequirement) -> Result<(), &'static str> {
        if requirement.validity() is Err {
            requirement.validity()
        } else if self.requirement_map().contains_key(requirement.requirement_id@) {
            Err("duplicate requirement id")
        } else {
            Ok(())
        }
    }

    /// Stores a valid requirement under a fresh id.
    pub fn insert(&mut self, requirement: ComplianceRequirement) -> (r: Result<(), &'static str>)
        requires
            old(self).wf(),
        ensures
            final(self).wf(),
            r == old(self).insertion(requirement),
            r is Ok ==> final(self).requirement_map() == old(self).requirement_map().insert(
                requirement.requirement_id@,
                requirement,
            ),
            r is Err ==> final(self).requirement_map() == old(self).requirement_map(),
            satisfied_with_evidence(old(self).requirement_map()) ==> satisfied_with_evidence(
                final(self).requirement_map(),
            ),
    {
        match requirement.validate() {
            Ok(()) => {},
            Err(e) => return Err(e),
        }
        if self.requirements.contains_key(requirement.requirement_id.as_str()) {
            return Err("duplicate requirement id");
        }
        let key = requirement.requirement_id.clone();
        self.requirements.insert_new(key, requirement);
        Ok(())
    }

    /// What moving requirement `id` to `next` with `evidence` answers.
    pub open spec fn transition_outcome(&self, id: Seq<char>, next: ComplianceState, evidence: Seq<Id>) -> Result<
        (),
        &'static str,
    > {
        if !self.requirement_map().contains_key(id) {
            Err("requirement not found")
        } else if !compliance_step(self.requirement_map()[id].state, next) {
            Err("invalid compliance state transition")
        } else if next == ComplianceState::Satisfied && evidence.len() == 0 {
            Err("satisfied requirement evidence is required")
        } else {
            Ok(())
        }
    }

    /// Moves a requirement to `next`; new evidence, when given, replaces the
    /// old.
    pub fn transition(&mut self, requirement_id: &Id, next: ComplianceState, evidence_refs: Vec<Id>) -> (r: Result<
        (),
        &'static str,
    >)
        requires
            old(self).wf(),
        ensures
            final(self).wf(),
            r == old(self).transition_outcome(requirement_id@, next, evidence_refs@),
            r is Ok ==> final(self).requirement_map() == old(self).requirement_map().insert(
                requirement_id@,
                if evidence_refs@.len() > 0 {
                    ComplianceRequirement {
                        state: next,
                        evidence_refs,
                        ..old(self).requirement_map()[requirement_id@]
                    }
                } else {
                    ComplianceRequirement { state: next, ..old(self).requirement_map()[requirement_id@] }
                },
            ),
            r is Err ==> final(self).requirement_map() == old(self).requirement_map(),
            satisfied_with_evidence(old(self).requirement_map()) ==> satisfied_with_evidence(
                final(self).requirement_map(),
            ),
    {
        let allowed = match self.requirements.get(requirement_id.as_str()) {
            None => return Err("requirement not found"),
            Some(item) => item.state.can_transition_to(&next),
        };
        if !allowed {
            return Err("invalid compliance state transition");
        }
        if next == ComplianceState::Satisfied && evidence_refs.len() == 0 {
            return Err("satisfied requirement evidence is required");
        }
        let mut item = self.requirements.take(requirement_id.as_str());
        item.state = next;
        if evidence_refs.len() > 0 {
            item.evidence_refs = evidence_refs;
        }
        self.requirements.insert_new(requirement_id.clone(), item);
        Ok(())
    }

    pub fn get(&self, id: &Id) -> (r: Option<&ComplianceRequirement>)
        requires
            self.wf(),
        ensures
            r is Some <==> self.requirement_map().contains_key(id@),
            r matches Some(v) ==> *v == self.requirement_map()[id@],
    {
        self.requirements.get(id.as_str())
    }

    /// Requirement ids in ascending order.
    pub fn ids(&self) -> (r: Vec<Id>)
        requires
            self.wf(),
        ensures
            strictly_sorted(r@.map_values(|s: String| s@)),
            forall|k: Seq<char>|
                self.requirement_map().contains_key(k) <==> r@.map_values(|s: String| s@).contains(k),
    {
        self.requirements.keys()
    }

    /// The requirements of one obligation, in ascending requirement id order.
    pub fn for_obligation(&self, obligation_id: &Id) -> (r: Vec<&ComplianceRequirement>)
        requires
            self.wf(),
        ensures
            r@.map_values(|v: &ComplianceRequirement| *v) == self.requirement_seq().filter(
                |v: ComplianceRequirement| v.obligation_id@ == obligation_id@,
            ),
    {
        let ghost pred = |v: ComplianceRequirement| v.obligation_id@ == obligation_id@;
        let ghost all = self.requirement_seq();
        let n = self.requirements.len();
        let mut r: Vec<&ComplianceRequirement> = Vec::new();
        let mut i: usize = 0;
        while i < n
            invariant
                self.wf(),
                all == self.requirement_seq(),
                pred == (|v: ComplianceRequirement| v.obligation_id@ == obligation_id@),
                n == all.len(),
                i <= n,
                r@.map_values(|v: &ComplianceRequirement| *v) == all.take(i as int).filter(pred),
            decreases n - i,
        {
            let item = self.requirements.value_at(i);
            proof {
                assert(all.take(i + 1) =~= all.take(i as int).push(all[i as int]));
                all.take(i as int).lemma_filter_push(all[i as int], pred);
            }
            if str_eq(item.obligation_id.as_str(), obligation_id.as_str()) {
                r.push(item);
                assert(r@.map_values(|v: &ComplianceRequirement| *v) =~= all.take(i as int).filter(
                    pred,
                ).push(*item));
            }
            i = i + 1;
        }
        assert(all.take(n as int) =~= all);
        r
    }
}

impl Default for ComplianceRegistry {
    fn default() -> (r: Self)
        ensures
            r.wf(),
            r.requirement_map() == Map::<Seq<char>, ComplianceRequirement>::empty(),
    {
        ComplianceRegistry::new()
    }
}

} // verus!
