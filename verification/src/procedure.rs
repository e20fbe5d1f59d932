//! Official procedures, their ordered steps, and the registry that keeps
//! each procedure together with exactly its declared steps.
use vstd::prelude::*;
use crate::chain::{Linked, ancestor, chain_ends, lemma_ancestor_split, walk_finds_cycle};
use crate::id_map::{IdMap, strictly_sorted};
use crate::resource::{Id, any_text_empty, has_empty_text, texts_view};
use crate::text::{
    lemma_seq_lt_irreflexive, lemma_seq_lt_transitive, lemma_seq_lt_trichotomy, seq_lt, str_eq,
    str_lt,
};

verus! {

#[derive(Debug, Clone, Copy, PartialEq, Eq, Structural)]
pub enum ProcedureStatus {
    Active,
    Inactive,
}

/// Some text occurs twice in the list.
pub open spec fn has_repeated_text(v: Seq<String>) -> bool {
    exists|i: int, j: int| 0 <= i < j < v.len() && (#[trigger] v[i])@ == (#[trigger] v[j])@
}

fn any_repeated_text(v: &Vec<String>) -> (b: bool)
    ensures
        b == has_repeated_text(v@),
{
    let mut j: usize = 0;
    while j < v.len()
        invariant
            j <= v.len(),
            forall|a: int, b: int| 0 <= a < b < j ==> (#[trigger] v@[a])@ != (#[trigger] v@[b])@,
        decreases v.len() - j,
    {
        let mut i: usize = 0;
        while i < j
            invariant
                i <= j < v.len(),
                forall|a: int| 0 <= a < i ==> (#[trigger] v@[a])@ != v@[j as int]@,
            decreases j - i,
        {
            if str_eq(v[i].as_str(), v[j].as_str()) {
                return true;
            }
            i = i + 1;
        }
        j = j + 1;
    }
    false
}

#[derive(Debug, Clone, PartialEq, Eq)]
pub struct Procedure {
    pub procedure_id: Id,
    pub name: String,
    pub jurisdiction_id: Id,
    pub authority_id: Id,
    pub status: ProcedureStatus,
    pub step_ids: Vec<Id>,
    pub source_refs: Vec<Id>,
}

impl Procedure {
    pub open spec fn validity(&self) -> Result<(), &'static str> {
        if self.procedure_id@.len() == 0 {
            Err("procedure id is required")
        } else if self.name@.len() == 0 {
            Err("procedure name is required")
        } else if self.jurisdiction_id@.len() == 0 {
            Err("procedure jurisdiction is required")
        } else if self.authority_id@.len() == 0 {
            Err("procedure authority is required")
        } else if self.source_refs@.len() == 0 {
            Err("procedure source references are required")
        } else if has_empty_text(self.step_ids@) {
            Err("procedure step id is required")
        } else if has_repeated_text(self.step_ids@) {
            Err("duplicate procedure step id")
        } else {
            Ok(())
        }
    }

    pub fn validate(&self) -> (r: Result<(), &'static str>)
        ensures
            r == self.validity(),
    {
        if self.procedure_id.as_str().is_empty() {
            return Err("procedure id is required");
        }
        if self.name.as_str().is_empty() {
            return Err("procedure name is required");
        }
        if self.jurisdiction_id.as_str().is_empty() {
            return Err("procedure jurisdiction is required");
        }
        if self.authority_id.as_str().is_empty() {
            return Err("procedure authority is required");
        }
        if self.source_refs.len() == 0 {
            return Err("procedure source references are required");
        }
        if any_text_empty(&self.step_ids) {
            return Err("procedure step id is required");
        }
        if any_repeated_text(&self.step_ids) {
            return Err("duplicate procedure step id");
        }
        Ok(())
    }
}

#[derive(Debug, Clone, PartialEq, Eq)]
pub struct ProcedureStep {
    pub step_id: Id,
    pub procedure_id: Id,
    pub sequence: u32,
    pub name: String,
    pub authority_id: Id,
    pub prerequisite_ids: Vec<Id>,
    pub evidence_refs: Vec<Id>,
    pub source_refs: Vec<Id>,
}

impl ProcedureStep {
    pub open spec fn validity(&self) -> Result<(), &'static str> {
        if self.step_id@.len() == 0 {
            Err("procedure step id is required")
        } else if self.procedure_id@.len() == 0 {
            Err("procedure step procedure is required")
        } else if self.sequence == 0 {
            Err("procedure step sequence must be positive")
        } else if self.name@.len() == 0 {
            Err("procedure step name is required")
        } else if self.authority_id@.len() == 0 {
            Err("procedure step authority is required")
        } else if self.source_refs@.len() == 0 {
            Err("procedure step source references are required")
        } else if has_empty_text(self.prerequisite_ids@) {
            Err("procedure prerequisite id is required")
        } else {
            Ok(())
        }
    }

    pub fn validate(&self) -> (r: Result<(), &'static str>)
        ensures
            r == self.validity(),
    {
        if self.step_id.as_str().is_empty() {
            return Err("procedure step id is required");
        }
        if self.procedure_id.as_str().is_empty() {
            return Err("procedure step procedure is required");
        }
        if self.sequence == 0 {
            return Err("procedure step sequence must be positive");
        }
        if self.name.as_str().is_empty() {
            return Err("procedure step name is required");
        }
        if self.authority_id.as_str().is_empty() {
            return Err("procedure step authority is required");
        }
        if self.source_refs.len() == 0 {
            return Err("procedure step source references are required");
        }
        if any_text_empty(&self.prerequisite_ids) {
            return Err("procedure prerequisite id is required");
        }
        Ok(())
    }
}

/// A step leads, along its chain, to its first prerequisite.
impl Linked for ProcedureStep {
    open spec fn link(&self) -> Option<Seq<char>> {
        if self.prerequisite_ids@.len() > 0 {
            Some(self.prerequisite_ids@[0]@)
        } else {
            None
        }
    }

    fn link_id(&self) -> (r: Option<&String>) {
        if self.prerequisite_ids.len() > 0 {
            Some(&self.prerequisite_ids[0])
        } else {
            None
        }
    }
}

/// Listing order of steps: by sequence, then by id.
pub open spec fn step_before(a: ProcedureStep, b: ProcedureStep) -> bool {
    a.sequence < b.sequence || (a.sequence == b.sequence && seq_lt(a.step_id@, b.step_id@))
}

fn step_precedes(a: &ProcedureStep, b: &ProcedureStep) -> (r: bool)
    ensures
        r == step_before(*a, *b),
{
    a.sequence < b.sequence || (a.sequence == b.sequence && str_lt(a.step_id.as_str(), b.step_id.as_str()))
}

/// The listing order is a strict total order on steps with distinct ids.
pub proof fn lemma_step_order(a: ProcedureStep, b: ProcedureStep, c: ProcedureStep)
    ensures
        !step_before(a, a),
        a.step_id@ != b.step_id@ ==> step_before(a, b) || step_before(b, a),
        step_before(a, b) && step_before(b, c) ==> step_before(a, c),
        step_before(a, b) ==> !step_before(b, a),
{
    lemma_seq_lt_irreflexive(a.step_id@);
    lemma_seq_lt_trichotomy(a.step_id@, b.step_id@);
    if seq_lt(a.step_id@, b.step_id@) && seq_lt(b.step_id@, c.step_id@) {
        lemma_seq_lt_transitive(a.step_id@, b.step_id@, c.step_id@);
    }
    if seq_lt(a.step_id@, b.step_id@) && seq_lt(b.step_id@, a.step_id@) {
        lemma_seq_lt_transitive(a.step_id@, b.step_id@, a.step_id@);
    }
}

pub struct ProcedureRegistry {
    procedures: IdMap<Procedure>,
    steps: IdMap<ProcedureStep>,
}

/// Each stored step is stored under its own id and belongs to a stored
/// procedure.
pub open spec fn steps_attached(procedures: Map<Seq<char>, Procedure>, steps: Map<Seq<char>, ProcedureStep>) -> bool {
    forall|k: Seq<char>| #[trigger]
        steps.contains_key(k) ==> steps[k].step_id@ == k && procedures.contains_key(steps[k].procedure_id@)
}

/// Each stored procedure is stored under its own id.
pub open spec fn procedures_keyed(procedures: Map<Seq<char>, Procedure>) -> bool {
    forall|k: Seq<char>| #[trigger] procedures.contains_key(k) ==> procedures[k].procedure_id@ == k
}

/// What is wrong with the prerequisites of `step`, from the `i`-th on, in
/// procedure `pid`: the first one missing, of another procedure, or not
/// earlier in sequence.
pub open spec fn prerequisite_fault(
    steps: Map<Seq<char>, ProcedureStep>,
    pid: Seq<char>,
    step: ProcedureStep,
    i: int,
) -> Option<&'static str>
    decreases step.prerequisite_ids@.len() - i,
{
    if i < 0 || i >= step.prerequisite_ids@.len() {
        None
    } else if !steps.contains_key(step.prerequisite_ids@[i]@) {
        Some("procedure prerequisite step not found")
    } else if steps[step.prerequisite_ids@[i]@].procedure_id@ != pid {
        Some("procedure prerequisite belongs to another procedure")
    } else if steps[step.prerequisite_ids@[i]@].sequence >= step.sequence {
        Some("procedure prerequisite must precede step")
    } else {
        prerequisite_fault(steps, pid, step, i + 1)
    }
}

/// What is wrong with a stored step of `procedure`.
pub open spec fn step_fault(steps: Map<Seq<char>, ProcedureStep>, procedure: Procedure, step: ProcedureStep) -> Option<
    &'static str,
> {
    if step.authority_id@ != procedure.authority_id@ {
        Some("procedure step authority mismatch")
    } else {
        prerequisite_fault(steps, procedure.procedure_id@, step, 0)
    }
}

/// The fault of the faulty step with the lowest sequence number, if any.
pub open spec fn first_fault(
    steps: Map<Seq<char>, ProcedureStep>,
    procedure: Procedure,
    batch: Seq<ProcedureStep>,
) -> Result<(), &'static str> {
    if exists|a: int| 0 <= a < batch.len() && #[trigger] step_fault(steps, procedure, batch[a]) is Some {
        let a = choose|a: int|
            0 <= a < batch.len() && #[trigger] step_fault(steps, procedure, batch[a]) is Some && forall|b: int|
                0 <= b < batch.len() && #[trigger] step_fault(steps, procedure, batch[b]) is Some
                    ==> batch[a].sequence <= batch[b].sequence;
        Err(step_fault(steps, procedure, batch[a])->0)
    } else {
        Ok(())
    }
}

/// The first problem of the new steps `batch[i..]` of `procedure`, checked
/// in order against the steps already stored.
pub open spec fn batch_fault(
    existing: Map<Seq<char>, ProcedureStep>,
    procedure: Procedure,
    batch: Seq<ProcedureStep>,
    i: int,
) -> Result<(), &'static str>
    decreases batch.len() - i,
{
    if i < 0 || i >= batch.len() {
        Ok(())
    } else if batch[i].validity() is Err {
        batch[i].validity()
    } else if batch[i].procedure_id@ != procedure.procedure_id@ {
        Err("procedure step belongs to another procedure")
    } else if !texts_view(procedure.step_ids@).contains(batch[i].step_id@) {
        Err("procedure step is not declared")
    } else if exists|j: int| 0 <= j < i && (#[trigger] batch[j]).step_id@ == batch[i].step_id@ {
        Err("duplicate procedure step id")
    } else if exists|j: int| 0 <= j < i && (#[trigger] batch[j]).sequence == batch[i].sequence {
        Err("duplicate procedure step sequence")
    } else if existing.contains_key(batch[i].step_id@) {
        Err("duplicate procedure step id")
    } else {
        batch_fault(existing, procedure, batch, i + 1)
    }
}

/// `m` with the first `n` steps of `batch` stored under their ids.
pub open spec fn store_steps(m: Map<Seq<char>, ProcedureStep>, batch: Seq<ProcedureStep>, n: int) -> Map<
    Seq<char>,
    ProcedureStep,
>
    decreases n,
{
    if n <= 0 || n > batch.len() {
        m
    } else {
        store_steps(m, batch, n - 1).insert(batch[n - 1].step_id@, batch[n - 1])
    }
}

/// Storing steps with distinct fresh ids adds exactly them.
pub proof fn lemma_store_steps(m: Map<Seq<char>, ProcedureStep>, batch: Seq<ProcedureStep>, n: int)
    requires
        0 <= n <= batch.len(),
        forall|a: int, b: int| 0 <= a < b < n ==> (#[trigger] batch[a]).step_id@ != (#[trigger] batch[b]).step_id@,
    ensures
        forall|k: Seq<char>| #[trigger]
            store_steps(m, batch, n).contains_key(k) <==> m.contains_key(k) || exists|a: int|
                0 <= a < n && (#[trigger] batch[a]).step_id@ == k,
        forall|a: int| 0 <= a < n ==> store_steps(m, batch, n)[(#[trigger] batch[a]).step_id@] == batch[a],
        forall|k: Seq<char>|
            m.contains_key(k) && !(exists|a: int| 0 <= a < n && (#[trigger] batch[a]).step_id@ == k)
                ==> #[trigger] store_steps(m, batch, n)[k] == m[k],
    decreases n,
{
    if n > 0 {
        lemma_store_steps(m, batch, n - 1);
        let prev = store_steps(m, batch, n - 1);
        let last = batch[n - 1];
        assert(store_steps(m, batch, n) == prev.insert(last.step_id@, last));
        assert forall|k: Seq<char>| #[trigger]
            store_steps(m, batch, n).contains_key(k) <==> m.contains_key(k) || exists|a: int|
                0 <= a < n && (#[trigger] batch[a]).step_id@ == k by {
            if k == last.step_id@ {
                assert(batch[n - 1].step_id@ == k);
            } else {
                if exists|a: int| 0 <= a < n && (#[trigger] batch[a]).step_id@ == k {
                    let a = choose|a: int| 0 <= a < n && (#[trigger] batch[a]).step_id@ == k;
                    assert(a < n - 1);
                    assert(prev.contains_key(k));
                }
                if prev.contains_key(k) && !m.contains_key(k) {
                    let a = choose|a: int| 0 <= a < n - 1 && (#[trigger] batch[a]).step_id@ == k;
                    assert(0 <= a < n && batch[a].step_id@ == k);
                }
            }
        }
        assert forall|a: int| 0 <= a < n implies store_steps(m, batch, n)[(#[trigger] batch[a]).step_id@]
            == batch[a] by {
            if a < n - 1 {
                assert(batch[a].step_id@ != last.step_id@);
            }
        }
        assert forall|k: Seq<char>|
            m.contains_key(k) && !(exists|a: int| 0 <= a < n && (#[trigger] batch[a]).step_id@ == k) implies #[trigger] store_steps(
            m,
            batch,
            n,
        )[k] == m[k] by {
            assert(batch[n - 1].step_id@ != k);
            assert(!(exists|a: int| 0 <= a < n - 1 && (#[trigger] batch[a]).step_id@ == k)) by {
                if exists|a: int| 0 <= a < n - 1 && (#[trigger] batch[a]).step_id@ == k {
                    let a = choose|a: int| 0 <= a < n - 1 && (#[trigger] batch[a]).step_id@ == k;
                    assert(0 <= a < n && batch[a].step_id@ == k);
                }
            }
        }
    }
}

impl ProcedureRegistry {
    pub closed spec fn wf(&self) -> bool {
        &&& self.procedures.wf()
        &&& self.steps.wf()
        &&& steps_attached(self.procedures.map(), self.steps.map())
        &&& procedures_keyed(self.procedures.map())
    }

    pub closed spec fn procedure_map(&self) -> Map<Seq<char>, Procedure> {
        self.procedures.map()
    }

    pub closed spec fn step_map(&self) -> Map<Seq<char>, ProcedureStep> {
        self.steps.map()
    }

    pub fn new() -> (r: Self)
        ensures
            r.wf(),
            r.procedure_map() == Map::<Seq<char>, Procedure>::empty(),
            r.step_map() == Map::<Seq<char>, ProcedureStep>::empty(),
    {
        ProcedureRegistry { procedures: IdMap::new(), steps: IdMap::new() }
    }

    pub fn get_procedure(&self, id: &Id) -> (r: Option<&Procedure>)
        requires
            self.wf(),
        ensures
            r is Some <==> self.procedure_map().contains_key(id@),
            r matches Some(p) ==> *p == self.procedure_map()[id@],
    {
        self.procedures.get(id.as_str())
    }

    pub fn get_step(&self, id: &Id) -> (r: Option<&ProcedureStep>)
        requires
            self.wf(),
        ensures
            r is Some <==> self.step_map().contains_key(id@),
            r matches Some(s) ==> *s == self.step_map()[id@],
    {
        self.steps.get(id.as_str())
    }

    /// Procedure ids in ascending order.
    pub fn procedure_ids(&self) -> (r: Vec<Id>)
        requires
            self.wf(),
        ensures
            strictly_sorted(texts_view(r@)),
            forall|k: Seq<char>| self.procedure_map().contains_key(k) <==> texts_view(r@).contains(k),
    {
        let r = self.procedures.keys();
        assert(texts_view(r@) =~= r@.map_values(|s: String| s@));
        r
    }

    /// The steps of one procedure, by sequence and then by id.
    #[verifier::rlimit(40)]
    pub fn steps_for(&self, procedure_id: &Id) -> (r: Vec<&ProcedureStep>)
        requires
            self.wf(),
        ensures
            forall|i: int, j: int| 0 <= i < j < r@.len() ==> step_before(*#[trigger] r@[i], *#[trigger] r@[j]),
            forall|i: int|
                0 <= i < r@.len() ==> (#[trigger] r@[i]).procedure_id@ == procedure_id@
                    && self.step_map().contains_key(r@[i].step_id@) && self.step_map()[r@[i].step_id@]
                    == *r@[i],
            forall|k: Seq<char>| #[trigger]
                self.step_map().contains_key(k) && self.step_map()[k].procedure_id@ == procedure_id@
                    ==> exists|i: int| 0 <= i < r@.len() && *r@[i] == self.step_map()[k],
    {
        let n = self.steps.len();
        let ghost map = self.step_map();
        let mut r: Vec<&ProcedureStep> = Vec::new();
        let mut i: usize = 0;
        proof {
            self.steps.lemma_layout();
        }
        while i < n
            invariant
                self.steps.wf(),
                steps_attached(self.procedures.map(), map),
                map == self.step_map(),
                n == self.steps.key_seq().len(),
                i <= n,
                forall|a: int, b: int| 0 <= a < b < r@.len() ==> step_before(*#[trigger] r@[a], *#[trigger] r@[b]),
                forall|a: int|
                    0 <= a < r@.len() ==> (#[trigger] r@[a]).procedure_id@ == procedure_id@
                        && map.contains_key(r@[a].step_id@) && map[r@[a].step_id@] == *r@[a],
                forall|a: int|
                    0 <= a < r@.len() ==> exists|t: int| 0 <= t < i && self.steps.key_seq()[t] == (#[trigger] r@[a]).step_id@,
                forall|t: int|
                    0 <= t < i && (#[trigger] map[self.steps.key_seq()[t]]).procedure_id@ == procedure_id@
                        ==> exists|a: int| 0 <= a < r@.len() && *r@[a] == map[self.steps.key_seq()[t]],
            decreases n - i,
        {
            proof {
                self.steps.lemma_layout();
            }
            let candidate = self.steps.value_at(i);
            let ghost key = self.steps.key_seq()[i as int];
            assert(map.contains_key(key) && map[key] == *candidate);
            assert(candidate.step_id@ == key);
            if str_eq(candidate.procedure_id.as_str(), procedure_id.as_str()) {
                let mut j: usize = 0;
                while j < r.len() && !step_precedes(candidate, r[j])
                    invariant
                        j <= r@.len(),
                        forall|a: int| 0 <= a < j ==> !step_before(*candidate, *#[trigger] r@[a]),
                    decreases r@.len() - j,
                {
                    j = j + 1;
                }
                let ghost before = r@;
                proof {
                    assert forall|a: int| 0 <= a < before.len() implies (#[trigger] before[a]).step_id@
                        != candidate.step_id@ by {
                        let t = choose|t: int| 0 <= t < i && self.steps.key_seq()[t] == before[a].step_id@;
                        lemma_seq_lt_irreflexive(key);
                        assert(seq_lt(self.steps.key_seq()[t], self.steps.key_seq()[i as int]));
                    }
                    assert forall|a: int| 0 <= a < j implies step_before(*#[trigger] before[a], *candidate) by {
                        lemma_step_order(*candidate, *before[a], *candidate);
                    }
                    assert forall|a: int| j <= a < before.len() implies step_before(*candidate, *#[trigger] before[a]) by {
                        if a > j {
                            lemma_step_order(*candidate, *before[j as int], *before[a]);
                        }
                    }
                }
                r.insert(j, candidate);
                proof {
                    assert forall|a: int, b: int| 0 <= a < b < r@.len() implies step_before(
                        *#[trigger] r@[a],
                        *#[trigger] r@[b],
                    ) by {
                        if b < j {
                            assert(r@[a] == before[a] && r@[b] == before[b]);
                        } else if b == j {
                            assert(r@[a] == before[a]);
                        } else if a < j {
                            assert(r@[a] == before[a] && r@[b] == before[b - 1]);
                            lemma_step_order(*before[a], *candidate, *before[b - 1]);
                        } else if a == j {
                            assert(r@[b] == before[b - 1]);
                        } else {
                            assert(r@[a] == before[a - 1] && r@[b] == before[b - 1]);
                        }
                    }
                    assert forall|a: int| 0 <= a < r@.len() implies exists|t: int|
                        0 <= t < i + 1 && self.steps.key_seq()[t] == (#[trigger] r@[a]).step_id@ by {
                        if a < j {
                            assert(r@[a] == before[a]);
                        } else if a > j {
                            assert(r@[a] == before[a - 1]);
                        } else {
                            assert(self.steps.key_seq()[i as int] == r@[a].step_id@);
                        }
                    }
                    assert forall|a: int| 0 <= a < r@.len() implies (#[trigger] r@[a]).procedure_id@
                        == procedure_id@ && map.contains_key(r@[a].step_id@) && map[r@[a].step_id@] == *r@[a] by {
                        if a < j {
                            assert(r@[a] == before[a]);
                        } else if a > j {
                            assert(r@[a] == before[a - 1]);
                        }
                    }
                    assert forall|t: int|
                        0 <= t < i + 1 && (#[trigger] map[self.steps.key_seq()[t]]).procedure_id@
                            == procedure_id@ implies exists|a: int| 0 <= a < r@.len() && *r@[a] == map[self.steps.key_seq()[t]] by {
                        if t < i {
                            let a = choose|a: int| 0 <= a < before.len() && *before[a] == map[self.steps.key_seq()[t]];
                            if a < j {
                                assert(r@[a] == before[a]);
                            } else {
                                assert(r@[a + 1] == before[a]);
                            }
                        } else {
                            assert(*r@[j as int] == map[self.steps.key_seq()[t]]);
                        }
                    }
                }
            }
            i = i + 1;
        }
        proof {
            self.steps.lemma_layout();
            assert forall|k: Seq<char>| #[trigger]
                map.contains_key(k) && map[k].procedure_id@ == procedure_id@ implies exists|a: int|
                0 <= a < r@.len() && *r@[a] == map[k] by {
                let t = self.steps.key_seq().index_of(k);
                assert(self.steps.key_seq()[t] == k);
                assert(map[self.steps.key_seq()[t]].procedure_id@ == procedure_id@);
            }
        }
        r
    }
}

fn position_of(v: &Vec<u32>, x: u32) -> (r: Option<usize>)
    ensures
        match r {
            Some(i) => i < v@.len() && v@[i as int] == x,
            None => forall|i: int| 0 <= i < v@.len() ==> v@[i] != x,
        },
{
    let mut i: usize = 0;
    while i < v.len()
        invariant
            i <= v.len(),
            forall|j: int| 0 <= j < i ==> v@[j] != x,
        decreases v.len() - i,
    {
        if v[i] == x {
            return Some(i);
        }
        i = i + 1;
    }
    None
}

/// Whether step `i` repeats the id of an earlier step.
fn repeats_earlier_id(steps: &Vec<ProcedureStep>, i: usize) -> (b: bool)
    requires
        i < steps@.len(),
    ensures
        b == exists|j: int| 0 <= j < i && (#[trigger] steps@[j]).step_id@ == steps@[i as int].step_id@,
{
    let mut j: usize = 0;
    while j < i
        invariant
            j <= i < steps@.len(),
            forall|a: int| 0 <= a < j ==> (#[trigger] steps@[a]).step_id@ != steps@[i as int].step_id@,
        decreases i - j,
    {
        if str_eq(steps[j].step_id.as_str(), steps[i].step_id.as_str()) {
            return true;
        }
        j = j + 1;
    }
    false
}

/// Whether step `i` repeats the sequence number of an earlier step.
fn repeats_earlier_sequence(steps: &Vec<ProcedureStep>, i: usize) -> (b: bool)
    requires
        i < steps@.len(),
    ensures
        b == exists|j: int| 0 <= j < i && (#[trigger] steps@[j]).sequence == steps@[i as int].sequence,
{
    let mut j: usize = 0;
    while j < i
        invariant
            j <= i < steps@.len(),
            forall|a: int| 0 <= a < j ==> (#[trigger] steps@[a]).sequence != steps@[i as int].sequence,
        decreases i - j,
    {
        if steps[j].sequence == steps[i].sequence {
            return true;
        }
        j = j + 1;
    }
    false
}

/// A step whose prerequisites are all fine leads through earlier steps of
/// its procedure, so its chain ends.
pub proof fn lemma_ordered_chain_ends(steps: Map<Seq<char>, ProcedureStep>, procedure: Procedure, k: Seq<char>)
    requires
        steps.contains_key(k),
        steps[k].procedure_id@ == procedure.procedure_id@,
        forall|x: Seq<char>| #[trigger]
            steps.contains_key(x) && steps[x].procedure_id@ == procedure.procedure_id@ ==> step_fault(
                steps,
                procedure,
                steps[x],
            ) is None,
    ensures
        chain_ends(steps, k),
    decreases steps[k].sequence,
{
    let st = steps[k];
    assert(step_fault(steps, procedure, st) is None);
    assert(ancestor(steps, k, 0) == Some(k));
    if st.prerequisite_ids@.len() == 0 {
        assert(ancestor(steps, k, 1) is None);
    } else {
        let p = st.prerequisite_ids@[0]@;
        assert(prerequisite_fault(steps, procedure.procedure_id@, st, 0) is None);
        assert(steps.contains_key(p) && steps[p].procedure_id@ == procedure.procedure_id@);
        lemma_ordered_chain_ends(steps, procedure, p);
        let l = choose|l: nat| #[trigger] ancestor(steps, p, l) is None;
        assert(ancestor(steps, k, 1) == Some(p));
        lemma_ancestor_split(steps, k, 1, l);
        assert(ancestor(steps, k, 1 + l) is None);
    }
}

impl ProcedureRegistry {
    /// The first problem among the prerequisites of `step`.
    fn prerequisite_problem(&self, step: &ProcedureStep, procedure_id: &Id) -> (r: Option<&'static str>)
        requires
            self.wf(),
        ensures
            r == prerequisite_fault(self.step_map(), procedure_id@, *step, 0),
    {
        let m = step.prerequisite_ids.len();
        let mut j: usize = 0;
        while j < m
            invariant
                self.wf(),
                m == step.prerequisite_ids@.len(),
                j <= m,
                prerequisite_fault(self.step_map(), procedure_id@, *step, 0) == prerequisite_fault(
                    self.step_map(),
                    procedure_id@,
                    *step,
                    j as int,
                ),
            decreases m - j,
        {
            match self.steps.get(step.prerequisite_ids[j].as_str()) {
                None => return Some("procedure prerequisite step not found"),
                Some(prior) => {
                    if !str_eq(prior.procedure_id.as_str(), procedure_id.as_str()) {
                        return Some("procedure prerequisite belongs to another procedure");
                    }
                    if prior.sequence >= step.sequence {
                        return Some("procedure prerequisite must precede step");
                    }
                },
            }
            j = j + 1;
        }
        None
    }

    /// Checks the stored steps of a freshly stored procedure: each step's
    /// authority and prerequisites in listing order, then the prerequisite
    /// chains.
    #[verifier::rlimit(60)]
    fn validate_procedure(&self, procedure_id: &Id, Ghost(batch): Ghost<Seq<ProcedureStep>>) -> (r: Result<
        (),
        &'static str,
    >)
        requires
            self.wf(),
            self.procedure_map().contains_key(procedure_id@),
            self.procedure_map()[procedure_id@].validity() is Ok,
            batch.len() == self.procedure_map()[procedure_id@].step_ids@.len(),
            forall|a: int, b: int| 0 <= a < b < batch.len() ==> (#[trigger] batch[a]).step_id@ != (#[trigger] batch[b]).step_id@,
            forall|a: int, b: int| 0 <= a < b < batch.len() ==> (#[trigger] batch[a]).sequence != (#[trigger] batch[b]).sequence,
            forall|a: int|
                0 <= a < batch.len() ==> texts_view(self.procedure_map()[procedure_id@].step_ids@).contains(
                    (#[trigger] batch[a]).step_id@,
                ),
            forall|a: int|
                0 <= a < batch.len() ==> self.step_map().contains_key((#[trigger] batch[a]).step_id@)
                    && self.step_map()[batch[a].step_id@] == batch[a] && batch[a].procedure_id@ == procedure_id@,
            forall|k: Seq<char>| #[trigger]
                self.step_map().contains_key(k) && self.step_map()[k].procedure_id@ == procedure_id@
                    ==> exists|a: int| 0 <= a < batch.len() && batch[a] == self.step_map()[k],
        ensures
            r == first_fault(self.step_map(), self.procedure_map()[procedure_id@], batch),
    {
        let ghost map = self.step_map();
        let ghost pmap = self.procedure_map();
        let procedure = match self.procedures.get(procedure_id.as_str()) {
            None => return Err("procedure not found"),
            Some(p) => p,
        };
        let ghost proc = *procedure;
        assert(proc.procedure_id@ == procedure_id@);
        let steps = self.steps_for(procedure_id);
        let n = steps.len();
        proof {
            // The listed steps are exactly the new steps, so there are as many.
            let ids = steps@.map_values(|x: &ProcedureStep| x.step_id@);
            let bids = batch.map_values(|x: ProcedureStep| x.step_id@);
            assert forall|a: int, b: int| 0 <= a < ids.len() && 0 <= b < ids.len() && a != b implies ids[a] != ids[b] by {
                lemma_step_order(*steps@[a], *steps@[b], *steps@[a]);
                lemma_step_order(*steps@[b], *steps@[a], *steps@[b]);
            }
            assert(ids.no_duplicates());
            assert forall|a: int, b: int| 0 <= a < bids.len() && 0 <= b < bids.len() && a != b implies bids[a] != bids[b] by {
                if a < b {
                    assert(batch[a].step_id@ != batch[b].step_id@);
                } else {
                    assert(batch[b].step_id@ != batch[a].step_id@);
                }
            }
            assert(bids.no_duplicates());
            assert forall|x: Seq<char>| ids.to_set().contains(x) <==> bids.to_set().contains(x) by {
                if ids.contains(x) {
                    let a = ids.index_of(x);
                    assert(map.contains_key(x) && map[x].procedure_id@ == procedure_id@);
                    let b = choose|b: int| 0 <= b < batch.len() && batch[b] == map[x];
                    assert(bids[b] == x);
                }
                if bids.contains(x) {
                    let b = bids.index_of(x);
                    assert(map.contains_key(batch[b].step_id@));
                    let a = choose|a: int| 0 <= a < steps@.len() && *steps@[a] == map[batch[b].step_id@];
                    assert(ids[a] == x);
                }
            }
            assert(ids.to_set() =~= bids.to_set());
            ids.unique_seq_to_set();
            bids.unique_seq_to_set();
        }
        if n != procedure.step_ids.len() {
            return Err("procedure step set does not match step definitions");
        }
        let mut sequences: Vec<u32> = Vec::new();
        let mut i: usize = 0;
        while i < n
            invariant
                self.wf(),
                map == self.step_map(),
                pmap == self.procedure_map(),
                proc == pmap[procedure_id@],
                *procedure == proc,
                proc.procedure_id@ == procedure_id@,
                n == steps@.len(),
                i <= n,
                sequences@.len() == i,
                forall|t: int| 0 <= t < i ==> #[trigger] sequences@[t] == steps@[t].sequence,
                forall|t: int| 0 <= t < i ==> step_fault(map, proc, *#[trigger] steps@[t]) is None,
                forall|a: int, b: int| 0 <= a < b < steps@.len() ==> step_before(*#[trigger] steps@[a], *#[trigger] steps@[b]),
                forall|a: int|
                    0 <= a < steps@.len() ==> (#[trigger] steps@[a]).procedure_id@ == procedure_id@
                        && map.contains_key(steps@[a].step_id@) && map[steps@[a].step_id@] == *steps@[a],
                forall|k: Seq<char>| #[trigger]
                    map.contains_key(k) && map[k].procedure_id@ == procedure_id@ ==> exists|a: int|
                        0 <= a < steps@.len() && *steps@[a] == map[k],
                forall|a: int, b: int| 0 <= a < b < batch.len() ==> (#[trigger] batch[a]).sequence != (#[trigger] batch[b]).sequence,
                forall|a: int|
                    0 <= a < batch.len() ==> texts_view(proc.step_ids@).contains((#[trigger] batch[a]).step_id@),
                forall|a: int|
                    0 <= a < batch.len() ==> map.contains_key((#[trigger] batch[a]).step_id@)
                        && map[batch[a].step_id@] == batch[a] && batch[a].procedure_id@ == procedure_id@,
                forall|k: Seq<char>| #[trigger]
                    map.contains_key(k) && map[k].procedure_id@ == procedure_id@ ==> exists|a: int|
                        0 <= a < batch.len() && batch[a] == map[k],
            decreases n - i,
        {
            let step = steps[i];
            proof {
                assert(map.contains_key(step.step_id@) && map[step.step_id@].procedure_id@ == procedure_id@);
                let b = choose|b: int| 0 <= b < batch.len() && batch[b] == map[step.step_id@];
                assert(batch[b] == *step);
            }
            if !crate::resource::texts_contain(&procedure.step_ids, step.step_id.as_str()) {
                return Err("procedure step is not declared");
            }
            if !str_eq(step.authority_id.as_str(), procedure.authority_id.as_str()) {
                proof {
                    self.lemma_first_fault_is(map, proc, batch, steps@, i as int);
                }
                return Err("procedure step authority mismatch");
            }
            match position_of(&sequences, step.sequence) {
                Some(t) => {
                    proof {
                        let u = t as int;
                        assert(sequences@[u] == steps@[u].sequence);
                        assert(map.contains_key(steps@[u].step_id@) && map[steps@[u].step_id@].procedure_id@ == procedure_id@);
                        let ba = choose|b: int| 0 <= b < batch.len() && batch[b] == map[steps@[u].step_id@];
                        let bb = choose|b: int| 0 <= b < batch.len() && batch[b] == map[step.step_id@];
                        assert(ba != bb) by {
                            lemma_step_order(*steps@[u], *step, *steps@[u]);
                        }
                        if ba < bb {
                            assert(batch[ba].sequence != batch[bb].sequence);
                        } else {
                            assert(batch[bb].sequence != batch[ba].sequence);
                        }
                    }
                    return Err("duplicate procedure step sequence");
                },
                None => {},
            }
            sequences.push(step.sequence);
            match self.prerequisite_problem(step, procedure_id) {
                Some(e) => {
                    proof {
                        self.lemma_first_fault_is(map, proc, batch, steps@, i as int);
                    }
                    return Err(e);
                },
                None => {},
            }
            proof {
                assert(step_fault(map, proc, *step) is None);
                assert(sequences@[i as int] == steps@[i as int].sequence);
            }
            i = i + 1;
        }
        proof {
            assert forall|x: Seq<char>| #[trigger]
                map.contains_key(x) && map[x].procedure_id@ == proc.procedure_id@ implies step_fault(
                map,
                proc,
                map[x],
            ) is None by {
                let a = choose|a: int| 0 <= a < steps@.len() && *steps@[a] == map[x];
            }
            assert(!(exists|a: int| 0 <= a < batch.len() && #[trigger] step_fault(map, proc, batch[a]) is Some)) by {
                if exists|a: int| 0 <= a < batch.len() && #[trigger] step_fault(map, proc, batch[a]) is Some {
                    let a = choose|a: int| 0 <= a < batch.len() && #[trigger] step_fault(map, proc, batch[a]) is Some;
                    assert(map.contains_key(batch[a].step_id@));
                }
            }
        }
        let mut c: usize = 0;
        while c < n
            invariant
                self.wf(),
                map == self.step_map(),
                n == steps@.len(),
                c <= n,
                proc.procedure_id@ == procedure_id@,
                forall|a: int|
                    0 <= a < steps@.len() ==> (#[trigger] steps@[a]).procedure_id@ == procedure_id@
                        && map.contains_key(steps@[a].step_id@) && map[steps@[a].step_id@] == *steps@[a],
                forall|x: Seq<char>| #[trigger]
                    map.contains_key(x) && map[x].procedure_id@ == proc.procedure_id@ ==> step_fault(
                        map,
                        proc,
                        map[x],
                    ) is None,
            decreases n - c,
        {
            proof {
                lemma_ordered_chain_ends(map, proc, steps@[c as int].step_id@);
            }
            if walk_finds_cycle(&self.steps, &steps[c].step_id) {
                return Err("procedure prerequisite cycle detected");
            }
            c = c + 1;
        }
        Ok(())
    }

    /// The step at position `i` of the listing is faulty and the ones before
    /// it are not: its fault is the first fault of the new steps.
    proof fn lemma_first_fault_is(
        &self,
        map: Map<Seq<char>, ProcedureStep>,
        proc: Procedure,
        batch: Seq<ProcedureStep>,
        steps: Seq<&ProcedureStep>,
        i: int,
    )
        requires
            0 <= i < steps.len(),
            step_fault(map, proc, *steps[i]) is Some,
            forall|t: int| 0 <= t < i ==> step_fault(map, proc, *#[trigger] steps[t]) is None,
            forall|a: int, b: int| 0 <= a < b < steps.len() ==> step_before(*#[trigger] steps[a], *#[trigger] steps[b]),
            forall|a: int|
                0 <= a < steps.len() ==> (#[trigger] steps[a]).procedure_id@ == proc.procedure_id@
                    && map.contains_key(steps[a].step_id@) && map[steps[a].step_id@] == *steps[a],
            forall|k: Seq<char>| #[trigger]
                map.contains_key(k) && map[k].procedure_id@ == proc.procedure_id@ ==> exists|a: int|
                    0 <= a < steps.len() && *steps[a] == map[k],
            forall|a: int, b: int| 0 <= a < b < batch.len() ==> (#[trigger] batch[a]).sequence != (#[trigger] batch[b]).sequence,
            forall|a: int|
                0 <= a < batch.len() ==> map.contains_key((#[trigger] batch[a]).step_id@)
                    && map[batch[a].step_id@] == batch[a] && batch[a].procedure_id@ == proc.procedure_id@,
            forall|k: Seq<char>| #[trigger]
                map.contains_key(k) && map[k].procedure_id@ == proc.procedure_id@ ==> exists|a: int|
                    0 <= a < batch.len() && batch[a] == map[k],
        ensures
            first_fault(map, proc, batch) == Err::<(), &'static str>(step_fault(map, proc, *steps[i])->0),
    {
        let st = *steps[i];
        assert(map.contains_key(st.step_id@) && map[st.step_id@].procedure_id@ == proc.procedure_id@);
        let a0 = choose|a: int| 0 <= a < batch.len() && batch[a] == map[st.step_id@];
        assert(batch[a0] == st);
        assert forall|b: int| 0 <= b < batch.len() && #[trigger] step_fault(map, proc, batch[b]) is Some implies st.sequence
            <= batch[b].sequence by {
            assert(map.contains_key(batch[b].step_id@));
            let t = choose|t: int| 0 <= t < steps.len() && *steps[t] == map[batch[b].step_id@];
            if t < i {
                assert(step_fault(map, proc, *steps[t]) is None);
            } else if t > i {
                assert(step_before(*steps[i], *steps[t]));
            }
        }
        assert(step_fault(map, proc, batch[a0]) is Some);
        let a = choose|a: int|
            0 <= a < batch.len() && #[trigger] step_fault(map, proc, batch[a]) is Some && forall|b: int|
                0 <= b < batch.len() && #[trigger] step_fault(map, proc, batch[b]) is Some
                    ==> batch[a].sequence <= batch[b].sequence;
        assert(batch[a].sequence <= st.sequence);
        if a != a0 {
            if a < a0 {
                assert(batch[a].sequence != batch[a0].sequence);
            } else {
                assert(batch[a0].sequence != batch[a].sequence);
            }
        }
    }
}

impl ProcedureRegistry {
    /// What inserting `procedure` with its `steps` answers.
    pub open spec fn insertion(&self, procedure: Procedure, steps: Seq<ProcedureStep>) -> Result<(), &'static str> {
        if procedure.validity() is Err {
            procedure.validity()
        } else if self.procedure_map().contains_key(procedure.procedure_id@) {
            Err("duplicate procedure id")
        } else if procedure.step_ids@.len() != steps.len() {
            Err("procedure step set does not match step definitions")
        } else if batch_fault(self.step_map(), procedure, steps, 0) is Err {
            batch_fault(self.step_map(), procedure, steps, 0)
        } else {
            first_fault(store_steps(self.step_map(), steps, steps.len() as int), procedure, steps)
        }
    }

    /// Stores a procedure with exactly its declared steps, or nothing.
    #[verifier::rlimit(60)]
    pub fn insert(&mut self, procedure: Procedure, steps: Vec<ProcedureStep>) -> (r: Result<(), &'static str>)
        requires
            old(self).wf(),
        ensures
            final(self).wf(),
            r == old(self).insertion(procedure, steps@),
            r is Ok ==> final(self).procedure_map() == old(self).procedure_map().insert(
                procedure.procedure_id@,
                procedure,
            ) && final(self).step_map() == store_steps(old(self).step_map(), steps@, steps@.len() as int),
            r is Err ==> final(self).procedure_map() == old(self).procedure_map() && final(self).step_map()
                == old(self).step_map(),
    {
        match procedure.validate() {
            Ok(()) => {},
            Err(e) => return Err(e),
        }
        if self.procedures.contains_key(procedure.procedure_id.as_str()) {
            return Err("duplicate procedure id");
        }
        if procedure.step_ids.len() != steps.len() {
            return Err("procedure step set does not match step definitions");
        }
        let n = steps.len();
        let ghost batch = steps@;
        let ghost old_steps = self.step_map();
        let ghost old_procs = self.procedure_map();
        assert(steps_attached(old_procs, old_steps) && procedures_keyed(old_procs));
        let mut i: usize = 0;
        while i < n
            invariant
                n == batch.len(),
                batch == steps@,
                i <= n,
                old_steps == self.step_map(),
                old_procs == self.procedure_map(),
                *self == *old(self),
                self.wf(),
                procedure.validity() is Ok,
                !old_procs.contains_key(procedure.procedure_id@),
                procedure.step_ids@.len() == n,
                batch_fault(old_steps, procedure, batch, 0) == batch_fault(old_steps, procedure, batch, i as int),
                forall|a: int, b: int| 0 <= a < b < i ==> (#[trigger] batch[a]).step_id@ != (#[trigger] batch[b]).step_id@,
                forall|a: int, b: int| 0 <= a < b < i ==> (#[trigger] batch[a]).sequence != (#[trigger] batch[b]).sequence,
                forall|a: int| 0 <= a < i ==> (#[trigger] batch[a]).procedure_id@ == procedure.procedure_id@,
                forall|a: int| 0 <= a < i ==> texts_view(procedure.step_ids@).contains((#[trigger] batch[a]).step_id@),
                forall|a: int| 0 <= a < i ==> !old_steps.contains_key((#[trigger] batch[a]).step_id@),
            decreases n - i,
        {
            let step = &steps[i];
            match step.validate() {
                Ok(()) => {},
                Err(e) => return Err(e),
            }
            if !str_eq(step.procedure_id.as_str(), procedure.procedure_id.as_str()) {
                return Err("procedure step belongs to another procedure");
            }
            if !crate::resource::texts_contain(&procedure.step_ids, step.step_id.as_str()) {
                return Err("procedure step is not declared");
            }
            if repeats_earlier_id(&steps, i) {
                return Err("duplicate procedure step id");
            }
            if repeats_earlier_sequence(&steps, i) {
                return Err("duplicate procedure step sequence");
            }
            if self.steps.contains_key(step.step_id.as_str()) {
                return Err("duplicate procedure step id");
            }
            i = i + 1;
        }
        // Store the procedure and its steps.
        let pid = procedure.procedure_id.clone();
        self.procedures.insert_new(procedure.procedure_id.clone(), procedure);
        let mut rest = steps;
        let mut stored_ids: Vec<String> = Vec::new();
        let mut j: usize = 0;
        proof {
            lemma_store_steps(old_steps, batch, 0);
        }
        while j < n
            invariant
                n == batch.len(),
                j <= n,
                rest@ == batch.skip(j as int),
                stored_ids@.len() == j,
                forall|a: int| 0 <= a < j ==> (#[trigger] stored_ids@[a])@ == batch[a].step_id@,
                self.procedures.wf(),
                self.steps.wf(),
                self.procedure_map() == old_procs.insert(pid@, procedure),
                self.step_map() == store_steps(old_steps, batch, j as int),
                forall|a: int, b: int| 0 <= a < b < n ==> (#[trigger] batch[a]).step_id@ != (#[trigger] batch[b]).step_id@,
                forall|a: int| 0 <= a < n ==> !old_steps.contains_key((#[trigger] batch[a]).step_id@),
                !old_procs.contains_key(pid@),
                pid@ == procedure.procedure_id@,
            decreases n - j,
        {
            let ghost before = rest@;
            let item = rest.remove(0);
            proof {
                assert(item == batch[j as int]);
                assert(rest@ =~= batch.skip(j + 1));
                lemma_store_steps(old_steps, batch, j as int);
                assert(!self.step_map().contains_key(item.step_id@)) by {
                    if self.step_map().contains_key(item.step_id@) {
                        let a = choose|a: int| 0 <= a < j && (#[trigger] batch[a]).step_id@ == item.step_id@;
                    }
                }
            }
            stored_ids.push(item.step_id.clone());
            self.steps.insert_new(item.step_id.clone(), item);
            j = j + 1;
        }
        proof {
            lemma_store_steps(old_steps, batch, n as int);
            let new_steps = self.step_map();
            let new_procs = self.procedure_map();
            assert forall|k: Seq<char>| #[trigger] new_steps.contains_key(k) implies new_steps[k].step_id@ == k
                && new_procs.contains_key(new_steps[k].procedure_id@) by {
                if exists|a: int| 0 <= a < n && (#[trigger] batch[a]).step_id@ == k {
                    let a = choose|a: int| 0 <= a < n && (#[trigger] batch[a]).step_id@ == k;
                    assert(new_steps[batch[a].step_id@] == batch[a]);
                } else {
                    assert(old_steps.contains_key(k));
                }
            }
            assert(steps_attached(new_procs, new_steps));
            assert forall|k: Seq<char>| #[trigger] new_procs.contains_key(k) implies new_procs[k].procedure_id@ == k by {
                if k != pid@ {
                    assert(old_procs.contains_key(k));
                }
            }
            assert forall|k: Seq<char>| #[trigger]
                new_steps.contains_key(k) && new_steps[k].procedure_id@ == pid@ implies exists|a: int|
                0 <= a < batch.len() && batch[a] == new_steps[k] by {
                if exists|a: int| 0 <= a < n && (#[trigger] batch[a]).step_id@ == k {
                    let a = choose|a: int| 0 <= a < n && (#[trigger] batch[a]).step_id@ == k;
                    assert(new_steps[batch[a].step_id@] == batch[a]);
                } else {
                    assert(old_steps.contains_key(k) && old_procs.contains_key(old_steps[k].procedure_id@));
                }
            }
        }
        let outcome = self.validate_procedure(&pid, Ghost(batch));
        match outcome {
            Ok(()) => Ok(()),
            Err(e) => {
                // Undo: drop the procedure and every step just stored.
                let _ = self.procedures.take(pid.as_str());
                assert(self.procedure_map() =~= old_procs);
                let mut t: usize = 0;
                while t < n
                    invariant
                        n == batch.len(),
                        t <= n,
                        stored_ids@.len() == n,
                        forall|a: int| 0 <= a < n ==> (#[trigger] stored_ids@[a])@ == batch[a].step_id@,
                        self.steps.wf(),
                        self.procedures.wf(),
                        self.procedure_map() == old_procs,
                        forall|a: int, b: int| 0 <= a < b < n ==> (#[trigger] batch[a]).step_id@ != (#[trigger] batch[b]).step_id@,
                        forall|a: int| 0 <= a < n ==> !old_steps.contains_key((#[trigger] batch[a]).step_id@),
                        forall|k: Seq<char>| #[trigger]
                            self.step_map().contains_key(k) <==> old_steps.contains_key(k) || exists|a: int|
                                t <= a < n && (#[trigger] batch[a]).step_id@ == k,
                        forall|k: Seq<char>| old_steps.contains_key(k) ==> #[trigger] self.step_map()[k] == old_steps[k],
                    decreases n - t,
                {
                    let ghost before = self.step_map();
                    proof {
                        assert(stored_ids@[t as int]@ == batch[t as int].step_id@);
                        assert(before.contains_key(batch[t as int].step_id@));
                    }
                    let _ = self.steps.take(stored_ids[t].as_str());
                    proof {
                        assert forall|k: Seq<char>| #[trigger]
                            self.step_map().contains_key(k) <==> old_steps.contains_key(k) || exists|a: int|
                                t + 1 <= a < n && (#[trigger] batch[a]).step_id@ == k by {
                            if k != batch[t as int].step_id@ && before.contains_key(k) && !old_steps.contains_key(k) {
                                let a = choose|a: int| t <= a < n && (#[trigger] batch[a]).step_id@ == k;
                                assert(a != t);
                            }
                            if exists|a: int| t + 1 <= a < n && (#[trigger] batch[a]).step_id@ == k {
                                let a = choose|a: int| t + 1 <= a < n && (#[trigger] batch[a]).step_id@ == k;
                                assert(t <= a < n && batch[a].step_id@ == k);
                                assert(batch[t as int].step_id@ != k);
                            }
                        }
                    }
                    t = t + 1;
                }
                proof {
                    assert(self.step_map() =~= old_steps);
                }
                Err(e)
            },
        }
    }
}

impl Default for ProcedureRegistry {
    fn default() -> (r: Self)
        ensures
            r.wf(),
            r.procedure_map() == Map::<Seq<char>, Procedure>::empty(),
            r.step_map() == Map::<Seq<char>, ProcedureStep>::empty(),
    {
        ProcedureRegistry::new()
    }
}

} // verus!
