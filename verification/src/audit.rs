//! Audit records of observed operations, and the sinks that keep them.
use vstd::prelude::*;
use crate::provenance::Provenance;
use crate::resource::{Id, ResourceRef};
use crate::text::str_eq;

verus! {

/// Immutable record of an observed system operation. The optional fields
/// carry the identity of a tool invocation when the record describes one.
#[derive(Debug, Clone, PartialEq, Eq)]
pub struct AuditRecord {
    pub audit_id: Id,
    pub actor_id: Id,
    pub action: String,
    pub aggregate_type: String,
    pub aggregate_id: Id,
    pub occurred_at: String,
    pub correlation_id: Option<Id>,
    pub causation_id: Option<Id>,
    pub provenance_ref: Option<ResourceRef>,
    pub invocation_id: Option<Id>,
    pub request_id: Option<Id>,
    pub authorization_ref: Option<ResourceRef>,
    pub action_ref: Option<ResourceRef>,
    pub approval_ref: Option<ResourceRef>,
    pub tool_id: Option<Id>,
    pub tool_version: Option<String>,
    pub capability_ref: Option<ResourceRef>,
    pub function_ref: Option<ResourceRef>,
    pub provider_id: Option<Id>,
    pub implementation_id: Option<Id>,
    pub implementation_version: Option<String>,
    pub resource_ref: Option<ResourceRef>,
    pub purpose: Option<String>,
    pub jurisdiction_ref: Option<ResourceRef>,
    pub data_class: Option<String>,
    pub requested_scope: Option<String>,
    pub execution_mode: Option<String>,
    pub idempotency_ref: Option<Id>,
    pub outcome: Option<String>,
    pub failure: Option<String>,
    pub input_hash: Option<String>,
    pub output_hash: Option<String>,
}

impl AuditRecord {
    pub open spec fn validity(&self) -> Result<(), &'static str> {
        if self.audit_id@.len() == 0 {
            Err("audit id is required")
        } else if self.actor_id@.len() == 0 {
            Err("audit actor is required")
        } else if self.action@.len() == 0 {
            Err("audit action is required")
        } else if self.aggregate_type@.len() == 0 || self.aggregate_id@.len() == 0 {
            Err("audit aggregate is required")
        } else if self.occurred_at@.len() == 0 {
            Err("audit time is required")
        } else {
            Ok(())
        }
    }

    pub fn validate(&self) -> (r: Result<(), &'static str>)
        ensures
            r == self.validity(),
    {
        if self.audit_id.as_str().is_empty() {
            return Err("audit id is required");
        }
        if self.actor_id.as_str().is_empty() {
            return Err("audit actor is required");
        }
        if self.action.as_str().is_empty() {
            return Err("audit action is required");
        }
        if self.aggregate_type.as_str().is_empty() || self.aggregate_id.as_str().is_empty() {
            return Err("audit aggregate is required");
        }
        if self.occurred_at.as_str().is_empty() {
            return Err("audit time is required");
        }
        Ok(())
    }
}

/// A store of audit records.
pub trait AuditSink {
    /// The audit records that the sink holds; an implementation defines it,
    /// and is left unspecified where it does not.
    closed spec fn records(&self) -> Seq<AuditRecord> {
        arbitrary()
    }

    /// Stores `record`, or, on an error, nothing.
    fn record(&mut self, record: AuditRecord) -> (r: Result<(), &'static str>)
        ensures
            r is Ok ==> final(self).records() == old(self).records().push(record),
            r is Err ==> final(self).records() == old(self).records(),
    ;
}

/// A sink that stores an invocation's audit record and its provenance
/// together, or neither. It is no authorization mechanism.
pub trait AuditProvenanceSink: AuditSink {
    /// The audit records and the provenance that the sink holds; an
    /// implementation defines it, and is left unspecified where it does not.
    closed spec fn stored(&self) -> (Seq<AuditRecord>, Seq<Provenance>) {
        arbitrary()
    }

    /// Stores both `record` and `provenance`, or, on an error, neither.
    fn record_invocation(&mut self, record: AuditRecord, provenance: Provenance) -> (r: Result<
        (),
        &'static str,
    >)
        ensures
            r is Ok ==> final(self).stored() == (old(self).stored().0.push(record), old(self).stored().1.push(
                provenance,
            )),
            r is Err ==> final(self).stored() == old(self).stored(),
    ;
}

/// `true` when some record in `records` has id `id`.
pub open spec fn has_audit_id(records: Seq<AuditRecord>, id: Seq<char>) -> bool {
    exists|i: int| 0 <= i < records.len() && (#[trigger] records[i]).audit_id@ == id
}

/// `true` when some provenance in `items` has id `id`.
pub open spec fn has_provenance_id(items: Seq<Provenance>, id: Seq<char>) -> bool {
    exists|i: int| 0 <= i < items.len() && (#[trigger] items[i]).provenance_id@ == id
}

fn contains_audit_id(records: &Vec<AuditRecord>, id: &str) -> (b: bool)
    ensures
        b == has_audit_id(records@, id@),
{
    let mut i: usize = 0;
    while i < records.len()
        invariant
            i <= records.len(),
            forall|j: int| 0 <= j < i ==> (#[trigger] records@[j]).audit_id@ != id@,
        decreases records.len() - i,
    {
        if str_eq(records[i].audit_id.as_str(), id) {
            return true;
        }
        i = i + 1;
    }
    false
}

fn contains_provenance_id(items: &Vec<Provenance>, id: &str) -> (b: bool)
    ensures
        b == has_provenance_id(items@, id@),
{
    let mut i: usize = 0;
    while i < items.len()
        invariant
            i <= items.len(),
            forall|j: int| 0 <= j < i ==> (#[trigger] items@[j]).provenance_id@ != id@,
        decreases items.len() - i,
    {
        if str_eq(items[i].provenance_id.as_str(), id) {
            return true;
        }
        i = i + 1;
    }
    false
}

/// Audit records and provenance kept in memory, in arrival order.
pub struct InMemoryAudit {
    records: Vec<AuditRecord>,
    provenances: Vec<Provenance>,
}

/// Stored records are valid and no two share an audit id.
pub open spec fn audit_log_sound(records: Seq<AuditRecord>) -> bool {
    &&& forall|i: int| 0 <= i < records.len() ==> (#[trigger] records[i]).validity() is Ok
    &&& forall|i: int, j: int|
        0 <= i < j < records.len() ==> (#[trigger] records[i]).audit_id@ != (#[trigger] records[j]).audit_id@
}

impl InMemoryAudit {
    pub closed spec fn record_seq(&self) -> Seq<AuditRecord> {
        self.records@
    }

    pub closed spec fn provenance_seq(&self) -> Seq<Provenance> {
        self.provenances@
    }

    pub fn new() -> (r: Self)
        ensures
            r.record_seq() == Seq::<AuditRecord>::empty(),
            r.provenance_seq() == Seq::<Provenance>::empty(),
    {
        InMemoryAudit { records: Vec::new(), provenances: Vec::new() }
    }

    /// What storing `record` alone answers.
    pub open spec fn recording(&self, record: AuditRecord) -> Result<(), &'static str> {
        if record.validity() is Err {
            record.validity()
        } else if has_audit_id(self.record_seq(), record.audit_id@) {
            Err("audit record already exists")
        } else {
            Ok(())
        }
    }

    /// What storing `record` with `provenance` answers.
    pub open spec fn invocation_recording(&self, record: AuditRecord, provenance: Provenance) -> Result<
        (),
        &'static str,
    > {
        if record.validity() is Err {
            record.validity()
        } else if provenance.validity() is Err {
            provenance.validity()
        } else if has_audit_id(self.record_seq(), record.audit_id@) {
            Err("audit record already exists")
        } else if has_provenance_id(self.provenance_seq(), provenance.provenance_id@) {
            Err("provenance record already exists")
        } else {
            Ok(())
        }
    }

    /// Appends a valid record with a fresh audit id.
    pub fn record(&mut self, record: AuditRecord) -> (r: Result<(), &'static str>)
        ensures
            r == old(self).recording(record),
            r is Ok ==> final(self).record_seq() == old(self).record_seq().push(record),
            r is Err ==> final(self).record_seq() == old(self).record_seq(),
            final(self).provenance_seq() == old(self).provenance_seq(),
            audit_log_sound(old(self).record_seq()) ==> audit_log_sound(final(self).record_seq()),
    {
        match record.validate() {
            Ok(()) => {},
            Err(e) => return Err(e),
        }
        if contains_audit_id(&self.records, record.audit_id.as_str()) {
            return Err("audit record already exists");
        }
        self.records.push(record);
        Ok(())
    }

    /// Appends a record and its provenance together, or neither.
    pub fn record_invocation(&mut self, record: AuditRecord, provenance: Provenance) -> (r: Result<
        (),
        &'static str,
    >)
        ensures
            r == old(self).invocation_recording(record, provenance),
            r is Ok ==> final(self).record_seq() == old(self).record_seq().push(record)
                && final(self).provenance_seq() == old(self).provenance_seq().push(provenance),
            r is Err ==> final(self).record_seq() == old(self).record_seq()
                && final(self).provenance_seq() == old(self).provenance_seq(),
            audit_log_sound(old(self).record_seq()) ==> audit_log_sound(final(self).record_seq()),
    {
        match record.validate() {
            Ok(()) => {},
            Err(e) => return Err(e),
        }
        match provenance.validate() {
            Ok(()) => {},
            Err(e) => return Err(e),
        }
        if contains_audit_id(&self.records, record.audit_id.as_str()) {
            return Err("audit record already exists");
        }
        if contains_provenance_id(&self.provenances, provenance.provenance_id.as_str()) {
            return Err("provenance record already exists");
        }
        self.records.push(record);
        self.provenances.push(provenance);
        Ok(())
    }

    pub fn records(&self) -> (r: &[AuditRecord])
        ensures
            r@ == self.record_seq(),
    {
        self.records.as_slice()
    }

    pub fn provenances(&self) -> (r: &[Provenance])
        ensures
            r@ == self.provenance_seq(),
    {
        self.provenances.as_slice()
    }
}

impl AuditSink for InMemoryAudit {
    open spec fn records(&self) -> Seq<AuditRecord> {
        self.record_seq()
    }

    fn record(&mut self, record: AuditRecord) -> (r: Result<(), &'static str>) {
        InMemoryAudit::record(self, record)
    }
}

impl AuditProvenanceSink for InMemoryAudit {
    open spec fn stored(&self) -> (Seq<AuditRecord>, Seq<Provenance>) {
        (self.record_seq(), self.provenance_seq())
    }

    fn record_invocation(&mut self, record: AuditRecord, provenance: Provenance) -> (r: Result<
        (),
        &'static str,
    >) {
        InMemoryAudit::record_invocation(self, record, provenance)
    }
}

impl Default for InMemoryAudit {
    fn default() -> (r: Self)
        ensures
            r.record_seq() == Seq::<AuditRecord>::empty(),
            r.provenance_seq() == Seq::<Provenance>::empty(),
    {
        InMemoryAudit::new()
    }
}

} // verus!
