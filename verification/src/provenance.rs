//! Provenance of material facts, transformations and decisions.
use vstd::prelude::*;
use crate::resource::{Id, ResourceRef};

verus! {

/// Who or what produced a resource, from which sources and inputs, when, and
/// by which operation. It establishes neither legal authority nor
/// authorization.
#[derive(Debug, Clone, PartialEq, Eq)]
pub struct Provenance {
    pub provenance_id: Id,
    pub actor_ref: Option<ResourceRef>,
    pub source_refs: Vec<ResourceRef>,
    pub input_refs: Vec<ResourceRef>,
    pub operation: String,
    pub occurred_at: String,
}

impl Provenance {
    pub open spec fn validity(&self) -> Result<(), &'static str> {
        if self.provenance_id@.len() == 0 {
            Err("provenance id is required")
        } else if self.operation@.len() == 0 {
            Err("provenance operation is required")
        } else if self.occurred_at@.len() == 0 {
            Err("provenance occurred_at is required")
        } else {
            Ok(())
        }
    }

    pub fn validate(&self) -> (r: Result<(), &'static str>)
        ensures
            r == self.validity(),
    {
        if self.provenance_id.as_str().is_empty() {
            return Err("provenance id is required");
        }
        if self.operation.as_str().is_empty() {
            return Err("provenance operation is required");
        }
        if self.occurred_at.as_str().is_empty() {
            return Err("provenance occurred_at is required");
        }
        Ok(())
    }
}

#[derive(Debug, Clone, PartialEq, Eq)]
pub struct ProvenanceRef {
    pub provenance_id: Id,
}

impl ProvenanceRef {
    pub fn new(provenance_id: Id) -> (r: Result<Self, &'static str>)
        ensures
            provenance_id@.len() == 0 ==> r == Err::<ProvenanceRef, &'static str>(
                "provenance reference id is required",
            ),
            provenance_id@.len() > 0 ==> r == Ok::<ProvenanceRef, &'static str>(ProvenanceRef { provenance_id }),
    {
        if provenance_id.as_str().is_empty() {
            return Err("provenance reference id is required");
        }
        Ok(ProvenanceRef { provenance_id })
    }
}

} // verus!
