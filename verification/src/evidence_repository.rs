//! Rules of persisted evidence: what a record must hold before it is stored,
//! and which transformations may be appended to its history.
use vstd::prelude::*;
use crate::evidence::EvidenceOriginal;
use crate::evidence_trust::EvidenceTransformation;
use crate::persistence::{PersistenceError, UnitOfWorkError};
use crate::resource::Id;
use crate::text::str_eq;

verus! {

#[derive(Debug, Clone, Copy, PartialEq, Eq, Structural)]
pub enum EvidencePersistenceError {
    ValidationFailure,
    NotFound,
    Duplicate,
    IntegrityFailure,
}

impl From<EvidencePersistenceError> for PersistenceError {
    fn from(error: EvidencePersistenceError) -> (r: Self) {
        match error {
            EvidencePersistenceError::ValidationFailure => PersistenceError::ValidationFailure,
            EvidencePersistenceError::NotFound => PersistenceError::NotFound,
            EvidencePersistenceError::Duplicate => PersistenceError::Duplicate,
            EvidencePersistenceError::IntegrityFailure => PersistenceError::IntegrityFailure,
        }
    }
}

impl vstd::std_specs::convert::FromSpecImpl<EvidencePersistenceError> for PersistenceError {
    open spec fn obeys_from_spec() -> bool {
        true
    }

    open spec fn from_spec(error: EvidencePersistenceError) -> Self {
        match error {
            EvidencePersistenceError::ValidationFailure => PersistenceError::ValidationFailure,
            EvidencePersistenceError::NotFound => PersistenceError::NotFound,
            EvidencePersistenceError::Duplicate => PersistenceError::Duplicate,
            EvidencePersistenceError::IntegrityFailure => PersistenceError::IntegrityFailure,
        }
    }
}

/// The persistence error a unit-of-work failure is reported as.
pub open spec fn storage_error_of(e: UnitOfWorkError) -> PersistenceError {
    match e {
        UnitOfWorkError::Persistence(p) => p,
        UnitOfWorkError::InvalidOperation => PersistenceError::ValidationFailure,
    }
}

pub fn storage_error(e: UnitOfWorkError) -> (r: PersistenceError)
    ensures
        r == storage_error_of(e),
{
    match e {
        UnitOfWorkError::Persistence(p) => p,
        UnitOfWorkError::InvalidOperation => PersistenceError::ValidationFailure,
    }
}

/// What the original and the schema version of a record to be persisted
/// answer: a positive schema version and a valid original. (The record's
/// trust metadata is checked beside it.)
pub open spec fn record_admission(schema_version: u16, original: EvidenceOriginal) -> Result<
    (),
    EvidencePersistenceError,
> {
    if schema_version == 0 || original.validity() is Err {
        Err(EvidencePersistenceError::ValidationFailure)
    } else {
        Ok(())
    }
}

pub fn check_record(schema_version: u16, original: &EvidenceOriginal) -> (r: Result<(), EvidencePersistenceError>)
    ensures
        r == record_admission(schema_version, *original),
{
    if schema_version == 0 {
        return Err(EvidencePersistenceError::ValidationFailure);
    }
    match original.validate() {
        Ok(()) => Ok(()),
        Err(_) => Err(EvidencePersistenceError::ValidationFailure),
    }
}

/// What appending `t` to the history `existing` of evidence `evidence_id`
/// answers: a valid transformation, of this evidence, with an id not yet in
/// the history.
pub open spec fn transformation_admission(
    evidence_id: Seq<char>,
    existing: Seq<EvidenceTransformation>,
    t: EvidenceTransformation,
) -> Result<(), EvidencePersistenceError> {
    if t.validity() is Err {
        Err(EvidencePersistenceError::ValidationFailure)
    } else if t.source_evidence_id@ != evidence_id {
        Err(EvidencePersistenceError::IntegrityFailure)
    } else if exists|i: int| 0 <= i < existing.len() && (#[trigger] existing[i]).transformation_id@ == t.transformation_id@ {
        Err(EvidencePersistenceError::Duplicate)
    } else {
        Ok(())
    }
}

pub fn check_transformation(
    evidence_id: &Id,
    existing: &Vec<EvidenceTransformation>,
    t: &EvidenceTransformation,
) -> (r: Result<(), EvidencePersistenceError>)
    ensures
        r == transformation_admission(evidence_id@, existing@, *t),
{
    match t.validate() {
        Ok(()) => {},
        Err(_) => return Err(EvidencePersistenceError::ValidationFailure),
    }
    if !str_eq(t.source_evidence_id.as_str(), evidence_id.as_str()) {
        return Err(EvidencePersistenceError::IntegrityFailure);
    }
    let mut k: usize = 0;
    while k < existing.len()
        invariant
            k <= existing@.len(),
            t.validity() is Ok,
            t.source_evidence_id@ == evidence_id@,
            forall|i: int| 0 <= i < k ==> (#[trigger] existing@[i]).transformation_id@ != t.transformation_id@,
        decreases existing@.len() - k,
    {
        if str_eq(existing[k].transformation_id.as_str(), t.transformation_id.as_str()) {
            return Err(EvidencePersistenceError::Duplicate);
        }
        k = k + 1;
    }
    Ok(())
}

} // verus!
