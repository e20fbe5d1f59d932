//! Trust metadata of evidence: where media came from, how its integrity was
//! established, and the transformations applied to it.
use vstd::prelude::*;
use crate::resource::Id;

verus! {

#[derive(Debug, Clone, Copy, PartialEq, Eq, Structural)]
pub enum MediaOrigin {
    LiveCapture,
    ImportedFile,
    DerivedArtifact,
    Unknown,
}

#[derive(Debug, Clone, Copy, PartialEq, Eq, Structural)]
pub enum IntegrityStatus {
    Unverified,
    HashVerified,
    SignatureVerified,
    HardwareAttested,
    IntegrityFailed,
}

#[derive(Debug, Clone, Copy, PartialEq, Eq, Structural)]
pub enum HardwareAttestationStatus {
    NotAvailable,
    NotRequested,
    SoftwareFallback,
    HardwareAttested,
    VerificationFailed,
}

#[derive(Debug, Clone, Copy, PartialEq, Eq, Structural)]
pub enum LocationDisclosure {
    Exact,
    ReducedPrecision,
    Redacted,
    NotShareable,
}

/// An integrity claim of hardware attestation stands only on a verified
/// hardware attestation.
pub open spec fn attestation_consistent(integrity: IntegrityStatus, hardware: HardwareAttestationStatus) -> bool {
    integrity == IntegrityStatus::HardwareAttested ==> hardware == HardwareAttestationStatus::HardwareAttested
}

pub fn attestation_is_consistent(integrity: IntegrityStatus, hardware: HardwareAttestationStatus) -> (b: bool)
    ensures
        b == attestation_consistent(integrity, hardware),
{
    !(integrity == IntegrityStatus::HardwareAttested && hardware != HardwareAttestationStatus::HardwareAttested)
}

#[derive(Debug, Clone, PartialEq, Eq)]
pub struct EvidenceTransformation {
    pub transformation_id: Id,
    pub source_evidence_id: Id,
    pub transformation_type: String,
    pub created_at: String,
    pub created_by: Id,
    pub tool_id: Option<Id>,
    pub tool_version: Option<String>,
    pub input_hash: Option<String>,
    pub output_hash: Option<String>,
}

impl EvidenceTransformation {
    pub open spec fn validity(&self) -> Result<(), &'static str> {
        if self.transformation_id@.len() == 0 {
            Err("transformation id is required")
        } else if self.source_evidence_id@.len() == 0 {
            Err("source evidence id is required")
        } else if self.transformation_type@.len() == 0 {
            Err("transformation type is required")
        } else if self.created_at@.len() == 0 {
            Err("transformation time is required")
        } else if self.created_by@.len() == 0 {
            Err("transformation creator is required")
        } else {
            Ok(())
        }
    }

    pub fn validate(&self) -> (r: Result<(), &'static str>)
        ensures
            r == self.validity(),
    {
        if self.transformation_id.as_str().is_empty() {
            return Err("transformation id is required");
        }
        if self.source_evidence_id.as_str().is_empty() {
            return Err("source evidence id is required");
        }
        if self.transformation_type.as_str().is_empty() {
            return Err("transformation type is required");
        }
        if self.created_at.as_str().is_empty() {
            return Err("transformation time is required");
        }
        if self.created_by.as_str().is_empty() {
            return Err("transformation creator is required");
        }
        Ok(())
    }
}

} // verus!
