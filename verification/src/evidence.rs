//! Original evidence, artifacts derived from it, and content digests.
use vstd::prelude::*;
use sha2::{Digest, Sha256};
use crate::resource::Id;
use crate::text::{hex_of, hex_text};

verus! {

/// SHA-256 of a byte string, as defined by FIPS 180-4.
pub uninterp spec fn sha256(content: Seq<u8>) -> Seq<u8>;

/// `sha2::Sha256::digest`: the 32-byte SHA-256 digest of `content`, a
/// function of `content` alone.
#[verifier::external_body]
fn sha256_digest(content: &[u8]) -> (r: Vec<u8>)
    ensures
        r@ == sha256(content@),
        r@.len() == 32,
{
    Sha256::digest(content).to_vec()
}

/// Lower-case hexadecimal SHA-256 of `content`.
pub fn sha256_hex(content: &[u8]) -> (r: String)
    ensures
        r@ == hex_text(sha256(content@)),
        r@.len() == 64,
{
    let digest = sha256_digest(content);
    let r = hex_of(digest.as_slice());
    proof {
        lemma_hex_text_len(sha256(content@));
    }
    r
}

pub proof fn lemma_hex_text_len(b: Seq<u8>)
    ensures
        hex_text(b).len() == 2 * b.len(),
    decreases b.len(),
{
    if b.len() > 0 {
        lemma_hex_text_len(b.drop_last());
    }
}

/// The first rule that captured evidence breaks, its digest aside (a digest
/// is never empty).
pub open spec fn capture_fault(
    evidence_id: Seq<char>,
    schema_version: u32,
    has_case: bool,
    has_incident: bool,
    captured_at: Seq<char>,
    captured_by: Seq<char>,
    media_type: Seq<char>,
    storage_ref: Seq<char>,
) -> Option<&'static str> {
    if evidence_id.len() == 0 {
        Some("evidence id is required")
    } else if schema_version == 0 {
        Some("schema version must be positive")
    } else if !has_case && !has_incident {
        Some("evidence aggregate is required")
    } else if has_case && has_incident {
        Some("evidence aggregate must be singular")
    } else if captured_at.len() == 0 {
        Some("capture time is required")
    } else if captured_by.len() == 0 {
        Some("captured by is required")
    } else if media_type.len() == 0 {
        Some("media type is required")
    } else if storage_ref.len() == 0 {
        Some("storage reference is required")
    } else {
        None
    }
}

#[derive(Debug, Clone, PartialEq, Eq)]
pub struct EvidenceOriginal {
    pub evidence_id: Id,
    pub schema_version: u32,
    pub case_id: Option<Id>,
    pub incident_id: Option<Id>,
    pub captured_at: String,
    pub captured_by: Id,
    pub media_type: String,
    pub content_hash: String,
    pub storage_ref: Id,
}

/// What a capture of evidence provides: its identity, aggregate, capture
/// context, storage reference and content.
#[derive(Debug, Clone, PartialEq, Eq)]
pub struct EvidenceCapture<'a> {
    pub evidence_id: Id,
    pub schema_version: u32,
    pub case_id: Option<Id>,
    pub incident_id: Option<Id>,
    pub captured_at: String,
    pub captured_by: Id,
    pub media_type: String,
    pub storage_ref: Id,
    pub content: &'a [u8],
}

impl EvidenceOriginal {
    /// The first rule that the original breaks, in the order they are checked.
    pub open spec fn validity(&self) -> Result<(), &'static str> {
        if self.evidence_id@.len() == 0 {
            Err("evidence id is required")
        } else if self.schema_version == 0 {
            Err("schema version must be positive")
        } else if self.case_id is None && self.incident_id is None {
            Err("evidence aggregate is required")
        } else if self.case_id is Some && self.incident_id is Some {
            Err("evidence aggregate must be singular")
        } else if self.captured_at@.len() == 0 {
            Err("capture time is required")
        } else if self.captured_by@.len() == 0 {
            Err("captured by is required")
        } else if self.media_type@.len() == 0 {
            Err("media type is required")
        } else if self.content_hash@.len() == 0 {
            Err("content hash is required")
        } else if self.storage_ref@.len() == 0 {
            Err("storage reference is required")
        } else {
            Ok(())
        }
    }

    /// Records evidence whose hash is the SHA-256 of `content`; fails with
    /// the first broken rule.
    pub fn from_content(
        evidence_id: Id,
        schema_version: u32,
        case_id: Option<Id>,
        incident_id: Option<Id>,
        captured_at: String,
        captured_by: Id,
        media_type: String,
        storage_ref: Id,
        content: &[u8],
    ) -> (r: Result<Self, &'static str>)
        ensures
            match capture_fault(
                evidence_id@,
                schema_version,
                case_id is Some,
                incident_id is Some,
                captured_at@,
                captured_by@,
                media_type@,
                storage_ref@,
            ) {
                Some(e) => r == Err::<Self, &'static str>(e),
                None => r is Ok && r->Ok_0.content_hash@ == hex_text(sha256(content@))
                    && r->Ok_0.evidence_id == evidence_id && r->Ok_0.schema_version == schema_version
                    && r->Ok_0.case_id == case_id && r->Ok_0.incident_id == incident_id
                    && r->Ok_0.captured_at == captured_at && r->Ok_0.captured_by == captured_by
                    && r->Ok_0.media_type == media_type && r->Ok_0.storage_ref == storage_ref,
            },
    {
        let value = Self {
            evidence_id,
            schema_version,
            case_id,
            incident_id,
            captured_at,
            captured_by,
            media_type,
            content_hash: sha256_hex(content),
            storage_ref,
        };
        match value.validate() {
            Ok(()) => Ok(value),
            Err(e) => Err(e),
        }
    }

    /// A copy of the record.
    pub fn duplicate(&self) -> (r: Self)
        ensures
            r == *self,
    {
        EvidenceOriginal {
            evidence_id: self.evidence_id.clone(),
            schema_version: self.schema_version,
            case_id: crate::resource::opt_text_dup(&self.case_id),
            incident_id: crate::resource::opt_text_dup(&self.incident_id),
            captured_at: self.captured_at.clone(),
            captured_by: self.captured_by.clone(),
            media_type: self.media_type.clone(),
            content_hash: self.content_hash.clone(),
            storage_ref: self.storage_ref.clone(),
        }
    }

    /// Records a capture; the same rules as `from_content`.
    pub fn from_capture(capture: EvidenceCapture<'_>) -> (r: Result<Self, &'static str>)
        ensures
            match capture_fault(
                capture.evidence_id@,
                capture.schema_version,
                capture.case_id is Some,
                capture.incident_id is Some,
                capture.captured_at@,
                capture.captured_by@,
                capture.media_type@,
                capture.storage_ref@,
            ) {
                Some(e) => r == Err::<Self, &'static str>(e),
                None => r is Ok && r->Ok_0.content_hash@ == hex_text(sha256(capture.content@))
                    && r->Ok_0.evidence_id == capture.evidence_id && r->Ok_0.schema_version == capture.schema_version
                    && r->Ok_0.case_id == capture.case_id && r->Ok_0.incident_id == capture.incident_id
                    && r->Ok_0.captured_at == capture.captured_at && r->Ok_0.captured_by == capture.captured_by
                    && r->Ok_0.media_type == capture.media_type && r->Ok_0.storage_ref == capture.storage_ref,
            },
    {
        EvidenceOriginal::from_content(
            capture.evidence_id,
            capture.schema_version,
            capture.case_id,
            capture.incident_id,
            capture.captured_at,
            capture.captured_by,
            capture.media_type,
            capture.storage_ref,
            capture.content,
        )
    }

    pub fn validate(&self) -> (r: Result<(), &'static str>)
        ensures
            r == self.validity(),
    {
        if self.evidence_id.as_str().is_empty() {
            return Err("evidence id is required");
        }
        if self.schema_version == 0 {
            return Err("schema version must be positive");
        }
        if self.case_id.is_none() && self.incident_id.is_none() {
            return Err("evidence aggregate is required");
        }
        if self.case_id.is_some() && self.incident_id.is_some() {
            return Err("evidence aggregate must be singular");
        }
        if self.captured_at.as_str().is_empty() {
            return Err("capture time is required");
        }
        if self.captured_by.as_str().is_empty() {
            return Err("captured by is required");
        }
        if self.media_type.as_str().is_empty() {
            return Err("media type is required");
        }
        if self.content_hash.as_str().is_empty() {
            return Err("content hash is required");
        }
        if self.storage_ref.as_str().is_empty() {
            return Err("storage reference is required");
        }
        Ok(())
    }
}

#[derive(Debug, Clone, PartialEq, Eq)]
pub struct DerivedArtifact {
    pub artifact_id: Id,
    pub schema_version: u32,
    pub source_evidence_id: Id,
    pub artifact_type: String,
    pub created_at: String,
    pub created_by: Id,
    pub storage_ref: Id,
}

impl DerivedArtifact {
    /// A copy of the record.
    pub fn duplicate(&self) -> (r: Self)
        ensures
            r == *self,
    {
        DerivedArtifact {
            artifact_id: self.artifact_id.clone(),
            schema_version: self.schema_version,
            source_evidence_id: self.source_evidence_id.clone(),
            artifact_type: self.artifact_type.clone(),
            created_at: self.created_at.clone(),
            created_by: self.created_by.clone(),
            storage_ref: self.storage_ref.clone(),
        }
    }

    pub open spec fn validity(&self) -> Result<(), &'static str> {
        if self.artifact_id@.len() == 0 {
            Err("artifact id is required")
        } else if self.schema_version == 0 {
            Err("schema version must be positive")
        } else if self.source_evidence_id@.len() == 0 {
            Err("source evidence id is required")
        } else if self.artifact_type@.len() == 0 {
            Err("artifact type is required")
        } else if self.created_at@.len() == 0 {
            Err("artifact time is required")
        } else if self.created_by@.len() == 0 {
            Err("created by is required")
        } else if self.storage_ref@.len() == 0 {
            Err("storage reference is required")
        } else {
            Ok(())
        }
    }

    pub fn validate(&self) -> (r: Result<(), &'static str>)
        ensures
            r == self.validity(),
    {
        if self.artifact_id.as_str().is_empty() {
            return Err("artifact id is required");
        }
        if self.schema_version == 0 {
            return Err("schema version must be positive");
        }
        if self.source_evidence_id.as_str().is_empty() {
            return Err("source evidence id is required");
        }
        if self.artifact_type.as_str().is_empty() {
            return Err("artifact type is required");
        }
        if self.created_at.as_str().is_empty() {
            return Err("artifact time is required");
        }
        if self.created_by.as_str().is_empty() {
            return Err("created by is required");
        }
        if self.storage_ref.as_str().is_empty() {
            return Err("storage reference is required");
        }
        Ok(())
    }
}

} // verus!
