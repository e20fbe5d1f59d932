//! Evidence retention, key and export boundaries, and audit that follows an
//! already evaluated authorization.
use vstd::prelude::*;
use crate::audit::{AuditRecord, AuditSink};
use crate::authorization::{AuthorizationDecision, AuthorizationResult};
use crate::resource::Id;
use crate::text::{seq_lt, str_lt};

verus! {

#[derive(Debug, Clone, Copy, PartialEq, Eq, Structural)]
pub enum EvidenceError {
    NotFound,
    Unauthorized,
    Duplicate,
    IntegrityFailure,
    InvalidInput,
    RetentionBlocked,
}

#[derive(Debug, Clone, PartialEq, Eq)]
pub struct RetentionPolicy {
    pub policy_id: Id,
    pub retain_until: Option<String>,
    pub legal_hold: bool,
}

impl RetentionPolicy {
    /// A legal hold blocks deletion; otherwise deletion is allowed once `now`
    /// has reached the retention deadline (timestamps compare as text).
    pub fn deletion_allowed(&self, now: &str) -> (r: Result<bool, EvidenceError>)
        ensures
            self.legal_hold ==> r == Ok::<bool, EvidenceError>(false),
            !self.legal_hold && self.retain_until is None ==> r == Err::<bool, EvidenceError>(
                EvidenceError::InvalidInput,
            ),
            !self.legal_hold && self.retain_until is Some ==> r == Ok::<bool, EvidenceError>(
                !seq_lt(now@, self.retain_until->0@),
            ),
    {
        if self.legal_hold {
            return Ok(false);
        }
        match &self.retain_until {
            Some(until) => Ok(!str_lt(now, until.as_str())),
            None => Err(EvidenceError::InvalidInput),
        }
    }
}

/// Where evidence keys are kept; implemented by the deployment.
pub trait KeyProvider {
    fn key_reference(&self, purpose: &str) -> Result<Id, EvidenceError>;
}

#[derive(Debug, Clone, PartialEq, Eq)]
pub struct EvidenceExport {
    pub evidence_id: Id,
    pub case_id: Option<Id>,
    pub incident_id: Option<Id>,
    pub content_hash: String,
    pub storage_ref: Id,
}

/// How evidence leaves the system; implemented by the deployment.
pub trait EvidenceExporter {
    fn export(&self, evidence_id: &Id) -> Result<EvidenceExport, EvidenceError>;
}

/// Audit of a protected action, performed only under an allowing
/// authorization that was evaluated elsewhere.
pub struct AuthorizedAudit<'a, A> {
    pub audit: &'a mut A,
}

impl<'a, A: AuditSink> AuthorizedAudit<'a, A> {
    /// Records `audit` only when `authorization` allows; a failure of the
    /// sink is reported as invalid input.
    pub fn authorize_and_audit(&mut self, authorization: &AuthorizationResult, audit: AuditRecord) -> (r: Result<
        (),
        EvidenceError,
    >)
        ensures
            authorization.decision != AuthorizationDecision::Allow ==> r == Err::<(), EvidenceError>(
                EvidenceError::Unauthorized,
            ) && *final(self).audit == *old(self).audit,
            authorization.decision == AuthorizationDecision::Allow ==> r is Ok || r == Err::<(), EvidenceError>(
                EvidenceError::InvalidInput,
            ),
            r is Ok ==> final(self).audit.records() == old(self).audit.records().push(audit),
            r is Err ==> final(self).audit.records() == old(self).audit.records(),
    {
        if authorization.decision != AuthorizationDecision::Allow {
            return Err(EvidenceError::Unauthorized);
        }
        match self.audit.record(audit) {
            Ok(()) => Ok(()),
            Err(_) => Err(EvidenceError::InvalidInput),
        }
    }
}

} // verus!
