//! The protected retrieval boundary of evidence content. Storage itself is
//! authorization-neutral; callers retrieve protected content through this
//! boundary, which checks the exact authorization context before reading
//! anything and checks the content against its recorded digest after.
use vstd::prelude::*;
use crate::authorization::{AuthorizationDecision, AuthorizationRequest, AuthorizationResult};
use crate::evidence::{EvidenceOriginal, sha256, sha256_hex};
use crate::evidence_store::{EvidenceObjectStore, EvidenceRepository};
use crate::resource::{Id, ResourceRef, ResourceType, opt_ref_view, opt_text_view, refs_view};
use crate::text::{hex_text, is_blank, str_eq, str_is_blank};

verus! {

/// A request for evidence content, with the authorization request and the
/// result evaluated for it, so that the boundary can check that the context
/// evaluated is the context executed.
#[derive(Debug, Clone, PartialEq, Eq)]
pub struct EvidenceQueryRequest {
    pub evidence_ref: ResourceRef,
    pub authorization_request: AuthorizationRequest,
    pub authorization: AuthorizationResult,
    pub now_epoch_seconds: u64,
}

#[derive(Debug, Clone, PartialEq, Eq)]
pub struct EvidenceQueryResult {
    pub original: EvidenceOriginal,
    pub content: Vec<u8>,
}

#[derive(Debug, Clone, Copy, PartialEq, Eq, Structural)]
pub enum EvidenceQueryError {
    AuthorizationDenied,
    AuthorizationMismatch,
    AuthorizationInvalid,
    AuthorizationExpired,
    InvalidRequest,
    EvidenceNotFound,
    StorageFailure,
}

/// The result echoes every field of the request, policies included.
pub open spec fn answers_request(a: AuthorizationResult, q: AuthorizationRequest) -> bool {
    &&& a.request_id@ == q.request_id@
    &&& a.authorization_ref@ == q.authorization_ref@
    &&& a.subject_ref@ == q.subject_ref@
    &&& a.action@ == q.action@
    &&& a.resource_ref@ == q.resource_ref@
    &&& a.purpose@ == q.purpose@
    &&& opt_ref_view(a.jurisdiction_ref) == opt_ref_view(q.jurisdiction_ref)
    &&& opt_text_view(a.data_class) == opt_text_view(q.data_class)
    &&& refs_view(a.policy_refs@) == refs_view(q.policy_refs@)
}

impl EvidenceQueryRequest {
    pub fn new(
        evidence_ref: ResourceRef,
        authorization_request: AuthorizationRequest,
        authorization: AuthorizationResult,
        now_epoch_seconds: u64,
    ) -> (r: Self)
        ensures
            r == (EvidenceQueryRequest { evidence_ref, authorization_request, authorization, now_epoch_seconds }),
    {
        EvidenceQueryRequest { evidence_ref, authorization_request, authorization, now_epoch_seconds }
    }

    /// What checking the request's authorization context answers, in order:
    /// a complete request, for exactly this evidence, still fresh, answered
    /// by the result, allowed, evaluated by now, and not expired.
    pub open spec fn authorization_check(&self) -> Result<(), EvidenceQueryError> {
        let q = self.authorization_request;
        let a = self.authorization;
        let now = self.now_epoch_seconds;
        if q.request_id@.len() == 0 || q.authorization_ref.id@.len() == 0 || q.subject_ref.id@.len() == 0
            || q.action.id@.len() == 0 || q.resource_ref.id@.len() == 0 || is_blank(q.purpose@) {
            Err(EvidenceQueryError::InvalidRequest)
        } else if q.resource_ref@ != self.evidence_ref@ || q.resource_ref.resource_type != ResourceType::Evidence {
            Err(EvidenceQueryError::AuthorizationMismatch)
        } else if q.requested_at_epoch_seconds > now || (q.freshness_seconds is Some && now
            - q.requested_at_epoch_seconds > q.freshness_seconds->0) {
            Err(EvidenceQueryError::AuthorizationExpired)
        } else if !answers_request(a, q) {
            Err(EvidenceQueryError::AuthorizationMismatch)
        } else if a.decision != AuthorizationDecision::Allow {
            Err(EvidenceQueryError::AuthorizationDenied)
        } else if a.evaluated_at_epoch_seconds > now {
            Err(EvidenceQueryError::AuthorizationInvalid)
        } else if a.expires_at_epoch_seconds is Some && now >= a.expires_at_epoch_seconds->0 {
            Err(EvidenceQueryError::AuthorizationExpired)
        } else {
            Ok(())
        }
    }

    fn validate(&self) -> (r: Result<(), EvidenceQueryError>)
        ensures
            r == self.authorization_check(),
    {
        let q = &self.authorization_request;
        let a = &self.authorization;
        let now = self.now_epoch_seconds;
        if q.request_id.as_str().is_empty() || q.authorization_ref.id.as_str().is_empty()
            || q.subject_ref.id.as_str().is_empty() || q.action.id.as_str().is_empty()
            || q.resource_ref.id.as_str().is_empty() || str_is_blank(q.purpose.as_str()) {
            return Err(EvidenceQueryError::InvalidRequest);
        }
        if !q.resource_ref.same(&self.evidence_ref) || q.resource_ref.resource_type != ResourceType::Evidence {
            return Err(EvidenceQueryError::AuthorizationMismatch);
        }
        let stale = match q.freshness_seconds {
            Some(f) => q.requested_at_epoch_seconds <= now && now - q.requested_at_epoch_seconds > f,
            None => false,
        };
        if q.requested_at_epoch_seconds > now || stale {
            return Err(EvidenceQueryError::AuthorizationExpired);
        }
        if !crate::authorization_enforcement::result_matches_request(a, q) {
            return Err(EvidenceQueryError::AuthorizationMismatch);
        }
        if a.decision != AuthorizationDecision::Allow {
            return Err(EvidenceQueryError::AuthorizationDenied);
        }
        if a.evaluated_at_epoch_seconds > now {
            return Err(EvidenceQueryError::AuthorizationInvalid);
        }
        match a.expires_at_epoch_seconds {
            Some(e) => {
                if now >= e {
                    return Err(EvidenceQueryError::AuthorizationExpired);
                }
            },
            None => {},
        }
        Ok(())
    }
}

/// Checks a stored original and its content against the request: the
/// original is the requested evidence, and the content has the recorded
/// digest.
pub fn check_retrieved(request: &EvidenceQueryRequest, original: &EvidenceOriginal, content: &Vec<u8>) -> (r: Result<
    (),
    EvidenceQueryError,
>)
    ensures
        r == (if original.evidence_id@.len() == 0 {
            Err(EvidenceQueryError::InvalidRequest)
        } else if request.evidence_ref.resource_type != ResourceType::Evidence || original.evidence_id@
            != request.evidence_ref.id@ {
            Err(EvidenceQueryError::AuthorizationMismatch)
        } else if hex_text(sha256(content@)) != original.content_hash@ {
            Err(EvidenceQueryError::StorageFailure)
        } else {
            Ok(())
        }),
{
    if original.evidence_id.as_str().is_empty() {
        return Err(EvidenceQueryError::InvalidRequest);
    }
    if request.evidence_ref.resource_type != ResourceType::Evidence || !str_eq(
        original.evidence_id.as_str(),
        request.evidence_ref.id.as_str(),
    ) {
        return Err(EvidenceQueryError::AuthorizationMismatch);
    }
    let digest = sha256_hex(content.as_slice());
    if !str_eq(digest.as_str(), original.content_hash.as_str()) {
        return Err(EvidenceQueryError::StorageFailure);
    }
    Ok(())
}

pub struct AuthorizedEvidenceQuery<'a, R: EvidenceRepository, O: EvidenceObjectStore> {
    repository: &'a R,
    object_store: &'a O,
}

impl<'a, R: EvidenceRepository, O: EvidenceObjectStore> AuthorizedEvidenceQuery<'a, R, O> {
    /// The repository and object store that retrievals read.
    pub closed spec fn stores(&self) -> (R, O) {
        (*self.repository, *self.object_store)
    }

    pub fn new(repository: &'a R, object_store: &'a O) -> (r: Self)
        ensures
            r.stores() == (*repository, *object_store),
    {
        AuthorizedEvidenceQuery { repository, object_store }
    }

    /// Retrieves protected evidence: nothing is read unless the
    /// authorization context checks out, and the content returned is always
    /// the requested evidence's, with its recorded digest.
    pub fn get(&self, request: EvidenceQueryRequest) -> (r: Result<EvidenceQueryResult, EvidenceQueryError>)
        ensures
            request.authorization_check() is Err ==> r == Err::<EvidenceQueryResult, EvidenceQueryError>(
                request.authorization_check()->Err_0,
            ),
            r is Ok ==> request.authorization_check() is Ok && r->Ok_0.original.evidence_id@ == request.evidence_ref.id@
                && request.evidence_ref.resource_type == ResourceType::Evidence && hex_text(sha256(r->Ok_0.content@))
                == r->Ok_0.original.content_hash@,
    {
        match request.validate() {
            Ok(()) => {},
            Err(e) => return Err(e),
        }
        let original = match self.repository.get_original(&request.evidence_ref.id) {
            Ok(Some(o)) => o,
            Ok(None) => return Err(EvidenceQueryError::EvidenceNotFound),
            Err(_) => return Err(EvidenceQueryError::StorageFailure),
        };
        if original.evidence_id.as_str().is_empty() {
            return Err(EvidenceQueryError::InvalidRequest);
        }
        if request.evidence_ref.resource_type != ResourceType::Evidence || !str_eq(
            original.evidence_id.as_str(),
            request.evidence_ref.id.as_str(),
        ) {
            return Err(EvidenceQueryError::AuthorizationMismatch);
        }
        let content = match self.object_store.get(&original.storage_ref) {
            Ok(Some(c)) => c,
            Ok(None) => return Err(EvidenceQueryError::EvidenceNotFound),
            Err(_) => return Err(EvidenceQueryError::StorageFailure),
        };
        match check_retrieved(&request, &original, &content) {
            Ok(()) => {},
            Err(e) => return Err(e),
        }
        Ok(EvidenceQueryResult { original, content })
    }
}

} // verus!
