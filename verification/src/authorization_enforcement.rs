//! Consumer-side enforcement of an already evaluated authorization result.
use vstd::prelude::*;
use crate::authorization::{
    AuthorizationConstraint, AuthorizationDecision, AuthorizationRequest, AuthorizationResult,
    echoes_request,
};
use crate::resource::{opt_ref_eq, opt_text_eq, refs_eq};
use crate::text::{is_blank, str_eq, str_is_blank};

verus! {

#[derive(Debug, Clone, Copy, PartialEq, Eq, Structural)]
pub enum AuthorizationValidationError {
    InvalidRequest,
    RequestResultMismatch,
    NotYetEvaluated,
    Expired,
    Denied,
    ConstraintViolation,
}

/// The closed constraint vocabulary that protected consumers understand.
pub open spec fn constraint_understood(c: AuthorizationConstraint) -> bool {
    ||| c.key@ == "scope"@ && (c.value@ == "exact_resource"@ || c.value@ == "exact_evidence"@)
    ||| c.key@ == "access_mode"@ && c.value@ == "read_only"@
}

/// Every constraint of the list is understood.
pub open spec fn constraints_understood(cs: Seq<AuthorizationConstraint>) -> bool {
    forall|i: int| 0 <= i < cs.len() ==> constraint_understood(#[trigger] cs[i])
}

/// An expiry instant, if any, has been reached at `now`.
pub open spec fn expired_at(expires: Option<u64>, now: u64) -> bool {
    match expires {
        Some(e) => now >= e,
        None => false,
    }
}

/// The request names every party of the decision and a non-blank purpose.
pub open spec fn request_well_formed(request: AuthorizationRequest) -> bool {
    &&& request.request_id@.len() > 0
    &&& request.authorization_ref.id@.len() > 0
    &&& request.subject_ref.id@.len() > 0
    &&& request.action.id@.len() > 0
    &&& request.resource_ref.id@.len() > 0
    &&& !is_blank(request.purpose@)
}

/// The request was made no later than `now` and is still within its freshness window.
pub open spec fn request_fresh(request: AuthorizationRequest, now: u64) -> bool {
    &&& request.requested_at_epoch_seconds <= now
    &&& match request.freshness_seconds {
        Some(f) => now - request.requested_at_epoch_seconds <= f,
        None => true,
    }
}

/// The outcome of enforcing `authorization` for `request` at time `now`.
pub open spec fn enforcement(
    request: AuthorizationRequest,
    authorization: AuthorizationResult,
    now: u64,
) -> Result<(), AuthorizationValidationError> {
    if !request_well_formed(request) {
        Err(AuthorizationValidationError::InvalidRequest)
    } else if !request_fresh(request, now) {
        Err(AuthorizationValidationError::Expired)
    } else if !echoes_request(authorization, request) {
        Err(AuthorizationValidationError::RequestResultMismatch)
    } else if authorization.evaluated_at_epoch_seconds > now {
        Err(AuthorizationValidationError::NotYetEvaluated)
    } else if expired_at(authorization.expires_at_epoch_seconds, now) {
        Err(AuthorizationValidationError::Expired)
    } else if authorization.decision != AuthorizationDecision::Allow {
        Err(AuthorizationValidationError::Denied)
    } else if !constraints_understood(authorization.constraints@) {
        Err(AuthorizationValidationError::ConstraintViolation)
    } else {
        Ok(())
    }
}

/// Accepts an evaluated result only when it answers this exact request, is
/// current, allows, and carries no constraint outside the closed vocabulary.
/// It is not a second policy evaluator.
pub fn validate_authorization(
    request: &AuthorizationRequest,
    authorization: &AuthorizationResult,
    now_epoch_seconds: u64,
) -> (r: Result<(), AuthorizationValidationError>)
    ensures
        r == enforcement(*request, *authorization, now_epoch_seconds),
{
    if request.request_id.as_str().is_empty() || request.authorization_ref.id.as_str().is_empty()
        || request.subject_ref.id.as_str().is_empty() || request.action.id.as_str().is_empty()
        || request.resource_ref.id.as_str().is_empty() || str_is_blank(request.purpose.as_str()) {
        return Err(AuthorizationValidationError::InvalidRequest);
    }
    let stale = match request.freshness_seconds {
        Some(f) => request.requested_at_epoch_seconds <= now_epoch_seconds && now_epoch_seconds
            - request.requested_at_epoch_seconds > f,
        None => false,
    };
    if request.requested_at_epoch_seconds > now_epoch_seconds || stale {
        return Err(AuthorizationValidationError::Expired);
    }
    if !result_matches_request(authorization, request) {
        return Err(AuthorizationValidationError::RequestResultMismatch);
    }
    if authorization.evaluated_at_epoch_seconds > now_epoch_seconds {
        return Err(AuthorizationValidationError::NotYetEvaluated);
    }
    let expired = match authorization.expires_at_epoch_seconds {
        Some(e) => now_epoch_seconds >= e,
        None => false,
    };
    if expired {
        return Err(AuthorizationValidationError::Expired);
    }
    if authorization.decision != AuthorizationDecision::Allow {
        return Err(AuthorizationValidationError::Denied);
    }
    assert(request_well_formed(*request));
    assert(request_fresh(*request, now_epoch_seconds));
    assert(echoes_request(*authorization, *request));
    assert(authorization.decision == AuthorizationDecision::Allow);
    assert(authorization.evaluated_at_epoch_seconds <= now_epoch_seconds);
    let r = validate_constraints(&authorization.constraints);
    r
}

/// Exact comparison of the identifying fields of a result and a request.
pub fn result_matches_request(authorization: &AuthorizationResult, request: &AuthorizationRequest) -> (b:
    bool)
    ensures
        b == echoes_request(*authorization, *request),
{
    str_eq(authorization.request_id.as_str(), request.request_id.as_str())
        && authorization.authorization_ref.same(&request.authorization_ref)
        && authorization.subject_ref.same(&request.subject_ref) && authorization.action.same(
        &request.action,
    ) && authorization.resource_ref.same(&request.resource_ref) && str_eq(
        authorization.purpose.as_str(),
        request.purpose.as_str(),
    ) && opt_ref_eq(&authorization.jurisdiction_ref, &request.jurisdiction_ref) && opt_text_eq(
        &authorization.data_class,
        &request.data_class,
    ) && refs_eq(&authorization.policy_refs, &request.policy_refs)
}

pub fn constraint_is_understood(c: &AuthorizationConstraint) -> (b: bool)
    ensures
        b == constraint_understood(*c),
{
    (str_eq(c.key.as_str(), "scope") && (str_eq(c.value.as_str(), "exact_resource") || str_eq(
        c.value.as_str(),
        "exact_evidence",
    ))) || (str_eq(c.key.as_str(), "access_mode") && str_eq(c.value.as_str(), "read_only"))
}

/// Unknown constraints fail closed: ignoring one would widen authority.
fn validate_constraints(constraints: &Vec<AuthorizationConstraint>) -> (r: Result<
    (),
    AuthorizationValidationError,
>)
    ensures
        r == (if constraints_understood(constraints@) {
            Ok::<(), AuthorizationValidationError>(())
        } else {
            Err(AuthorizationValidationError::ConstraintViolation)
        }),
{
    let mut i: usize = 0;
    while i < constraints.len()
        invariant
            i <= constraints@.len(),
            forall|j: int| 0 <= j < i ==> constraint_understood(#[trigger] constraints@[j]),
        decreases constraints@.len() - i,
    {
        if !constraint_is_understood(&constraints[i]) {
            return Err(AuthorizationValidationError::ConstraintViolation);
        }
        i = i + 1;
    }
    Ok(())
}

} // verus!
