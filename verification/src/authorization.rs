//! Authorization requests, decisions and evaluators.
use vstd::prelude::*;
use crate::resource::{
    Id, ResourceRef, ResourceRefView, opt_ref_dup, opt_ref_eq, opt_ref_view, opt_text_dup,
    opt_text_eq, opt_text_view, refs_contain, refs_dup, refs_view,
};
use crate::text::{is_blank, str_eq, str_is_blank};

verus! {

#[derive(Debug, Clone, Copy, PartialEq, Eq, Structural)]
pub enum AccessAction {
    Read,
    Create,
    Update,
    AppendEvent,
}

#[derive(Debug, Clone, PartialEq, Eq)]
pub struct AccessRequest {
    pub actor_id: Id,
    pub case_id: Id,
    pub action: AccessAction,
}

/// Legacy access policy over case requests.
pub trait AuthorizationPolicy {
    fn authorize(&self, request: &AccessRequest) -> Result<(), &'static str>;
}

/// Only the case owner may act on a case.
#[derive(Debug, Clone, PartialEq, Eq)]
pub struct CaseAccessPolicy {
    pub owner_id: Id,
}

impl AuthorizationPolicy for CaseAccessPolicy {
    fn authorize(&self, request: &AccessRequest) -> (r: Result<(), &'static str>)
        ensures
            request.actor_id@ != self.owner_id@ ==> r == Err::<(), &'static str>("case access denied"),
            request.actor_id@ == self.owner_id@ && request.case_id@.len() == 0 ==> r == Err::<
                (),
                &'static str,
            >("case id is required"),
            r is Ok <==> request.actor_id@ == self.owner_id@ && request.case_id@.len() > 0,
    {
        if !str_eq(request.actor_id.as_str(), self.owner_id.as_str()) {
            return Err("case access denied");
        }
        if request.case_id.as_str().is_empty() {
            return Err("case id is required");
        }
        Ok(())
    }
}

/// Decision produced by a policy evaluation. `NotApplicable` never authorizes.
#[derive(Debug, Clone, Copy, PartialEq, Eq, Structural)]
pub enum AuthorizationDecision {
    Allow,
    Deny,
    NotApplicable,
}

/// A key/value restriction attached to an authorization result.
#[derive(Debug, Clone, PartialEq, Eq)]
pub struct AuthorizationConstraint {
    pub key: String,
    pub value: String,
}

/// Abstract value of a constraint.
pub open spec fn constraint_view(c: AuthorizationConstraint) -> (Seq<char>, Seq<char>) {
    (c.key@, c.value@)
}

pub open spec fn constraints_view(v: Seq<AuthorizationConstraint>) -> Seq<(Seq<char>, Seq<char>)> {
    v.map_values(|c: AuthorizationConstraint| constraint_view(c))
}

pub fn constraints_dup(a: &Vec<AuthorizationConstraint>) -> (r: Vec<AuthorizationConstraint>)
    ensures
        r@ == a@,
{
    let mut r: Vec<AuthorizationConstraint> = Vec::new();
    let mut i: usize = 0;
    while i < a.len()
        invariant
            i <= a.len(),
            r@ =~= a@.take(i as int),
        decreases a.len() - i,
    {
        r.push(AuthorizationConstraint { key: a[i].key.clone(), value: a[i].value.clone() });
        assert(a@.take(i + 1) =~= a@.take(i as int).push(a@[i as int]));
        i = i + 1;
    }
    assert(a@.take(a.len() as int) =~= a@);
    r
}

/// The exact context that an evaluator is asked to decide.
#[derive(Debug, Clone, PartialEq, Eq)]
pub struct AuthorizationRequest {
    pub request_id: Id,
    pub authorization_ref: ResourceRef,
    pub subject_ref: ResourceRef,
    pub action: ResourceRef,
    pub resource_ref: ResourceRef,
    pub purpose: String,
    pub policy_refs: Vec<ResourceRef>,
    pub jurisdiction_ref: Option<ResourceRef>,
    pub data_class: Option<String>,
    pub requested_at_epoch_seconds: u64,
    pub freshness_seconds: Option<u64>,
}

#[derive(Debug, Clone, PartialEq, Eq)]
pub struct AuthorizationContext {
    pub jurisdiction_ref: Option<ResourceRef>,
    pub data_class: Option<String>,
    pub scope_refs: Vec<ResourceRef>,
    pub valid: bool,
}

impl AuthorizationContext {
    /// The neutral context: no restrictions, valid.
    pub fn default_context() -> (c: AuthorizationContext)
        ensures
            c.jurisdiction_ref is None,
            c.data_class is None,
            c.scope_refs@.len() == 0,
            c.valid,
    {
        AuthorizationContext {
            jurisdiction_ref: None,
            data_class: None,
            scope_refs: Vec::new(),
            valid: true,
        }
    }
}

/// A frozen decision, bound to the exact request it answers.
#[derive(Debug, Clone, PartialEq, Eq)]
pub struct AuthorizationResult {
    pub request_id: Id,
    pub authorization_ref: ResourceRef,
    pub subject_ref: ResourceRef,
    pub action: ResourceRef,
    pub resource_ref: ResourceRef,
    pub purpose: String,
    pub jurisdiction_ref: Option<ResourceRef>,
    pub data_class: Option<String>,
    pub decision: AuthorizationDecision,
    pub constraints: Vec<AuthorizationConstraint>,
    pub policy_refs: Vec<ResourceRef>,
    pub evaluated_at_epoch_seconds: u64,
    pub expires_at_epoch_seconds: Option<u64>,
}

/// The result repeats every identifying field of the request.
pub open spec fn echoes_request(result: AuthorizationResult, request: AuthorizationRequest) -> bool {
    &&& result.request_id@ == request.request_id@
    &&& result.authorization_ref@ == request.authorization_ref@
    &&& result.subject_ref@ == request.subject_ref@
    &&& result.action@ == request.action@
    &&& result.resource_ref@ == request.resource_ref@
    &&& result.purpose@ == request.purpose@
    &&& opt_ref_view(result.jurisdiction_ref) == opt_ref_view(request.jurisdiction_ref)
    &&& opt_text_view(result.data_class) == opt_text_view(request.data_class)
    &&& refs_view(result.policy_refs@) == refs_view(request.policy_refs@)
}

impl Default for AuthorizationContext {
    fn default() -> (c: Self)
        ensures
            c.jurisdiction_ref is None,
            c.data_class is None,
            c.scope_refs@.len() == 0,
            c.valid,
    {
        AuthorizationContext::default_context()
    }
}

/// Evaluates a request into a decision.
pub trait AuthorizationEvaluator {
    fn evaluate(&self, request: &AuthorizationRequest) -> AuthorizationResult;
}

/// A result with the given decision that answers `request` exactly.
fn answer(
    request: &AuthorizationRequest,
    decision: AuthorizationDecision,
    constraints: Vec<AuthorizationConstraint>,
    evaluated_at: u64,
) -> (r: AuthorizationResult)
    ensures
        echoes_request(r, *request),
        r.decision == decision,
        r.constraints@ == constraints@,
        r.evaluated_at_epoch_seconds == evaluated_at,
        r.expires_at_epoch_seconds is None,
{
    AuthorizationResult {
        request_id: request.request_id.clone(),
        authorization_ref: request.authorization_ref.duplicate(),
        subject_ref: request.subject_ref.duplicate(),
        action: request.action.duplicate(),
        resource_ref: request.resource_ref.duplicate(),
        purpose: request.purpose.clone(),
        jurisdiction_ref: opt_ref_dup(&request.jurisdiction_ref),
        data_class: opt_text_dup(&request.data_class),
        decision,
        constraints,
        policy_refs: refs_dup(&request.policy_refs),
        evaluated_at_epoch_seconds: evaluated_at,
        expires_at_epoch_seconds: None,
    }
}

/// Conservative evaluation: malformed requests, missing policies, invalid
/// contexts and scope mismatches fail closed, and no policy language is
/// interpreted yet, so every request is denied.
pub fn evaluate_request(request: &AuthorizationRequest, context: &AuthorizationContext) -> (r:
    AuthorizationResult)
    ensures
        r.decision == AuthorizationDecision::Deny,
        echoes_request(r, *request),
        r.constraints@.len() == 0,
        r.evaluated_at_epoch_seconds == request.requested_at_epoch_seconds,
        r.expires_at_epoch_seconds is None,
{
    let malformed = request.subject_ref.id.as_str().is_empty() || request.action.id.as_str().is_empty()
        || request.resource_ref.id.as_str().is_empty() || str_is_blank(request.purpose.as_str())
        || request.policy_refs.len() == 0 || !context.valid;
    if malformed {
        return deny(request);
    }
    if context.scope_refs.len() != 0 && !refs_contain(&context.scope_refs, &request.resource_ref) {
        return deny(request);
    }
    deny(request)
}

fn deny(request: &AuthorizationRequest) -> (r: AuthorizationResult)
    ensures
        r.decision == AuthorizationDecision::Deny,
        echoes_request(r, *request),
        r.constraints@.len() == 0,
        r.evaluated_at_epoch_seconds == request.requested_at_epoch_seconds,
        r.expires_at_epoch_seconds is None,
{
    answer(request, AuthorizationDecision::Deny, Vec::new(), request.requested_at_epoch_seconds)
}

/// Provider-neutral evaluator of the canonical boundary; it denies every request.
#[derive(Debug, Clone, PartialEq, Eq)]
pub struct InMemoryAuthorizationEvaluator;

impl AuthorizationEvaluator for InMemoryAuthorizationEvaluator {
    fn evaluate(&self, request: &AuthorizationRequest) -> (r: AuthorizationResult)
        ensures
            r.decision == AuthorizationDecision::Deny,
            echoes_request(r, *request),
            r.constraints@.len() == 0,
            r.evaluated_at_epoch_seconds == request.requested_at_epoch_seconds,
    {
        evaluate_request(request, &AuthorizationContext::default_context())
    }
}

/// A fixed rule: the decision for one exact subject, action, resource,
/// purpose, jurisdiction and data class under one policy.
#[derive(Debug, Clone, PartialEq, Eq)]
pub struct AuthorizationRule {
    pub policy_ref: ResourceRef,
    pub subject_ref: ResourceRef,
    pub action: ResourceRef,
    pub resource_ref: ResourceRef,
    pub purpose: String,
    pub jurisdiction_ref: Option<ResourceRef>,
    pub data_class: Option<String>,
    pub decision: AuthorizationDecision,
    pub constraints: Vec<AuthorizationConstraint>,
}

/// The rule answers the request: its policy is cited and every field matches.
pub open spec fn rule_matches(rule: AuthorizationRule, request: AuthorizationRequest) -> bool {
    &&& refs_view(request.policy_refs@).contains(rule.policy_ref@)
    &&& rule.subject_ref@ == request.subject_ref@
    &&& rule.action@ == request.action@
    &&& rule.resource_ref@ == request.resource_ref@
    &&& rule.purpose@ == request.purpose@
    &&& opt_ref_view(rule.jurisdiction_ref) == opt_ref_view(request.jurisdiction_ref)
    &&& opt_text_view(rule.data_class) == opt_text_view(request.data_class)
}

/// Evaluator over a fixed rule list: the first matching rule decides; with
/// no matching rule the answer is `NotApplicable`.
#[derive(Debug, Clone, PartialEq, Eq)]
pub struct StaticAuthorizationEvaluator {
    pub rules: Vec<AuthorizationRule>,
    pub now_epoch_seconds: u64,
}

fn rule_matches_exec(rule: &AuthorizationRule, request: &AuthorizationRequest) -> (b: bool)
    ensures
        b == rule_matches(*rule, *request),
{
    refs_contain(&request.policy_refs, &rule.policy_ref) && rule.subject_ref.same(&request.subject_ref)
        && rule.action.same(&request.action) && rule.resource_ref.same(&request.resource_ref)
        && str_eq(rule.purpose.as_str(), request.purpose.as_str()) && opt_ref_eq(
        &rule.jurisdiction_ref,
        &request.jurisdiction_ref,
    ) && opt_text_eq(&rule.data_class, &request.data_class)
}

impl AuthorizationEvaluator for StaticAuthorizationEvaluator {
    fn evaluate(&self, request: &AuthorizationRequest) -> (r: AuthorizationResult)
        ensures
            echoes_request(r, *request),
            r.evaluated_at_epoch_seconds == self.now_epoch_seconds,
            r.expires_at_epoch_seconds is None,
            (exists|i: int| 0 <= i < self.rules@.len() && rule_matches(#[trigger] self.rules@[i], *request))
                ==> {
                let i = choose|i: int| 0 <= i < self.rules@.len() && rule_matches(#[trigger] self.rules@[i], *request)
                    && forall|j: int| 0 <= j < i ==> !rule_matches(#[trigger] self.rules@[j], *request);
                &&& r.decision == self.rules@[i].decision
                &&& r.constraints@ == self.rules@[i].constraints@
            },
            (forall|i: int| 0 <= i < self.rules@.len() ==> !rule_matches(#[trigger] self.rules@[i], *request))
                ==> r.decision == AuthorizationDecision::NotApplicable && r.constraints@.len() == 0,
    {
        let mut i: usize = 0;
        while i < self.rules.len()
            invariant
                i <= self.rules@.len(),
                forall|j: int| 0 <= j < i ==> !rule_matches(#[trigger] self.rules@[j], *request),
            decreases self.rules@.len() - i,
        {
            let rule = &self.rules[i];
            if rule_matches_exec(rule, request) {
                let r = answer(request, rule.decision, constraints_dup(&rule.constraints), self.now_epoch_seconds);
                proof {
                    let k = choose|k: int| 0 <= k < self.rules@.len() && rule_matches(#[trigger] self.rules@[k], *request)
                        && forall|j: int| 0 <= j < k ==> !rule_matches(#[trigger] self.rules@[j], *request);
                    assert(0 <= i < self.rules@.len() && rule_matches(self.rules@[i as int], *request)
                        && forall|j: int| 0 <= j < i ==> !rule_matches(#[trigger] self.rules@[j], *request));
                    if k < i {
                    } else if k > i {
                        assert(!rule_matches(self.rules@[i as int], *request));
                    }
                }
                return r;
            }
            i = i + 1;
        }
        answer(request, AuthorizationDecision::NotApplicable, Vec::new(), self.now_epoch_seconds)
    }
}

} // verus!
