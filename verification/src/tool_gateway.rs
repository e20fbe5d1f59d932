//! The bounded, provider-neutral boundary through which tools execute. It
//! composes authorization enforcement, registry resolution, capability leases
//! and idempotency, and it grants no authority of its own.
use vstd::prelude::*;
use crate::action::{Action, ApprovalRecord, ExecutionGate, ExecutionGateError, ExecutionGateInput, gate_outcome};
use crate::audit::{AuditProvenanceSink, AuditRecord};
use crate::authorization::{AuthorizationConstraint, AuthorizationRequest, AuthorizationResult};
use crate::authorization_enforcement::{AuthorizationValidationError, enforcement, validate_authorization};
use crate::canonical::{
    absent, number_frame, opt_number_frame, opt_ref_frame, opt_text_frame, present, push_number,
    push_opt_number, push_opt_ref, push_opt_text, push_ref, push_text, ref_frame, text_frame,
};
use crate::capability_lease::{CapabilityLease, CapabilityLeaseError, CapabilityLeaseState};
use crate::evidence::{sha256, sha256_hex};
use crate::persistence::{IdempotencyClaim, IdempotencyLifecycleStore, IdempotencyState, PersistenceError};
use crate::provenance::Provenance;
use crate::resource::{Id, ResourceRef, ResourceType, opt_ref_view, opt_text_view};
use crate::text::{concat, decimal, hex_text, is_blank, push_decimal, push_str, str_eq, str_is_blank, text_of};
use crate::tool_data_access::ToolDataAccessGrant;
use crate::tool_registry::{
    InMemoryToolRegistry, ToolDataClass, ToolExecutionMode, ToolImplementation, ToolLifecycle,
    ToolRegistryEntry, ToolRegistryError, ToolVersionRequirement,
};

verus! {

/// One requested execution of a registered tool, with the full context that
/// authorization was evaluated for.
#[derive(Debug, Clone, PartialEq, Eq)]
pub struct ToolGatewayInvocation {
    pub request_id: Id,
    /// When the invocation was created.
    pub occurred_at: String,
    pub authorization_ref: ResourceRef,
    pub subject_ref: ResourceRef,
    pub actor_ref: Option<ResourceRef>,
    pub action: ResourceRef,
    pub resource_ref: ResourceRef,
    /// Capability bound by the registered tool contract.
    pub capability_ref: ResourceRef,
    /// Function binding declared by the registered tool, if any.
    pub function_ref: Option<ResourceRef>,
    pub purpose: String,
    pub purpose_version: Option<String>,
    pub jurisdiction_ref: Option<ResourceRef>,
    pub data_class: Option<ToolDataClass>,
    pub tool_id: Id,
    pub tool_version: ToolVersionRequirement,
    /// Implementation selected from the registry.
    pub implementation_id: Id,
    /// Provider of the selected implementation.
    pub provider_id: Id,
    /// Implementation version bound by the registry contract.
    pub implementation_version: String,
    pub idempotency_ref: Id,
    pub requested_scope: String,
    pub execution_mode: ToolExecutionMode,
    pub capability_lease: Option<CapabilityLease>,
    pub incident_ref: Option<ResourceRef>,
    pub session_ref: Option<ResourceRef>,
}

#[derive(Debug, Clone, Copy, PartialEq, Eq)]
pub enum ToolGatewayError {
    Authorization(AuthorizationValidationError),
    Registry(ToolRegistryError),
    Lease(CapabilityLeaseError),
    MissingIdempotency,
    IdempotencyAlreadyClaimed,
    Idempotency(PersistenceError),
    ToolLifecycleUnavailable,
    DataClassNotSupported,
    JurisdictionNotSupported,
    ExecutionModeNotSupported,
    ApprovalRequired,
    ExecutionGate(ExecutionGateError),
    ProviderFailed,
    Unknown,
    Audit(&'static str),
}

#[derive(Debug, Clone, Copy, PartialEq, Eq, Structural)]
pub enum ToolGatewayPhase {
    Validated,
    Claimed,
}

// ----- the canonical encoding of an invocation -----

/// Wire name of a data class.
pub open spec fn data_class_wire(c: ToolDataClass) -> &'static str {
    match c {
        ToolDataClass::Public => "public",
        ToolDataClass::Internal => "internal",
        ToolDataClass::Confidential => "confidential",
        ToolDataClass::Restricted => "restricted",
    }
}

pub open spec fn data_class_wire_view(c: Option<ToolDataClass>) -> Option<Seq<char>> {
    match c {
        Some(x) => Some(data_class_wire(x)@),
        None => None,
    }
}

/// Lower-case name of an execution mode.
pub open spec fn mode_label(m: ToolExecutionMode) -> &'static str {
    match m {
        ToolExecutionMode::Sync => "sync",
        ToolExecutionMode::Async => "async",
        ToolExecutionMode::Offline => "offline",
        ToolExecutionMode::Resumable => "resumable",
    }
}

pub open spec fn lease_state_label(s: CapabilityLeaseState) -> &'static str {
    match s {
        CapabilityLeaseState::Requested => "requested",
        CapabilityLeaseState::Authorized => "authorized",
        CapabilityLeaseState::Active => "active",
        CapabilityLeaseState::Completed => "completed",
        CapabilityLeaseState::Released => "released",
        CapabilityLeaseState::Revoked => "revoked",
        CapabilityLeaseState::Cancelled => "cancelled",
        CapabilityLeaseState::Expired => "expired",
    }
}

pub open spec fn requirement_frame(r: ToolVersionRequirement) -> Seq<u8> {
    match r {
        ToolVersionRequirement::Exact(v) => text_frame("exact"@) + number_frame(v.major) + number_frame(v.minor)
            + number_frame(v.patch),
        ToolVersionRequirement::CompatibleMajor(m) => text_frame("compatible_major"@) + number_frame(m),
    }
}

pub open spec fn opt_data_class_frame(c: Option<ToolDataClass>) -> Seq<u8> {
    match c {
        Some(x) => present(text_frame(data_class_wire(x)@)),
        None => absent(),
    }
}

/// Canonical bytes of a capability lease, field by field.
pub open spec fn lease_frame(l: CapabilityLease) -> Seq<u8> {
    ref_frame(l.lease_id@) + text_frame(l.schema_version@) + ref_frame(l.capability_ref@) + opt_ref_frame(
        opt_ref_view(l.resource_ref),
    ) + ref_frame(l.subject_ref@) + opt_ref_frame(opt_ref_view(l.actor_ref)) + text_frame(l.purpose@)
        + opt_text_frame(opt_text_view(l.purpose_version)) + ref_frame(l.authorization_ref@) + opt_ref_frame(
        opt_ref_view(l.incident_ref),
    ) + opt_ref_frame(opt_ref_view(l.session_ref)) + text_frame(l.scope@) + number_frame(
        l.issued_at_epoch_seconds,
    ) + number_frame(l.expires_at_epoch_seconds) + text_frame(lease_state_label(l.state)@) + opt_number_frame(
        l.revoked_at_epoch_seconds,
    ) + opt_number_frame(l.cancelled_at_epoch_seconds) + opt_number_frame(l.activated_at_epoch_seconds)
        + opt_number_frame(l.released_at_epoch_seconds) + opt_ref_frame(opt_ref_view(l.adapter_ref))
        + opt_ref_frame(opt_ref_view(l.audit_ref))
}

pub open spec fn opt_lease_frame(l: Option<CapabilityLease>) -> Seq<u8> {
    match l {
        Some(x) => present(lease_frame(x)),
        None => absent(),
    }
}

/// Canonical bytes of an invocation, field by field: what its operation key
/// and its input hash are computed from.
pub open spec fn invocation_bytes(i: ToolGatewayInvocation) -> Seq<u8> {
    text_frame(i.request_id@) + text_frame(i.occurred_at@) + ref_frame(i.authorization_ref@) + ref_frame(
        i.subject_ref@,
    ) + opt_ref_frame(opt_ref_view(i.actor_ref)) + ref_frame(i.action@) + ref_frame(i.resource_ref@)
        + ref_frame(i.capability_ref@) + opt_ref_frame(opt_ref_view(i.function_ref)) + text_frame(i.purpose@)
        + opt_text_frame(opt_text_view(i.purpose_version)) + opt_ref_frame(opt_ref_view(i.jurisdiction_ref))
        + opt_data_class_frame(i.data_class) + text_frame(i.tool_id@) + requirement_frame(i.tool_version)
        + text_frame(i.implementation_id@) + text_frame(i.provider_id@) + text_frame(i.implementation_version@)
        + text_frame(i.idempotency_ref@) + text_frame(i.requested_scope@) + text_frame(
        mode_label(i.execution_mode)@,
    ) + opt_lease_frame(i.capability_lease) + opt_ref_frame(opt_ref_view(i.incident_ref)) + opt_ref_frame(
        opt_ref_view(i.session_ref),
    )
}

/// The idempotency key of an invocation: derived from every field of it.
pub open spec fn operation_key_text(i: ToolGatewayInvocation) -> Seq<char> {
    "tool-gateway:"@ + hex_text(sha256(invocation_bytes(i)))
}

fn data_class_label(c: ToolDataClass) -> (r: &'static str)
    ensures
        r == data_class_wire(c),
{
    match c {
        ToolDataClass::Public => "public",
        ToolDataClass::Internal => "internal",
        ToolDataClass::Confidential => "confidential",
        ToolDataClass::Restricted => "restricted",
    }
}

fn mode_name(m: ToolExecutionMode) -> (r: &'static str)
    ensures
        r == mode_label(m),
{
    match m {
        ToolExecutionMode::Sync => "sync",
        ToolExecutionMode::Async => "async",
        ToolExecutionMode::Offline => "offline",
        ToolExecutionMode::Resumable => "resumable",
    }
}

fn lease_state_name(s: CapabilityLeaseState) -> (r: &'static str)
    ensures
        r == lease_state_label(s),
{
    match s {
        CapabilityLeaseState::Requested => "requested",
        CapabilityLeaseState::Authorized => "authorized",
        CapabilityLeaseState::Active => "active",
        CapabilityLeaseState::Completed => "completed",
        CapabilityLeaseState::Released => "released",
        CapabilityLeaseState::Revoked => "revoked",
        CapabilityLeaseState::Cancelled => "cancelled",
        CapabilityLeaseState::Expired => "expired",
    }
}

fn push_requirement(buf: &mut Vec<u8>, r: &ToolVersionRequirement)
    ensures
        final(buf)@ == old(buf)@ + requirement_frame(*r),
{
    match r {
        ToolVersionRequirement::Exact(v) => {
            push_text(buf, "exact");
            push_number(buf, v.major);
            push_number(buf, v.minor);
            push_number(buf, v.patch);
        },
        ToolVersionRequirement::CompatibleMajor(m) => {
            push_text(buf, "compatible_major");
            push_number(buf, *m);
        },
    }
    proof {
        assert(buf@ =~= old(buf)@ + requirement_frame(*r));
    }
}

fn push_opt_data_class(buf: &mut Vec<u8>, c: Option<ToolDataClass>)
    ensures
        final(buf)@ == old(buf)@ + opt_data_class_frame(c),
{
    match c {
        Some(x) => {
            buf.push(61u8);
            push_text(buf, data_class_label(x));
        },
        None => {
            buf.push(126u8);
        },
    }
    proof {
        assert(buf@ =~= old(buf)@ + opt_data_class_frame(c));
    }
}

fn encode_lease(l: &CapabilityLease) -> (r: Vec<u8>)
    ensures
        r@ == lease_frame(*l),
{
    let mut buf: Vec<u8> = Vec::new();
    push_ref(&mut buf, &l.lease_id);
    assert(buf@ =~= ref_frame(l.lease_id@));
    push_text(&mut buf, l.schema_version.as_str());
    push_ref(&mut buf, &l.capability_ref);
    push_opt_ref(&mut buf, &l.resource_ref);
    push_ref(&mut buf, &l.subject_ref);
    push_opt_ref(&mut buf, &l.actor_ref);
    push_text(&mut buf, l.purpose.as_str());
    push_opt_text(&mut buf, &l.purpose_version);
    push_ref(&mut buf, &l.authorization_ref);
    push_opt_ref(&mut buf, &l.incident_ref);
    push_opt_ref(&mut buf, &l.session_ref);
    push_text(&mut buf, l.scope.as_str());
    push_number(&mut buf, l.issued_at_epoch_seconds);
    push_number(&mut buf, l.expires_at_epoch_seconds);
    push_text(&mut buf, lease_state_name(l.state));
    push_opt_number(&mut buf, l.revoked_at_epoch_seconds);
    push_opt_number(&mut buf, l.cancelled_at_epoch_seconds);
    push_opt_number(&mut buf, l.activated_at_epoch_seconds);
    push_opt_number(&mut buf, l.released_at_epoch_seconds);
    push_opt_ref(&mut buf, &l.adapter_ref);
    push_opt_ref(&mut buf, &l.audit_ref);
    buf
}

fn push_opt_lease(buf: &mut Vec<u8>, l: &Option<CapabilityLease>)
    ensures
        final(buf)@ == old(buf)@ + opt_lease_frame(*l),
{
    match l {
        Some(x) => {
            buf.push(61u8);
            let mut sub = encode_lease(x);
            buf.append(&mut sub);
        },
        None => {
            buf.push(126u8);
        },
    }
    proof {
        assert(buf@ =~= old(buf)@ + opt_lease_frame(*l));
    }
}

/// The canonical bytes of an invocation.
pub fn encode_invocation(i: &ToolGatewayInvocation) -> (r: Vec<u8>)
    ensures
        r@ == invocation_bytes(*i),
{
    let mut buf: Vec<u8> = Vec::new();
    push_text(&mut buf, i.request_id.as_str());
    assert(buf@ =~= text_frame(i.request_id@));
    push_text(&mut buf, i.occurred_at.as_str());
    push_ref(&mut buf, &i.authorization_ref);
    push_ref(&mut buf, &i.subject_ref);
    push_opt_ref(&mut buf, &i.actor_ref);
    push_ref(&mut buf, &i.action);
    push_ref(&mut buf, &i.resource_ref);
    push_ref(&mut buf, &i.capability_ref);
    push_opt_ref(&mut buf, &i.function_ref);
    push_text(&mut buf, i.purpose.as_str());
    push_opt_text(&mut buf, &i.purpose_version);
    push_opt_ref(&mut buf, &i.jurisdiction_ref);
    push_opt_data_class(&mut buf, i.data_class);
    push_text(&mut buf, i.tool_id.as_str());
    push_requirement(&mut buf, &i.tool_version);
    push_text(&mut buf, i.implementation_id.as_str());
    push_text(&mut buf, i.provider_id.as_str());
    push_text(&mut buf, i.implementation_version.as_str());
    push_text(&mut buf, i.idempotency_ref.as_str());
    push_text(&mut buf, i.requested_scope.as_str());
    push_text(&mut buf, mode_name(i.execution_mode));
    push_opt_lease(&mut buf, &i.capability_lease);
    push_opt_ref(&mut buf, &i.incident_ref);
    push_opt_ref(&mut buf, &i.session_ref);
    buf
}

/// The idempotency key of an invocation: `tool-gateway:` and the SHA-256 of
/// its canonical bytes.
pub fn operation_key(invocation: &ToolGatewayInvocation) -> (r: Result<Id, ToolGatewayError>)
    ensures
        r is Ok,
        r->Ok_0@ == operation_key_text(*invocation),
{
    let bytes = encode_invocation(invocation);
    let digest = sha256_hex(bytes.as_slice());
    Ok(concat("tool-gateway:", digest.as_str()))
}

// ----- validation -----

/// The invocation carries exactly the context that authorization was
/// requested for.
pub open spec fn context_matches(i: ToolGatewayInvocation, q: AuthorizationRequest) -> bool {
    &&& i.request_id@ == q.request_id@
    &&& i.authorization_ref@ == q.authorization_ref@
    &&& i.subject_ref@ == q.subject_ref@
    &&& i.action@ == q.action@
    &&& i.resource_ref@ == q.resource_ref@
    &&& i.purpose@ == q.purpose@
    &&& opt_ref_view(i.jurisdiction_ref) == opt_ref_view(q.jurisdiction_ref)
    &&& data_class_wire_view(i.data_class) == opt_text_view(q.data_class)
}

/// The registered tool can serve the invocation: active, in this mode, for
/// this data class and jurisdiction, with a scope.
pub open spec fn registry_context(i: ToolGatewayInvocation, tool: ToolRegistryEntry) -> Result<(), ToolGatewayError> {
    if tool.lifecycle != ToolLifecycle::Active {
        Err(ToolGatewayError::ToolLifecycleUnavailable)
    } else if !tool.execution_modes@.contains(i.execution_mode) {
        Err(ToolGatewayError::ExecutionModeNotSupported)
    } else if i.data_class is Some && !tool.data_classes@.contains(i.data_class->0) {
        Err(ToolGatewayError::DataClassNotSupported)
    } else if i.jurisdiction_ref is Some && !(exists|k: int|
        0 <= k < tool.jurisdiction_scope@.len() && (#[trigger] tool.jurisdiction_scope@[k])@
            == i.jurisdiction_ref->0.id@) {
        Err(ToolGatewayError::JurisdictionNotSupported)
    } else if is_blank(i.requested_scope@) {
        Err(ToolGatewayError::Authorization(AuthorizationValidationError::ConstraintViolation))
    } else {
        Ok(())
    }
}

/// The tool is registered for what the invocation asks of it: it is active,
/// offers the invocation's execution mode, handles its data class and covers
/// its jurisdiction, where the invocation names them.
pub open spec fn registered_for(i: ToolGatewayInvocation, tool: ToolRegistryEntry) -> bool {
    &&& tool.lifecycle == ToolLifecycle::Active
    &&& tool.execution_modes@.contains(i.execution_mode)
    &&& (i.data_class matches Some(c) ==> tool.data_classes@.contains(c))
    &&& (i.jurisdiction_ref matches Some(j) ==> exists|k: int|
        0 <= k < tool.jurisdiction_scope@.len() && (#[trigger] tool.jurisdiction_scope@[k])@ == j.id@)
    &&& !is_blank(i.requested_scope@)
}

/// A tool is only run on what it is registered for: the registry context
/// check passes only where the tool is registered for the invocation, and
/// an invocation naming a data class the tool does not handle is refused as
/// such.
pub proof fn lemma_registry_context_registered(i: ToolGatewayInvocation, tool: ToolRegistryEntry)
    ensures
        registry_context(i, tool) is Ok ==> registered_for(i, tool),
        registry_context(i, tool) is Ok ==> tool.lifecycle == ToolLifecycle::Active
            && tool.execution_modes@.contains(i.execution_mode) && (i.data_class matches Some(c)
            ==> tool.data_classes@.contains(c)) && (i.jurisdiction_ref matches Some(j) ==> exists|k: int|
            0 <= k < tool.jurisdiction_scope@.len() && (#[trigger] tool.jurisdiction_scope@[k])@ == j.id@)
            && !is_blank(i.requested_scope@),
        tool.lifecycle == ToolLifecycle::Active && tool.execution_modes@.contains(i.execution_mode) && (
        i.data_class matches Some(c) && !tool.data_classes@.contains(c)) ==> registry_context(i, tool) == Err::<
            (),
            ToolGatewayError,
        >(ToolGatewayError::DataClassNotSupported),
{
}

/// Validation succeeds only for a tool that resolves in the registry and is
/// registered for the invocation.
pub proof fn lemma_validation_registered(
    registry: InMemoryToolRegistry,
    i: ToolGatewayInvocation,
    q: AuthorizationRequest,
    a: AuthorizationResult,
    now: u64,
)
    ensures
        gateway_validation(registry, i, q, a, now) is Ok ==> registry.resolution(i.tool_id@, i.tool_version) is Ok
            && registered_for(i, registry.resolution(i.tool_id@, i.tool_version)->Ok_0),
        gateway_validation(registry, i, q, a, now) is Ok && i.data_class is Some ==> registry.resolution(
            i.tool_id@,
            i.tool_version,
        )->Ok_0.data_classes@.contains(i.data_class->0),
{
    if gateway_validation(registry, i, q, a, now) is Ok {
        lemma_registry_context_registered(i, registry.resolution(i.tool_id@, i.tool_version)->Ok_0);
    }
}

/// `im` is the implementation, provider and version that the invocation names.
pub open spec fn implements(im: ToolImplementation, i: ToolGatewayInvocation) -> bool {
    im.implementation_id@ == i.implementation_id@ && im.provider_id@ == i.provider_id@
        && im.implementation_version@ == i.implementation_version@
}

pub open spec fn binds_implementation(i: ToolGatewayInvocation, tool: ToolRegistryEntry) -> bool {
    exists|k: int| 0 <= k < tool.implementations@.len() && #[trigger] implements(tool.implementations@[k], i)
}

/// A constraint that the gateway can enforce.
pub open spec fn constraint_recognized(c: AuthorizationConstraint) -> bool {
    (c.key@ == "scope"@ && (c.value@ == "exact_resource"@ || c.value@ == "exact_evidence"@)) || (c.key@
        == "access_mode"@ && c.value@ == "read_only"@)
}

pub open spec fn is_scope(c: AuthorizationConstraint) -> bool {
    c.key@ == "scope"@
}

/// Every constraint is recognized, the scope constraints agree, and a scope
/// constraint binds the requested scope to the exact resource.
pub open spec fn constraints_admit(cs: Seq<AuthorizationConstraint>, i: ToolGatewayInvocation) -> bool {
    &&& forall|k: int| 0 <= k < cs.len() ==> constraint_recognized(#[trigger] cs[k])
    &&& forall|a: int, b: int|
        0 <= a < cs.len() && 0 <= b < cs.len() && is_scope(#[trigger] cs[a]) && is_scope(#[trigger] cs[b])
            ==> cs[a].value@ == cs[b].value@
    &&& (exists|k: int| 0 <= k < cs.len() && is_scope(#[trigger] cs[k])) ==> i.requested_scope@
        == i.resource_ref.id@
}

/// The capability-lease checks: a required lease is present, and a present
/// lease belongs to this authorization and admits this exact use.
pub open spec fn lease_check(i: ToolGatewayInvocation, tool: ToolRegistryEntry, now: u64) -> Result<(), ToolGatewayError> {
    if tool.capability_lease_required && i.capability_lease is None {
        Err(ToolGatewayError::Lease(CapabilityLeaseError::InvalidLease))
    } else {
        match i.capability_lease {
            None => Ok(()),
            Some(l) => if l.authorization_ref@ != i.authorization_ref@ {
                Err(ToolGatewayError::Lease(CapabilityLeaseError::InvalidLease))
            } else {
                match l.use_outcome(
                    now,
                    tool.capability_ref,
                    Some(i.resource_ref@),
                    i.subject_ref,
                    opt_ref_view(i.actor_ref),
                    i.purpose@,
                    opt_text_view(i.purpose_version),
                    i.requested_scope@,
                    opt_ref_view(i.incident_ref),
                    opt_ref_view(i.session_ref),
                ) {
                    Ok(()) => Ok(()),
                    Err(e) => Err(ToolGatewayError::Lease(e)),
                }
            },
        }
    }
}

/// The checks of an invocation against the tool that it resolved to.
pub open spec fn tool_checks(
    i: ToolGatewayInvocation,
    tool: ToolRegistryEntry,
    a: AuthorizationResult,
    now: u64,
) -> Result<ToolGatewayPhase, ToolGatewayError> {
    match registry_context(i, tool) {
        Err(e) => Err(e),
        Ok(()) => if !binds_implementation(i, tool) {
            Err(ToolGatewayError::Registry(ToolRegistryError::UnsupportedVersion))
        } else if i.capability_ref@ != tool.capability_ref@ || opt_ref_view(i.function_ref) != opt_ref_view(
            tool.function_ref,
        ) {
            Err(ToolGatewayError::Registry(ToolRegistryError::UnsupportedVersion))
        } else if !constraints_admit(a.constraints@, i) {
            Err(ToolGatewayError::Authorization(AuthorizationValidationError::ConstraintViolation))
        } else {
            match lease_check(i, tool, now) {
                Err(e) => Err(e),
                Ok(()) => Ok(ToolGatewayPhase::Validated),
            }
        },
    }
}

/// What validating an invocation against `registry` answers: every authority
/// and context check, in order, and nothing claimed.
pub open spec fn gateway_validation(
    registry: InMemoryToolRegistry,
    i: ToolGatewayInvocation,
    q: AuthorizationRequest,
    a: AuthorizationResult,
    now: u64,
) -> Result<ToolGatewayPhase, ToolGatewayError> {
    if is_blank(i.idempotency_ref@) {
        Err(ToolGatewayError::MissingIdempotency)
    } else if !context_matches(i, q) {
        Err(ToolGatewayError::Authorization(AuthorizationValidationError::RequestResultMismatch))
    } else {
        match enforcement(q, a, now) {
            Err(e) => Err(ToolGatewayError::Authorization(e)),
            Ok(()) => match registry.resolution(i.tool_id@, i.tool_version) {
                Err(e) => Err(ToolGatewayError::Registry(e)),
                Ok(tool) => tool_checks(i, tool, a, now),
            },
        }
    }
}

fn invocation_context_matches_request(i: &ToolGatewayInvocation, q: &AuthorizationRequest) -> (b: bool)
    ensures
        b == context_matches(*i, *q),
{
    let class_matches = match (i.data_class, &q.data_class) {
        (Some(c), Some(t)) => str_eq(data_class_label(c), t.as_str()),
        (None, None) => true,
        _ => false,
    };
    str_eq(i.request_id.as_str(), q.request_id.as_str()) && i.authorization_ref.same(&q.authorization_ref)
        && i.subject_ref.same(&q.subject_ref) && i.action.same(&q.action) && i.resource_ref.same(
        &q.resource_ref,
    ) && str_eq(i.purpose.as_str(), q.purpose.as_str()) && crate::resource::opt_ref_eq(
        &i.jurisdiction_ref,
        &q.jurisdiction_ref,
    ) && class_matches
}

fn has_mode(modes: &Vec<ToolExecutionMode>, m: ToolExecutionMode) -> (b: bool)
    ensures
        b == modes@.contains(m),
{
    let mut k: usize = 0;
    while k < modes.len()
        invariant
            k <= modes@.len(),
            forall|j: int| 0 <= j < k ==> modes@[j] != m,
        decreases modes@.len() - k,
    {
        if modes[k] == m {
            return true;
        }
        k = k + 1;
    }
    false
}

fn has_class(classes: &Vec<ToolDataClass>, c: ToolDataClass) -> (b: bool)
    ensures
        b == classes@.contains(c),
{
    let mut k: usize = 0;
    while k < classes.len()
        invariant
            k <= classes@.len(),
            forall|j: int| 0 <= j < k ==> classes@[j] != c,
        decreases classes@.len() - k,
    {
        if classes[k] == c {
            return true;
        }
        k = k + 1;
    }
    false
}

fn has_text(texts: &Vec<String>, t: &str) -> (b: bool)
    ensures
        b == exists|k: int| 0 <= k < texts@.len() && (#[trigger] texts@[k])@ == t@,
{
    let mut k: usize = 0;
    while k < texts.len()
        invariant
            k <= texts@.len(),
            forall|j: int| 0 <= j < k ==> (#[trigger] texts@[j])@ != t@,
        decreases texts@.len() - k,
    {
        if str_eq(texts[k].as_str(), t) {
            return true;
        }
        k = k + 1;
    }
    false
}

fn validate_registry_context(i: &ToolGatewayInvocation, tool: &ToolRegistryEntry) -> (r: Result<(), ToolGatewayError>)
    ensures
        r == registry_context(*i, *tool),
        r is Ok ==> registered_for(*i, *tool),
{
    proof {
        lemma_registry_context_registered(*i, *tool);
    }
    if !tool.lifecycle.selectable_for_execution() {
        return Err(ToolGatewayError::ToolLifecycleUnavailable);
    }
    if !has_mode(&tool.execution_modes, i.execution_mode) {
        return Err(ToolGatewayError::ExecutionModeNotSupported);
    }
    if let Some(c) = i.data_class {
        if !has_class(&tool.data_classes, c) {
            return Err(ToolGatewayError::DataClassNotSupported);
        }
    }
    if let Some(j) = &i.jurisdiction_ref {
        if !has_text(&tool.jurisdiction_scope, j.id.as_str()) {
            return Err(ToolGatewayError::JurisdictionNotSupported);
        }
    }
    if str_is_blank(i.requested_scope.as_str()) {
        return Err(ToolGatewayError::Authorization(AuthorizationValidationError::ConstraintViolation));
    }
    Ok(())
}

fn validate_registry_implementation_binding(i: &ToolGatewayInvocation, tool: &ToolRegistryEntry) -> (r: Result<
    (),
    ToolGatewayError,
>)
    ensures
        binds_implementation(*i, *tool) ==> r is Ok,
        !binds_implementation(*i, *tool) ==> r == Err::<(), ToolGatewayError>(
            ToolGatewayError::Registry(ToolRegistryError::UnsupportedVersion),
        ),
{
    let mut k: usize = 0;
    while k < tool.implementations.len()
        invariant
            k <= tool.implementations@.len(),
            forall|j: int| 0 <= j < k ==> !implements(#[trigger] tool.implementations@[j], *i),
        decreases tool.implementations@.len() - k,
    {
        let im = &tool.implementations[k];
        if str_eq(im.implementation_id.as_str(), i.implementation_id.as_str()) && str_eq(
            im.provider_id.as_str(),
            i.provider_id.as_str(),
        ) && str_eq(im.implementation_version.as_str(), i.implementation_version.as_str()) {
            assert(implements(tool.implementations@[k as int], *i));
            return Ok(());
        }
        k = k + 1;
    }
    Err(ToolGatewayError::Registry(ToolRegistryError::UnsupportedVersion))
}

fn validate_authorized_constraints(cs: &Vec<AuthorizationConstraint>, i: &ToolGatewayInvocation) -> (r: Result<
    (),
    ToolGatewayError,
>)
    ensures
        constraints_admit(cs@, *i) ==> r is Ok,
        !constraints_admit(cs@, *i) ==> r == Err::<(), ToolGatewayError>(
            ToolGatewayError::Authorization(AuthorizationValidationError::ConstraintViolation),
        ),
{
    let violation = ToolGatewayError::Authorization(AuthorizationValidationError::ConstraintViolation);
    let mut first: Option<usize> = None;
    let mut k: usize = 0;
    while k < cs.len()
        invariant
            k <= cs@.len(),
            violation == ToolGatewayError::Authorization(AuthorizationValidationError::ConstraintViolation),
            forall|j: int| 0 <= j < k ==> constraint_recognized(#[trigger] cs@[j]),
            first is None ==> forall|j: int| 0 <= j < k ==> !is_scope(#[trigger] cs@[j]),
            first is Some ==> first->0 < k && is_scope(cs@[first->0 as int]) && forall|j: int|
                0 <= j < k && is_scope(#[trigger] cs@[j]) ==> cs@[j].value@ == cs@[first->0 as int].value@,
        decreases cs@.len() - k,
    {
        let c = &cs[k];
        let scope_key = str_eq(c.key.as_str(), "scope");
        let access_key = str_eq(c.key.as_str(), "access_mode");
        let known = (scope_key && (str_eq(c.value.as_str(), "exact_resource") || str_eq(
            c.value.as_str(),
            "exact_evidence",
        ))) || (access_key && str_eq(c.value.as_str(), "read_only"));
        if !known {
            assert(!constraint_recognized(cs@[k as int]));
            return Err(violation);
        }
        if scope_key {
            match first {
                Some(f) => {
                    if !str_eq(cs[f].value.as_str(), c.value.as_str()) {
                        assert(is_scope(cs@[f as int]) && is_scope(cs@[k as int]));
                        return Err(violation);
                    }
                },
                None => {
                    first = Some(k);
                },
            }
        }
        k = k + 1;
    }
    match first {
        Some(f) => {
            if !str_eq(i.requested_scope.as_str(), i.resource_ref.id.as_str()) {
                assert(is_scope(cs@[f as int]));
                return Err(violation);
            }
        },
        None => {},
    }
    Ok(())
}

fn validate_lease(i: &ToolGatewayInvocation, tool: &ToolRegistryEntry, now: u64) -> (r: Result<(), ToolGatewayError>)
    ensures
        r == lease_check(*i, *tool, now),
{
    if tool.capability_lease_required && i.capability_lease.is_none() {
        return Err(ToolGatewayError::Lease(CapabilityLeaseError::InvalidLease));
    }
    match &i.capability_lease {
        None => Ok(()),
        Some(lease) => {
            if !lease.authorization_ref.same(&i.authorization_ref) {
                return Err(ToolGatewayError::Lease(CapabilityLeaseError::InvalidLease));
            }
            let purpose_version: Option<&str> = match &i.purpose_version {
                Some(v) => Some(v.as_str()),
                None => None,
            };
            let actor: Option<&ResourceRef> = match &i.actor_ref {
                Some(x) => Some(x),
                None => None,
            };
            let incident: Option<&ResourceRef> = match &i.incident_ref {
                Some(x) => Some(x),
                None => None,
            };
            let session: Option<&ResourceRef> = match &i.session_ref {
                Some(x) => Some(x),
                None => None,
            };
            match lease.validate_use(
                now,
                &tool.capability_ref,
                Some(&i.resource_ref),
                &i.subject_ref,
                actor,
                i.purpose.as_str(),
                purpose_version,
                i.requested_scope.as_str(),
                incident,
                session,
            ) {
                Ok(()) => Ok(()),
                Err(e) => Err(ToolGatewayError::Lease(e)),
            }
        },
    }
}

fn check_tool(i: &ToolGatewayInvocation, tool: &ToolRegistryEntry, a: &AuthorizationResult, now: u64) -> (r: Result<
    ToolGatewayPhase,
    ToolGatewayError,
>)
    ensures
        r == tool_checks(*i, *tool, *a, now),
{
    match validate_registry_context(i, tool) {
        Ok(()) => {},
        Err(e) => return Err(e),
    }
    match validate_registry_implementation_binding(i, tool) {
        Ok(()) => {},
        Err(e) => return Err(e),
    }
    if !i.capability_ref.same(&tool.capability_ref) || !crate::resource::opt_ref_eq(&i.function_ref, &tool.function_ref) {
        return Err(ToolGatewayError::Registry(ToolRegistryError::UnsupportedVersion));
    }
    match validate_authorized_constraints(&a.constraints, i) {
        Ok(()) => {},
        Err(e) => return Err(e),
    }
    match validate_lease(i, tool, now) {
        Ok(()) => Ok(ToolGatewayPhase::Validated),
        Err(e) => Err(e),
    }
}

// ----- audit of an invocation -----

/// How a version requirement is written in audit records: `1.2.3`, or `^1.x`.
pub open spec fn version_text(r: ToolVersionRequirement) -> Seq<char> {
    match r {
        ToolVersionRequirement::Exact(v) => decimal(v.major as nat) + "."@ + decimal(v.minor as nat) + "."@
            + decimal(v.patch as nat),
        ToolVersionRequirement::CompatibleMajor(m) => "^"@ + decimal(m as nat) + ".x"@,
    }
}

fn format_tool_version(r: &ToolVersionRequirement) -> (t: String)
    ensures
        t@ == version_text(*r),
{
    let mut t = String::new();
    match r {
        ToolVersionRequirement::Exact(v) => {
            push_decimal(&mut t, v.major);
            push_str(&mut t, ".");
            push_decimal(&mut t, v.minor);
            push_str(&mut t, ".");
            push_decimal(&mut t, v.patch);
        },
        ToolVersionRequirement::CompatibleMajor(m) => {
            push_str(&mut t, "^");
            push_decimal(&mut t, *m);
            push_str(&mut t, ".x");
        },
    }
    proof {
        assert(t@ =~= version_text(*r));
    }
    t
}

pub open spec fn approval_action_view(approval: Option<ApprovalRecord>) -> Option<crate::resource::ResourceRefView> {
    match approval {
        Some(a) => Some(a.action_ref@),
        None => None,
    }
}

pub open spec fn failure_view(failure: Option<&'static str>) -> Option<Seq<char>> {
    match failure {
        Some(f) => Some(f@),
        None => None,
    }
}

/// `rec` and `prov` are the audit record and the provenance of invocation
/// `i` under `q`, with key `op`, ending with `outcome`.
pub open spec fn describes_invocation(
    rec: AuditRecord,
    prov: Provenance,
    i: ToolGatewayInvocation,
    q: AuthorizationRequest,
    approval: Option<ApprovalRecord>,
    outcome: Seq<char>,
    failure: Option<Seq<char>>,
    op: Seq<char>,
) -> bool {
    let actor = i.actor_ref->0;
    &&& rec.audit_id@ == "audit-tool-gateway-"@ + op
    &&& rec.actor_id@ == actor.id@
    &&& rec.action@ == i.action.id@
    &&& rec.aggregate_type@ == crate::resource::type_label(i.resource_ref.resource_type)@
    &&& rec.aggregate_id@ == i.resource_ref.id@
    &&& rec.occurred_at@ == i.occurred_at@
    &&& opt_text_view(rec.correlation_id) == Some(i.request_id@)
    &&& rec.causation_id is None
    &&& opt_ref_view(rec.provenance_ref) == Some(
        crate::resource::ResourceRefView {
            resource_type: ResourceType::Provenance,
            id: "provenance-tool-gateway-"@ + op,
        },
    )
    &&& opt_text_view(rec.invocation_id) == Some(op)
    &&& opt_text_view(rec.request_id) == Some(q.request_id@)
    &&& opt_ref_view(rec.authorization_ref) == Some(q.authorization_ref@)
    &&& opt_ref_view(rec.action_ref) == Some(i.action@)
    &&& opt_ref_view(rec.approval_ref) == approval_action_view(approval)
    &&& opt_text_view(rec.tool_id) == Some(i.tool_id@)
    &&& opt_text_view(rec.tool_version) == Some(version_text(i.tool_version))
    &&& opt_ref_view(rec.capability_ref) == Some(i.capability_ref@)
    &&& opt_ref_view(rec.function_ref) == opt_ref_view(i.function_ref)
    &&& opt_text_view(rec.provider_id) == Some(i.provider_id@)
    &&& opt_text_view(rec.implementation_id) == Some(i.implementation_id@)
    &&& opt_text_view(rec.implementation_version) == Some(i.implementation_version@)
    &&& opt_ref_view(rec.resource_ref) == Some(i.resource_ref@)
    &&& opt_text_view(rec.purpose) == Some(i.purpose@)
    &&& opt_ref_view(rec.jurisdiction_ref) == opt_ref_view(i.jurisdiction_ref)
    &&& opt_text_view(rec.data_class) == data_class_wire_view(i.data_class)
    &&& opt_text_view(rec.requested_scope) == Some(i.requested_scope@)
    &&& opt_text_view(rec.execution_mode) == Some(mode_label(i.execution_mode)@)
    &&& opt_text_view(rec.idempotency_ref) == Some(i.idempotency_ref@)
    &&& opt_text_view(rec.outcome) == Some(outcome)
    &&& opt_text_view(rec.failure) == failure
    &&& opt_text_view(rec.input_hash) == Some(hex_text(sha256(invocation_bytes(i))))
    &&& rec.output_hash is None
    &&& prov.provenance_id@ == "provenance-tool-gateway-"@ + op
    &&& opt_ref_view(prov.actor_ref) == Some(actor@)
    &&& crate::resource::refs_view(prov.source_refs@) == seq![q.authorization_ref@, i.capability_ref@]
    &&& crate::resource::refs_view(prov.input_refs@) == seq![i.resource_ref@]
    &&& prov.operation@ == "tool-gateway."@ + outcome
    &&& prov.occurred_at@ == i.occurred_at@
}

fn some_text(t: &str) -> (r: Option<String>)
    ensures
        opt_text_view(r) == Some(t@),
{
    Some(text_of(t))
}

/// The audit record and provenance of an invocation; an invocation without
/// an actor cannot be audited.
#[verifier::rlimit(40)]
pub fn invocation_audit(
    i: &ToolGatewayInvocation,
    q: &AuthorizationRequest,
    approval: Option<&ApprovalRecord>,
    outcome: &str,
    failure: Option<&'static str>,
) -> (r: Result<(AuditRecord, Provenance), ToolGatewayError>)
    ensures
        i.actor_ref is None ==> r == Err::<(AuditRecord, Provenance), ToolGatewayError>(
            ToolGatewayError::Audit("invocation actor is required for audit"),
        ),
        i.actor_ref is Some ==> r is Ok && describes_invocation(
            r->Ok_0.0,
            r->Ok_0.1,
            *i,
            *q,
            crate::action::deref_opt(approval),
            outcome@,
            failure_view(failure),
            operation_key_text(*i),
        ),
{
    let actor = match &i.actor_ref {
        Some(a) => a,
        None => return Err(ToolGatewayError::Audit("invocation actor is required for audit")),
    };
    let operation_id = match operation_key(i) {
        Ok(k) => k,
        Err(e) => return Err(e),
    };
    let provenance_id = concat("provenance-tool-gateway-", operation_id.as_str());
    let audit_id = concat("audit-tool-gateway-", operation_id.as_str());
    let provenance_ref = ResourceRef { resource_type: ResourceType::Provenance, id: provenance_id.clone() };
    let bytes = encode_invocation(i);
    let input_hash = sha256_hex(bytes.as_slice());
    let approval_ref = match approval {
        Some(a) => Some(a.action_ref.duplicate()),
        None => None,
    };
    let data_class = match i.data_class {
        Some(c) => Some(text_of(data_class_label(c))),
        None => None,
    };
    let failure_text = match failure {
        Some(f) => Some(text_of(f)),
        None => None,
    };
    let record = AuditRecord {
        audit_id,
        actor_id: actor.id.clone(),
        action: i.action.id.clone(),
        aggregate_type: text_of(i.resource_ref.resource_type.label()),
        aggregate_id: i.resource_ref.id.clone(),
        occurred_at: i.occurred_at.clone(),
        correlation_id: Some(i.request_id.clone()),
        causation_id: None,
        provenance_ref: Some(provenance_ref),
        invocation_id: Some(operation_id.clone()),
        request_id: Some(q.request_id.clone()),
        authorization_ref: Some(q.authorization_ref.duplicate()),
        action_ref: Some(i.action.duplicate()),
        approval_ref,
        tool_id: Some(i.tool_id.clone()),
        tool_version: Some(format_tool_version(&i.tool_version)),
        capability_ref: Some(i.capability_ref.duplicate()),
        function_ref: crate::resource::opt_ref_dup(&i.function_ref),
        provider_id: Some(i.provider_id.clone()),
        implementation_id: Some(i.implementation_id.clone()),
        implementation_version: Some(i.implementation_version.clone()),
        resource_ref: Some(i.resource_ref.duplicate()),
        purpose: Some(i.purpose.clone()),
        jurisdiction_ref: crate::resource::opt_ref_dup(&i.jurisdiction_ref),
        data_class,
        requested_scope: Some(i.requested_scope.clone()),
        execution_mode: some_text(mode_name(i.execution_mode)),
        idempotency_ref: Some(i.idempotency_ref.clone()),
        outcome: some_text(outcome),
        failure: failure_text,
        input_hash: Some(input_hash),
        output_hash: None,
    };
    let mut source_refs: Vec<ResourceRef> = Vec::new();
    source_refs.push(q.authorization_ref.duplicate());
    source_refs.push(i.capability_ref.duplicate());
    let mut input_refs: Vec<ResourceRef> = Vec::new();
    input_refs.push(i.resource_ref.duplicate());
    let provenance = Provenance {
        provenance_id,
        actor_ref: Some(actor.duplicate()),
        source_refs,
        input_refs,
        operation: concat("tool-gateway.", outcome),
        occurred_at: i.occurred_at.clone(),
    };
    proof {
        assert(crate::resource::refs_view(provenance.source_refs@) =~= seq![q.authorization_ref@, i.capability_ref@]);
        assert(crate::resource::refs_view(provenance.input_refs@) =~= seq![i.resource_ref@]);
    }
    Ok((record, provenance))
}

/// `after` is `before` with the audit record and the provenance of the
/// invocation appended: those that `describes_invocation` fixes for this
/// outcome and failure.
pub open spec fn invocation_audited(
    before: (Seq<AuditRecord>, Seq<Provenance>),
    after: (Seq<AuditRecord>, Seq<Provenance>),
    i: ToolGatewayInvocation,
    q: AuthorizationRequest,
    approval: Option<ApprovalRecord>,
    outcome: Seq<char>,
    failure: Option<Seq<char>>,
) -> bool {
    exists|rec: AuditRecord, prov: Provenance|
        after == (before.0.push(rec), before.1.push(prov)) && #[trigger] describes_invocation(
            rec,
            prov,
            i,
            q,
            approval,
            outcome,
            failure,
            operation_key_text(i),
        )
}

/// The outcome an invocation's audit records: `completed` for a provider
/// success, `failed` otherwise.
pub open spec fn audit_outcome_text<O>(outcome: Result<O, ToolGatewayError>) -> Seq<char> {
    if outcome is Ok {
        "completed"@
    } else {
        "failed"@
    }
}

/// The failure an invocation's audit records: none for a provider success,
/// `provider_failed` otherwise.
pub open spec fn audit_failure_text<O>(outcome: Result<O, ToolGatewayError>) -> Option<Seq<char>> {
    if outcome is Ok {
        None
    } else {
        Some("provider_failed"@)
    }
}

/// Records the audit record and provenance of an invocation in `audit`.
fn record_invocation_audit<A: AuditProvenanceSink>(
    audit: &mut A,
    i: &ToolGatewayInvocation,
    q: &AuthorizationRequest,
    approval: Option<&ApprovalRecord>,
    outcome: &str,
    failure: Option<&'static str>,
) -> (r: Result<(), ToolGatewayError>)
    ensures
        i.actor_ref is None ==> r == Err::<(), ToolGatewayError>(
            ToolGatewayError::Audit("invocation actor is required for audit"),
        ),
        i.actor_ref is Some ==> r is Ok || r->Err_0 is Audit,
        r is Ok ==> invocation_audited(
            old(audit).stored(),
            final(audit).stored(),
            *i,
            *q,
            crate::action::deref_opt(approval),
            outcome@,
            failure_view(failure),
        ),
        r is Err ==> final(audit).stored() == old(audit).stored(),
{
    let (record, provenance) = match invocation_audit(i, q, approval, outcome, failure) {
        Ok(pair) => pair,
        Err(e) => return Err(e),
    };
    let ghost (rec, prov) = (record, provenance);
    match audit.record_invocation(record, provenance) {
        Ok(()) => {
            assert(describes_invocation(
                rec,
                prov,
                *i,
                *q,
                crate::action::deref_opt(approval),
                outcome@,
                failure_view(failure),
                operation_key_text(*i),
            ));
            Ok(())
        },
        Err(e) => Err(ToolGatewayError::Audit(e)),
    }
}

/// What the gateway answers for the store's answer to a claim: a fresh
/// claim proceeds, an existing one is a duplicate invocation, a store error
/// is reported as an idempotency error.
pub open spec fn claim_outcome(answer: Result<IdempotencyClaim, PersistenceError>) -> Result<
    ToolGatewayPhase,
    ToolGatewayError,
> {
    match answer {
        Ok(IdempotencyClaim::Claimed) => Ok(ToolGatewayPhase::Claimed),
        Ok(IdempotencyClaim::AlreadyClaimed) => Err(ToolGatewayError::IdempotencyAlreadyClaimed),
        Err(e) => Err(ToolGatewayError::Idempotency(e)),
    }
}

pub fn claim_result(answer: Result<IdempotencyClaim, PersistenceError>) -> (r: Result<ToolGatewayPhase, ToolGatewayError>)
    ensures
        r == claim_outcome(answer),
{
    match answer {
        Ok(IdempotencyClaim::Claimed) => Ok(ToolGatewayPhase::Claimed),
        Ok(IdempotencyClaim::AlreadyClaimed) => Err(ToolGatewayError::IdempotencyAlreadyClaimed),
        Err(e) => Err(ToolGatewayError::Idempotency(e)),
    }
}

/// What an executed invocation answers once it is settled: the provider's
/// outcome when both the audit record and the final idempotency mark were
/// stored; `Unknown` when either failed, since the outcome is then not
/// durably known.
pub open spec fn settled_outcome<O>(outcome: Result<O, ToolGatewayError>, audited: bool, marked: bool) -> Result<
    O,
    ToolGatewayError,
> {
    if audited && marked {
        outcome
    } else {
        Err(ToolGatewayError::Unknown)
    }
}

pub fn settle_invocation<O>(outcome: Result<O, ToolGatewayError>, audited: bool, marked: bool) -> (r: Result<
    O,
    ToolGatewayError,
>)
    ensures
        r == settled_outcome(outcome, audited, marked),
{
    if audited && marked {
        outcome
    } else {
        Err(ToolGatewayError::Unknown)
    }
}

/// The state that records a settled outcome: `Completed` for a success,
/// `Failed` for a provider error.
pub open spec fn settled_mark<O>(outcome: Result<O, ToolGatewayError>) -> IdempotencyState {
    if outcome is Ok {
        IdempotencyState::Completed
    } else {
        IdempotencyState::Failed
    }
}

/// Whether a sink's holdings grew by one invocation audit.
pub open spec fn audit_recorded(before: (Seq<AuditRecord>, Seq<Provenance>), after: (Seq<AuditRecord>, Seq<Provenance>)) -> bool {
    after.0.len() == before.0.len() + 1
}

/// Whether `states` records `state` for `key`.
pub open spec fn marked_as(states: Map<Seq<char>, IdempotencyState>, key: Seq<char>, state: IdempotencyState) -> bool {
    states.contains_key(key) && states[key] == state
}

/// How the final state of an executed invocation's key and whether its
/// audit was stored match the answer: `Completed` exactly for a success;
/// `Unknown`, or `InProgress` when even that mark failed, only with the
/// answer `Unknown`; an error otherwise leaves it `Failed`, `Unknown` or
/// `InProgress`; an audit that was not stored gives `Unknown` and no final
/// mark.
pub open spec fn settled_marks<O>(
    states: Map<Seq<char>, IdempotencyState>,
    key: Seq<char>,
    audited: bool,
    r: Result<O, ToolGatewayError>,
) -> bool {
    &&& r is Ok <==> marked_as(states, key, IdempotencyState::Completed)
    &&& !audited ==> r == Err::<O, ToolGatewayError>(ToolGatewayError::Unknown) && (marked_as(
        states,
        key,
        IdempotencyState::Unknown,
    ) || marked_as(states, key, IdempotencyState::InProgress))
    &&& marked_as(states, key, IdempotencyState::Completed) || marked_as(states, key, IdempotencyState::Failed)
        ==> audited
    &&& marked_as(states, key, IdempotencyState::Unknown) || marked_as(states, key, IdempotencyState::InProgress)
        ==> r == Err::<O, ToolGatewayError>(ToolGatewayError::Unknown)
    &&& r is Err ==> marked_as(states, key, IdempotencyState::Failed) || marked_as(states, key, IdempotencyState::Unknown)
        || marked_as(states, key, IdempotencyState::InProgress)
}

/// How an invocation that ran its provider is settled: the key's final
/// state matches the answer (`settled_marks`), and a stored audit is the
/// invocation's own, `completed` for a success and `failed` where the key
/// was marked `Failed`.
pub open spec fn settled_invocation<O>(
    states: Map<Seq<char>, IdempotencyState>,
    before: (Seq<AuditRecord>, Seq<Provenance>),
    after: (Seq<AuditRecord>, Seq<Provenance>),
    i: ToolGatewayInvocation,
    q: AuthorizationRequest,
    approval: Option<ApprovalRecord>,
    r: Result<O, ToolGatewayError>,
) -> bool {
    let key = operation_key_text(i);
    let completed = invocation_audited(before, after, i, q, approval, "completed"@, None);
    let failed = invocation_audited(before, after, i, q, approval, "failed"@, Some("provider_failed"@));
    &&& settled_marks(states, key, audit_recorded(before, after), r)
    &&& audit_recorded(before, after) ==> completed || failed
    &&& !audit_recorded(before, after) ==> after == before
    &&& r is Ok ==> completed
    &&& marked_as(states, key, IdempotencyState::Failed) ==> failed
}

// ----- the gateway -----

/// A tool provider, implemented by each deployment. Its identity must match
/// the implementation that the registry selected.
pub trait ToolGatewayProvider {
    type Output;

    /// The provider's stable identity: provider id, implementation id and
    /// implementation version. An implementation defines it, and is left
    /// unspecified where it does not.
    closed spec fn identity(&self) -> (Seq<char>, Seq<char>, Seq<char>) {
        arbitrary()
    }

    /// Stable provider identity.
    fn provider_id(&self) -> (r: &str)
        ensures
            r@ == self.identity().0,
    ;

    /// Stable implementation identity.
    fn implementation_id(&self) -> (r: &str)
        ensures
            r@ == self.identity().1,
    ;

    /// Implementation version, as bound by the registry contract.
    fn implementation_version(&self) -> (r: &str)
        ensures
            r@ == self.identity().2,
    ;

    /// How many times the provider has run; an implementation defines it,
    /// and is left unspecified where it does not.
    closed spec fn runs(&self) -> nat {
        arbitrary()
    }

    /// Runs the tool once; the provider's identity stays as it was.
    fn execute(
        &mut self,
        invocation: &ToolGatewayInvocation,
        tool: &ToolRegistryEntry,
        data_access: &ToolDataAccessGrant,
    ) -> (r: Result<Self::Output, ToolGatewayError>)
        ensures
            final(self).identity() == old(self).identity(),
            final(self).runs() == old(self).runs() + 1,
    ;
}

/// What an execution is performed under; the audit sink cannot be bypassed.
pub struct ToolGatewayExecutionContext<'a, A> {
    pub request: &'a AuthorizationRequest,
    pub authorization: &'a AuthorizationResult,
    pub action: Option<&'a Action>,
    pub approval: Option<&'a ApprovalRecord>,
    pub now_epoch_seconds: u64,
    pub audit: &'a mut A,
}

/// The checks between validation and the idempotency claim: the execution
/// gate for the action, a data class, and a bounded data-access grant.
pub open spec fn preflight(
    i: ToolGatewayInvocation,
    a: AuthorizationResult,
    action: Option<Action>,
    approval: Option<ApprovalRecord>,
) -> Result<(), ToolGatewayError> {
    match action {
        None => Err(ToolGatewayError::ExecutionGate(ExecutionGateError::AuthorizationRequired)),
        Some(act) => if act.action_id@ != i.action.id@ {
            Err(ToolGatewayError::ExecutionGate(ExecutionGateError::ApprovalMismatch))
        } else {
            match gate_outcome(act, Some(a), approval) {
                Err(e) => Err(ToolGatewayError::ExecutionGate(e)),
                Ok(()) => if i.data_class is None {
                    Err(ToolGatewayError::DataClassNotSupported)
                } else if i.authorization_ref.id@.len() == 0 || i.resource_ref.id@.len() == 0 || is_blank(
                    i.purpose@,
                ) || is_blank(i.requested_scope@) {
                    Err(ToolGatewayError::Authorization(AuthorizationValidationError::ConstraintViolation))
                } else {
                    Ok(())
                },
            }
        },
    }
}

/// Everything the gateway checks before it claims an operation key, in
/// order: the invocation's timestamp, its validation against the request,
/// authorization and registry, the provider's identity against the selected
/// implementation, then the execution gate and the data-access grant.
pub open spec fn pre_claim(
    registry: InMemoryToolRegistry,
    i: ToolGatewayInvocation,
    q: AuthorizationRequest,
    a: AuthorizationResult,
    now: u64,
    action: Option<Action>,
    approval: Option<ApprovalRecord>,
    identity: (Seq<char>, Seq<char>, Seq<char>),
) -> Result<(), ToolGatewayError> {
    if is_blank(i.occurred_at@) {
        Err(ToolGatewayError::Audit("invocation timestamp is required"))
    } else if gateway_validation(registry, i, q, a, now) is Err {
        Err(gateway_validation(registry, i, q, a, now)->Err_0)
    } else if identity != (i.provider_id@, i.implementation_id@, i.implementation_version@) {
        Err(ToolGatewayError::Registry(ToolRegistryError::UnsupportedVersion))
    } else {
        preflight(i, a, action, approval)
    }
}

pub struct ToolGateway<'a, I: IdempotencyLifecycleStore> {
    registry: &'a InMemoryToolRegistry,
    idempotency: &'a mut I,
}

impl<'a, I: IdempotencyLifecycleStore> ToolGateway<'a, I> {
    pub closed spec fn wf(&self) -> bool {
        self.registry.wf()
    }

    /// The registry that tools are resolved in.
    pub closed spec fn registry_state(&self) -> InMemoryToolRegistry {
        *self.registry
    }

    /// The idempotency store that operations are claimed in.
    pub closed spec fn idempotency_state(&self) -> I {
        *self.idempotency
    }

    pub fn new(registry: &'a InMemoryToolRegistry, idempotency: &'a mut I) -> (r: Self)
        requires
            registry.wf(),
        ensures
            r.wf(),
            r.registry_state() == *registry,
    {
        ToolGateway { registry, idempotency }
    }

    /// Side-effect-free validation of every authority and context check;
    /// nothing is claimed.
    pub fn validate(
        &self,
        invocation: &ToolGatewayInvocation,
        request: &AuthorizationRequest,
        authorization: &AuthorizationResult,
        now_epoch_seconds: u64,
    ) -> (r: Result<ToolGatewayPhase, ToolGatewayError>)
        requires
            self.wf(),
        ensures
            r == gateway_validation(self.registry_state(), *invocation, *request, *authorization, now_epoch_seconds),
            r is Ok ==> self.registry_state().resolution(invocation.tool_id@, invocation.tool_version) is Ok
                && registered_for(
                *invocation,
                self.registry_state().resolution(invocation.tool_id@, invocation.tool_version)->Ok_0,
            ),
            r is Ok && invocation.data_class is Some ==> self.registry_state().resolution(
                invocation.tool_id@,
                invocation.tool_version,
            )->Ok_0.data_classes@.contains(invocation.data_class->0),
    {
        proof {
            lemma_validation_registered(self.registry_state(), *invocation, *request, *authorization, now_epoch_seconds);
        }
        if str_is_blank(invocation.idempotency_ref.as_str()) {
            return Err(ToolGatewayError::MissingIdempotency);
        }
        if !invocation_context_matches_request(invocation, request) {
            return Err(ToolGatewayError::Authorization(AuthorizationValidationError::RequestResultMismatch));
        }
        match validate_authorization(request, authorization, now_epoch_seconds) {
            Ok(()) => {},
            Err(e) => return Err(ToolGatewayError::Authorization(e)),
        }
        let tool = match self.registry.resolve(invocation.tool_id.as_str(), &invocation.tool_version) {
            Ok(t) => t,
            Err(e) => return Err(ToolGatewayError::Registry(e)),
        };
        check_tool(invocation, tool, authorization, now_epoch_seconds)
    }

    /// Claims the operation key of a validated invocation.
    fn claim_validated(&mut self, operation_id: Id) -> (r: Result<ToolGatewayPhase, ToolGatewayError>)
        requires
            old(self).wf(),
        ensures
            final(self).wf(),
            final(self).registry_state() == old(self).registry_state(),
            exists|answer: Result<IdempotencyClaim, PersistenceError>| r == claim_outcome(answer),
            r is Ok ==> !old(self).idempotency_state().claimed_ids().contains(operation_id@)
                && final(self).idempotency_state().claimed_ids() == old(self).idempotency_state().claimed_ids().insert(
                operation_id@,
            ),
            old(self).idempotency_state().claimed_ids().contains(operation_id@) ==> r == Err::<
                ToolGatewayPhase,
                ToolGatewayError,
            >(ToolGatewayError::IdempotencyAlreadyClaimed) || r matches Err(ToolGatewayError::Idempotency(_)),
            !old(self).idempotency_state().claimed_ids().contains(operation_id@) ==> r is Ok || r matches Err(
                ToolGatewayError::Idempotency(_),
            ),
            final(self).idempotency_state().states() == old(self).idempotency_state().states(),
    {
        let answer = self.idempotency.claim(operation_id);
        claim_result(answer)
    }

    /// Audits the provider's outcome and marks the operation key with the
    /// matching final state; answers the outcome once both are stored. Where
    /// the audit or the mark fails, the key is marked `Unknown` and the
    /// answer is `Unknown`.
    fn finish_invocation<O, A: AuditProvenanceSink>(
        &mut self,
        audit: &mut A,
        invocation: &ToolGatewayInvocation,
        request: &AuthorizationRequest,
        approval: Option<&ApprovalRecord>,
        operation_id: &Id,
        outcome: Result<O, ToolGatewayError>,
    ) -> (r: Result<O, ToolGatewayError>)
        requires
            old(self).wf(),
            marked_as(old(self).idempotency_state().states(), operation_id@, IdempotencyState::InProgress),
        ensures
            final(self).wf(),
            final(self).registry_state() == old(self).registry_state(),
            final(self).idempotency_state().claimed_ids() == old(self).idempotency_state().claimed_ids(),
            r == settled_outcome(
                outcome,
                audit_recorded(old(audit).stored(), final(audit).stored()),
                marked_as(final(self).idempotency_state().states(), operation_id@, settled_mark(outcome)),
            ),
            !audit_recorded(old(audit).stored(), final(audit).stored()) ==> final(audit).stored() == old(
                audit,
            ).stored(),
            audit_recorded(old(audit).stored(), final(audit).stored()) ==> invocation.actor_ref is Some
                && invocation_audited(
                old(audit).stored(),
                final(audit).stored(),
                *invocation,
                *request,
                crate::action::deref_opt(approval),
                audit_outcome_text(outcome),
                audit_failure_text(outcome),
            ),
            marked_as(final(self).idempotency_state().states(), operation_id@, settled_mark(outcome))
                ==> audit_recorded(old(audit).stored(), final(audit).stored())
                && final(self).idempotency_state().states() == old(self).idempotency_state().states().insert(
                operation_id@,
                settled_mark(outcome),
            ),
            !marked_as(final(self).idempotency_state().states(), operation_id@, settled_mark(outcome))
                ==> final(self).idempotency_state().states() == old(self).idempotency_state().states().insert(
                operation_id@,
                IdempotencyState::Unknown,
            ) || final(self).idempotency_state().states() == old(self).idempotency_state().states(),
    {
        let succeeded = outcome.is_ok();
        let audited = if succeeded {
            record_invocation_audit(audit, invocation, request, approval, "completed", None)
        } else {
            record_invocation_audit(audit, invocation, request, approval, "failed", Some("provider_failed"))
        };
        let audit_ok = audited.is_ok();
        let marked_ok = if audit_ok {
            let marked = if succeeded {
                self.idempotency.mark_completed(operation_id)
            } else {
                self.idempotency.mark_failed(operation_id)
            };
            marked.is_ok()
        } else {
            false
        };
        if !(audit_ok && marked_ok) {
            let _ = self.idempotency.mark_unknown(operation_id);
        }
        settle_invocation(outcome, audit_ok, marked_ok)
    }

    /// Validates, passes the execution gate, claims the operation key, runs
    /// the provider, audits the outcome and records its state. A failure to
    /// audit or to record the state leaves the operation `Unknown`.
    ///
    /// Nothing is claimed, run or audited when a check before the claim
    /// fails; an operation key claimed before is refused without running the
    /// provider; after a fresh claim, either the store refused the claim or
    /// the in-progress mark and nothing else happened, or the provider ran
    /// exactly once and the invocation was settled (`settled_invocation`).
    #[verifier::rlimit(100)]
    pub fn execute<P: ToolGatewayProvider, A: AuditProvenanceSink>(
        &mut self,
        invocation: &ToolGatewayInvocation,
        context: ToolGatewayExecutionContext<'_, A>,
        provider: &mut P,
    ) -> (r: Result<P::Output, ToolGatewayError>)
        requires
            old(self).wf(),
        ensures
            final(self).wf(),
            final(self).registry_state() == old(self).registry_state(),
            final(provider).identity() == old(provider).identity(),
            final(provider).runs() != old(provider).runs() ==> old(self).registry_state().resolution(
                invocation.tool_id@,
                invocation.tool_version,
            ) is Ok && registered_for(
                *invocation,
                old(self).registry_state().resolution(invocation.tool_id@, invocation.tool_version)->Ok_0,
            ),
            pre_claim(
                old(self).registry_state(),
                *invocation,
                *context.request,
                *context.authorization,
                context.now_epoch_seconds,
                crate::action::deref_opt(context.action),
                crate::action::deref_opt(context.approval),
                old(provider).identity(),
            ) matches Err(e) ==> r == Err::<P::Output, ToolGatewayError>(e)
                && final(self).idempotency_state() == old(self).idempotency_state() && *final(provider) == *old(provider)
                && final(context.audit).stored() == old(context.audit).stored(),
            pre_claim(
                old(self).registry_state(),
                *invocation,
                *context.request,
                *context.authorization,
                context.now_epoch_seconds,
                crate::action::deref_opt(context.action),
                crate::action::deref_opt(context.approval),
                old(provider).identity(),
            ) is Ok && old(self).idempotency_state().claimed_ids().contains(operation_key_text(*invocation)) ==> (r
                == Err::<P::Output, ToolGatewayError>(ToolGatewayError::IdempotencyAlreadyClaimed) || r matches Err(
                ToolGatewayError::Idempotency(_),
            )) && final(self).idempotency_state().states() == old(self).idempotency_state().states()
                && *final(provider) == *old(provider) && final(context.audit).stored() == old(context.audit).stored(),
            pre_claim(
                old(self).registry_state(),
                *invocation,
                *context.request,
                *context.authorization,
                context.now_epoch_seconds,
                crate::action::deref_opt(context.action),
                crate::action::deref_opt(context.approval),
                old(provider).identity(),
            ) is Ok && !old(self).idempotency_state().claimed_ids().contains(operation_key_text(*invocation)) ==> (r matches Err(
                ToolGatewayError::Idempotency(_),
            ) && final(self).idempotency_state().states() == old(self).idempotency_state().states()
                && *final(provider) == *old(provider) && final(context.audit).stored() == old(context.audit).stored()) || (
            final(provider).runs() == old(provider).runs() + 1 && final(self).idempotency_state().claimed_ids() == old(
                self,
            ).idempotency_state().claimed_ids().insert(operation_key_text(*invocation)) && settled_invocation(
                final(self).idempotency_state().states(),
                old(context.audit).stored(),
                final(context.audit).stored(),
                *invocation,
                *context.request,
                crate::action::deref_opt(context.approval),
                r,
            )),
            r is Ok ==> pre_claim(
                old(self).registry_state(),
                *invocation,
                *context.request,
                *context.authorization,
                context.now_epoch_seconds,
                crate::action::deref_opt(context.action),
                crate::action::deref_opt(context.approval),
                old(provider).identity(),
            ) is Ok && invocation.actor_ref is Some && registered_for(
                *invocation,
                old(self).registry_state().resolution(invocation.tool_id@, invocation.tool_version)->Ok_0,
            ) && !old(self).idempotency_state().claimed_ids().contains(
                operation_key_text(*invocation),
            ) && final(self).idempotency_state().claimed_ids() == old(self).idempotency_state().claimed_ids().insert(
                operation_key_text(*invocation),
            ) && marked_as(final(self).idempotency_state().states(), operation_key_text(*invocation), IdempotencyState::Completed),
    {
        proof {
            lemma_validation_registered(
                self.registry_state(),
                *invocation,
                *context.request,
                *context.authorization,
                context.now_epoch_seconds,
            );
        }
        if str_is_blank(invocation.occurred_at.as_str()) {
            return Err(ToolGatewayError::Audit("invocation timestamp is required"));
        }
        match self.validate(invocation, context.request, context.authorization, context.now_epoch_seconds) {
            Ok(_) => {},
            Err(e) => return Err(e),
        }
        let tool = match self.registry.resolve(invocation.tool_id.as_str(), &invocation.tool_version) {
            Ok(t) => t,
            Err(e) => return Err(ToolGatewayError::Registry(e)),
        };
        match validate_provider_binding(
            invocation,
            provider.provider_id(),
            provider.implementation_id(),
            provider.implementation_version(),
        ) {
            Ok(()) => {},
            Err(e) => return Err(e),
        }
        match validate_execution_gate(invocation, context.authorization, context.action, context.approval) {
            Ok(()) => {},
            Err(e) => return Err(e),
        }
        let operation_id = match operation_key(invocation) {
            Ok(k) => k,
            Err(e) => return Err(e),
        };
        proof {
            reveal_strlit("tool-gateway:");
        }
        let data_class = match invocation.data_class {
            Some(c) => c,
            None => return Err(ToolGatewayError::DataClassNotSupported),
        };
        let data_access = match ToolDataAccessGrant::from_invocation(
            operation_id.clone(),
            invocation.authorization_ref.duplicate(),
            invocation.resource_ref.duplicate(),
            invocation.purpose.clone(),
            data_class,
            invocation.requested_scope.clone(),
        ) {
            Ok(g) => g,
            Err(_) => return Err(
                ToolGatewayError::Authorization(AuthorizationValidationError::ConstraintViolation),
            ),
        };
        match self.claim_validated(operation_id.clone()) {
            Ok(_) => {},
            Err(e) => return Err(e),
        }
        match self.idempotency.mark_in_progress(&operation_id) {
            Ok(()) => {},
            Err(e) => return Err(ToolGatewayError::Idempotency(e)),
        }
        let outcome = provider.execute(invocation, tool, &data_access);
        self.finish_invocation(context.audit, invocation, context.request, context.approval, &operation_id, outcome)
    }
}

/// The provider's identity names the implementation that the invocation names.
fn validate_provider_binding(i: &ToolGatewayInvocation, provider_id: &str, implementation_id: &str, implementation_version: &str) -> (r:
    Result<(), ToolGatewayError>)
    ensures
        r is Ok <==> (provider_id@ == i.provider_id@ && implementation_id@ == i.implementation_id@
            && implementation_version@ == i.implementation_version@),
        r is Err ==> r == Err::<(), ToolGatewayError>(ToolGatewayError::Registry(ToolRegistryError::UnsupportedVersion)),
{
    if !str_eq(provider_id, i.provider_id.as_str()) || !str_eq(implementation_id, i.implementation_id.as_str())
        || !str_eq(implementation_version, i.implementation_version.as_str()) {
        return Err(ToolGatewayError::Registry(ToolRegistryError::UnsupportedVersion));
    }
    Ok(())
}

/// Every consequential execution passes the canonical execution gate for its
/// action; a registry flag is no permission to bypass it.
fn validate_execution_gate(
    i: &ToolGatewayInvocation,
    a: &AuthorizationResult,
    action: Option<&Action>,
    approval: Option<&ApprovalRecord>,
) -> (r: Result<(), ToolGatewayError>)
    ensures
        r == match crate::action::deref_opt(action) {
            None => Err(ToolGatewayError::ExecutionGate(ExecutionGateError::AuthorizationRequired)),
            Some(act) => if act.action_id@ != i.action.id@ {
                Err(ToolGatewayError::ExecutionGate(ExecutionGateError::ApprovalMismatch))
            } else {
                match gate_outcome(act, Some(*a), crate::action::deref_opt(approval)) {
                    Err(e) => Err(ToolGatewayError::ExecutionGate(e)),
                    Ok(()) => Ok(()),
                }
            },
        },
{
    let action = match action {
        Some(x) => x,
        None => return Err(ToolGatewayError::ExecutionGate(ExecutionGateError::AuthorizationRequired)),
    };
    if !str_eq(action.action_id.as_str(), i.action.id.as_str()) {
        return Err(ToolGatewayError::ExecutionGate(ExecutionGateError::ApprovalMismatch));
    }
    match ExecutionGate::permit(action, ExecutionGateInput { authorization: Some(a), approval }) {
        Ok(()) => Ok(()),
        Err(e) => Err(ToolGatewayError::ExecutionGate(e)),
    }
}

} // verus!
