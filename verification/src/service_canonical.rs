//! Case commands authorized canonically: the service builds the exact
//! authorization request for the command, has it evaluated, and accepts only
//! a current result that answers that request and allows it.
use vstd::prelude::*;
use crate::authorization::{AuthorizationDecision, AuthorizationEvaluator, AuthorizationRequest, AuthorizationResult};
use crate::command::{AtomicCommandPlan, execute_authoritative_command};
use crate::persistence::{UnitOfWorkError, UnitOfWorkFactory};
use crate::resource::{Id, ResourceRef, ResourceRefView, ResourceType, opt_ref_view, opt_text_view};
use crate::service::{case_command_answer, execute_case_command, service_error};
use crate::text::{is_blank, str_eq, text_of};
pub use crate::service::{CaseCommand, CommandResult, ServiceError};

verus! {

/// The context required to authorize a protected case operation; no
/// authorization is inferred from the actor's identity alone.
#[derive(Debug, Clone, PartialEq, Eq)]
pub struct CommandContext {
    pub request_id: Id,
    pub authorization_ref: ResourceRef,
    pub actor_id: Id,
    pub operation_id: Id,
    pub correlation_id: Id,
    pub purpose: String,
    pub policy_refs: Vec<ResourceRef>,
    pub jurisdiction_ref: Option<ResourceRef>,
    pub data_class: Option<String>,
    pub requested_at_epoch_seconds: u64,
    pub freshness_seconds: Option<u64>,
    pub now_epoch_seconds: u64,
}

/// The case and the action that a command addresses: `case.create` or
/// `case.update`.
pub open spec fn canonical_target(command: CaseCommand) -> Result<(Seq<char>, Seq<char>), ServiceError> {
    match command {
        CaseCommand::Create { case } => if case.case_id@.len() == 0 {
            Err(ServiceError::InvalidInput)
        } else {
            Ok((case.case_id@, "case.create"@))
        },
        CaseCommand::Transition { case_id, .. } => if case_id@.len() == 0 {
            Err(ServiceError::InvalidInput)
        } else {
            Ok((case_id@, "case.update"@))
        },
    }
}

fn command_target(command: &CaseCommand) -> (r: Result<(Id, ResourceRef), ServiceError>)
    ensures
        match canonical_target(*command) {
            Err(e) => r == Err::<(Id, ResourceRef), ServiceError>(e),
            Ok((case_id, action)) => r is Ok && r->Ok_0.0@ == case_id && r->Ok_0.1@ == (ResourceRefView {
                resource_type: ResourceType::Action,
                id: action,
            }),
        },
{
    match command {
        CaseCommand::Create { case } => {
            if case.case_id.as_str().is_empty() {
                return Err(ServiceError::InvalidInput);
            }
            Ok((case.case_id.clone(), ResourceRef { resource_type: ResourceType::Action, id: text_of("case.create") }))
        },
        CaseCommand::Transition { case_id, .. } => {
            if case_id.as_str().is_empty() {
                return Err(ServiceError::InvalidInput);
            }
            Ok((case_id.clone(), ResourceRef { resource_type: ResourceType::Action, id: text_of("case.update") }))
        },
    }
}

/// The request that a command is authorized under.
pub open spec fn command_request(c: CommandContext, case_id: Seq<char>, action: Seq<char>, q: AuthorizationRequest) -> bool {
    &&& q.request_id == c.request_id
    &&& q.authorization_ref == c.authorization_ref
    &&& q.subject_ref@ == (ResourceRefView { resource_type: ResourceType::Party, id: c.actor_id@ })
    &&& q.action@ == (ResourceRefView { resource_type: ResourceType::Action, id: action })
    &&& q.resource_ref@ == (ResourceRefView { resource_type: ResourceType::Case, id: case_id })
    &&& q.purpose == c.purpose
    &&& q.policy_refs == c.policy_refs
    &&& q.jurisdiction_ref == c.jurisdiction_ref
    &&& q.data_class == c.data_class
    &&& q.requested_at_epoch_seconds == c.requested_at_epoch_seconds
    &&& q.freshness_seconds == c.freshness_seconds
}

/// Whether an evaluated result authorizes `request` at `now`: it answers this
/// exact request, was evaluated now, has not expired, and allows.
pub open spec fn authorization_outcome(result: AuthorizationResult, request: AuthorizationRequest, now: u64) -> Result<
    (),
    ServiceError,
> {
    if result.request_id@ != request.request_id@ || result.authorization_ref@ != request.authorization_ref@
        || result.subject_ref@ != request.subject_ref@ || result.action@ != request.action@ || result.resource_ref@
        != request.resource_ref@ || result.purpose@ != request.purpose@ || opt_ref_view(result.jurisdiction_ref)
        != opt_ref_view(request.jurisdiction_ref) || opt_text_view(result.data_class) != opt_text_view(
        request.data_class,
    ) {
        Err(ServiceError::AuthorizationMismatch)
    } else if result.evaluated_at_epoch_seconds != now {
        Err(ServiceError::AuthorizationMismatch)
    } else if result.expires_at_epoch_seconds is Some && now > result.expires_at_epoch_seconds->0 {
        Err(ServiceError::AuthorizationExpired)
    } else if result.decision != AuthorizationDecision::Allow {
        Err(ServiceError::AuthorizationDenied)
    } else {
        Ok(())
    }
}

/// Accepts `result` for `request` at `now`, or says why not.
pub fn authorize(result: &AuthorizationResult, request: &AuthorizationRequest, now_epoch_seconds: u64) -> (r: Result<
    (),
    ServiceError,
>)
    ensures
        r == authorization_outcome(*result, *request, now_epoch_seconds),
{
    if !str_eq(result.request_id.as_str(), request.request_id.as_str()) || !result.authorization_ref.same(
        &request.authorization_ref,
    ) || !result.subject_ref.same(&request.subject_ref) || !result.action.same(&request.action)
        || !result.resource_ref.same(&request.resource_ref) || !str_eq(result.purpose.as_str(), request.purpose.as_str())
        || !crate::resource::opt_ref_eq(&result.jurisdiction_ref, &request.jurisdiction_ref)
        || !crate::resource::opt_text_eq(&result.data_class, &request.data_class) {
        return Err(ServiceError::AuthorizationMismatch);
    }
    if result.evaluated_at_epoch_seconds != now_epoch_seconds {
        return Err(ServiceError::AuthorizationMismatch);
    }
    match result.expires_at_epoch_seconds {
        Some(e) => {
            if now_epoch_seconds > e {
                return Err(ServiceError::AuthorizationExpired);
            }
        },
        None => {},
    }
    match result.decision {
        AuthorizationDecision::Allow => Ok(()),
        _ => Err(ServiceError::AuthorizationDenied),
    }
}

/// A request made at `requested_at` is still fresh at `now`: it is not from
/// the future and, with a freshness window, not older than the window.
pub open spec fn fresh(requested_at: u64, freshness: Option<u64>, now: u64) -> bool {
    requested_at <= now && match freshness {
        Some(f) => now - requested_at <= f,
        None => true,
    }
}

fn request_is_fresh(requested_at: u64, freshness: Option<u64>, now: u64) -> (b: bool)
    ensures
        b == fresh(requested_at, freshness, now),
{
    if requested_at > now {
        return false;
    }
    match freshness {
        Some(f) => now - requested_at <= f,
        None => true,
    }
}

pub struct CaseService<'a, F, E> {
    factory: &'a mut F,
    evaluator: &'a E,
}

impl<'a, F: UnitOfWorkFactory, E: AuthorizationEvaluator> CaseService<'a, F, E> {
    /// The storage that commands are executed in.
    pub closed spec fn factory_state(&self) -> F {
        *self.factory
    }

    pub fn new(factory: &'a mut F, evaluator: &'a E) -> (r: Self)
        ensures
            r.factory_state() == *old(factory),
    {
        CaseService { factory, evaluator }
    }

    /// Builds the command's authorization request, has it evaluated, accepts
    /// only a result that authorizes it now, then runs the command with its
    /// idempotency marker in one unit of work. Nothing is written when the
    /// command or its authorization is refused.
    pub fn execute(&mut self, context: CommandContext, command: CaseCommand) -> (r: Result<CommandResult, ServiceError>)
        ensures
            canonical_target(command) is Err ==> r == Err::<CommandResult, ServiceError>(ServiceError::InvalidInput)
                && final(self).factory_state() == old(self).factory_state(),
            canonical_target(command) is Ok && context.actor_id@.len() == 0 ==> r == Err::<CommandResult, ServiceError>(
                ServiceError::InvalidInput,
            ) && final(self).factory_state() == old(self).factory_state(),
            canonical_target(command) is Ok && context.actor_id@.len() > 0 && !fresh(
                context.requested_at_epoch_seconds,
                context.freshness_seconds,
                context.now_epoch_seconds,
            ) ==> r == Err::<CommandResult, ServiceError>(ServiceError::AuthorizationDenied)
                && final(self).factory_state() == old(self).factory_state(),
            r is Ok ==> canonical_target(command) is Ok && context.actor_id@.len() > 0 && fresh(
                context.requested_at_epoch_seconds,
                context.freshness_seconds,
                context.now_epoch_seconds,
            ) && !is_blank(context.operation_id@) && case_command_answer(context.operation_id@, command, r->Ok_0),
    {
        let (case_id, action) = match command_target(&command) {
            Ok(pair) => pair,
            Err(e) => return Err(e),
        };
        if context.actor_id.as_str().is_empty() {
            return Err(ServiceError::InvalidInput);
        }
        if !request_is_fresh(context.requested_at_epoch_seconds, context.freshness_seconds, context.now_epoch_seconds) {
            return Err(ServiceError::AuthorizationDenied);
        }
        let subject_ref = ResourceRef { resource_type: ResourceType::Party, id: context.actor_id.clone() };
        let resource_ref = ResourceRef { resource_type: ResourceType::Case, id: case_id };
        let request = AuthorizationRequest {
            request_id: context.request_id,
            authorization_ref: context.authorization_ref,
            subject_ref,
            action,
            resource_ref,
            purpose: context.purpose,
            policy_refs: context.policy_refs,
            jurisdiction_ref: context.jurisdiction_ref,
            data_class: context.data_class,
            requested_at_epoch_seconds: context.requested_at_epoch_seconds,
            freshness_seconds: context.freshness_seconds,
        };
        let result = self.evaluator.evaluate(&request);
        match authorize(&result, &request, context.now_epoch_seconds) {
            Ok(()) => {},
            Err(e) => return Err(e),
        }
        let mut plan = match AtomicCommandPlan::new(context.operation_id.clone()) {
            Ok(p) => p,
            Err(_) => return Err(ServiceError::InvalidInput),
        };
        match plan.claim_operation() {
            Ok(()) => {},
            Err(_) => return Err(ServiceError::InvalidInput),
        }
        let actor_id = context.actor_id;
        let correlation_id = context.correlation_id;
        let operation_id = context.operation_id;
        let ghost operation = operation_id@;
        let ghost addressed = command;
        let build = move |uow: &mut <F::Uow as crate::persistence::UnitOfWork>::Context, plan: &AtomicCommandPlan| -> (o:
            Result<CommandResult, UnitOfWorkError>)
            ensures
                o is Ok ==> case_command_answer(operation, addressed, o->Ok_0),
        { execute_case_command(uow, plan, actor_id, correlation_id, operation_id, command) };
        match execute_authoritative_command(self.factory, plan, build) {
            Ok(result) => {
                proof {
                    let c = choose|c: &mut <F::Uow as crate::persistence::UnitOfWork>::Context| #[trigger]
                        build.ensures((c, &plan), Ok::<CommandResult, UnitOfWorkError>(result));
                    assert(build.ensures((c, &plan), Ok::<CommandResult, UnitOfWorkError>(result)));
                }
                Ok(result)
            },
            Err(e) => Err(service_error(e)),
        }
    }
}

} // verus!
