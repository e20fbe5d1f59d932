//! The observation service: creating an observation under an evaluated
//! authorization for `observation.create`, written atomically with its
//! event, audit record, provenance and idempotency marker.
use vstd::prelude::*;
use crate::authorization::AuthorizationResult;
use crate::command::{AtomicCommandPlan, AuthoritativeCommandError, execute_authoritative_command};
use crate::observation::{
    Observation, ObservationAuthorizationFault, check_observation_authorization, observation_authorization,
    observation_change_writes,
};
use crate::observation_command::{created_answer, persist_observation};
use crate::persistence::{PersistenceError, UnitOfWork, UnitOfWorkContext, UnitOfWorkError, UnitOfWorkFactory};
use crate::resource::{Id, ResourceRef};
use crate::text::is_blank;
pub use crate::observation_command::{ObservationCommandContext, ObservationCommandResult};

verus! {

#[derive(Debug, PartialEq, Eq)]
pub enum ObservationServiceError {
    AuthorizationDenied,
    AuthorizationMismatch,
    AuthorizationExpired,
    Conflict,
    Duplicate,
    InvalidInput,
    Persistence(PersistenceError),
    /// The command failed and undoing it failed too.
    RollbackFailure { operation: Box<ObservationServiceError>, rollback: PersistenceError },
    SerializationFailure,
}

impl From<PersistenceError> for ObservationServiceError {
    fn from(error: PersistenceError) -> (r: Self) {
        ObservationServiceError::Persistence(error)
    }
}

impl vstd::std_specs::convert::FromSpecImpl<PersistenceError> for ObservationServiceError {
    open spec fn obeys_from_spec() -> bool {
        true
    }

    open spec fn from_spec(v: PersistenceError) -> Self {
        ObservationServiceError::Persistence(v)
    }
}

pub open spec fn service_error_of(e: AuthoritativeCommandError) -> ObservationServiceError
    decreases e,
{
    match e {
        AuthoritativeCommandError::Persistence(p) => match p {
            PersistenceError::Conflict => ObservationServiceError::Conflict,
            PersistenceError::Duplicate => ObservationServiceError::Duplicate,
            PersistenceError::IdempotencyAlreadyClaimed => ObservationServiceError::Duplicate,
            other => ObservationServiceError::Persistence(other),
        },
        AuthoritativeCommandError::InvalidOperation => ObservationServiceError::InvalidInput,
        AuthoritativeCommandError::RollbackFailure { operation, rollback } => ObservationServiceError::RollbackFailure {
            operation: Box::new(service_error_of(*operation)),
            rollback,
        },
    }
}

pub fn service_error(e: AuthoritativeCommandError) -> (r: ObservationServiceError)
    ensures
        r == service_error_of(e),
    decreases e,
{
    match e {
        AuthoritativeCommandError::Persistence(p) => match p {
            PersistenceError::Conflict => ObservationServiceError::Conflict,
            PersistenceError::Duplicate => ObservationServiceError::Duplicate,
            PersistenceError::IdempotencyAlreadyClaimed => ObservationServiceError::Duplicate,
            other => ObservationServiceError::Persistence(other),
        },
        AuthoritativeCommandError::InvalidOperation => ObservationServiceError::InvalidInput,
        AuthoritativeCommandError::RollbackFailure { operation, rollback } => {
            let inner = service_error(*operation);
            ObservationServiceError::RollbackFailure { operation: Box::new(inner), rollback }
        },
    }
}

impl From<AuthoritativeCommandError> for ObservationServiceError {
    fn from(error: AuthoritativeCommandError) -> (r: Self) {
        service_error(error)
    }
}

impl vstd::std_specs::convert::FromSpecImpl<AuthoritativeCommandError> for ObservationServiceError {
    open spec fn obeys_from_spec() -> bool {
        true
    }

    open spec fn from_spec(v: AuthoritativeCommandError) -> Self {
        service_error_of(v)
    }
}

pub open spec fn fault_error(f: ObservationAuthorizationFault) -> ObservationServiceError {
    match f {
        ObservationAuthorizationFault::InvalidInput => ObservationServiceError::InvalidInput,
        ObservationAuthorizationFault::Denied => ObservationServiceError::AuthorizationDenied,
        ObservationAuthorizationFault::Mismatch => ObservationServiceError::AuthorizationMismatch,
        ObservationAuthorizationFault::Expired => ObservationServiceError::AuthorizationExpired,
    }
}

/// The checks before anything is written: the authorization for
/// `observation.create`, then the observation itself.
pub open spec fn service_gate(c: ObservationCommandContext, o: Observation) -> Result<(), ObservationServiceError> {
    match observation_authorization(
        c.actor_ref,
        c.operation_id@,
        c.correlation_id@,
        c.now_epoch_seconds,
        c.authorization,
        "observation.create"@,
        o,
        false,
    ) {
        Err(f) => Err(fault_error(f)),
        Ok(()) => if o.validity() is Err {
            Err(ObservationServiceError::InvalidInput)
        } else if is_blank(c.operation_id@) {
            Err(ObservationServiceError::InvalidInput)
        } else {
            Ok(())
        },
    }
}

/// Writes a new observation and the records of its creation.
fn execute_create_observation<C: UnitOfWorkContext>(
    uow: &mut C,
    plan: &AtomicCommandPlan,
    actor_ref: ResourceRef,
    correlation_id: Id,
    operation_id: Id,
    authorization: AuthorizationResult,
    observation: Observation,
) -> (r: Result<ObservationCommandResult, UnitOfWorkError>)
    ensures
        r is Ok ==> created_answer(operation_id@, observation.observation_id, r->Ok_0),
        r is Ok ==> final(uow).linked() == old(uow).linked() && observation_change_writes(
            old(uow).written(),
            final(uow).written(),
            observation,
            r->Ok_0.event_id@,
            "observation.created"@,
            actor_ref,
            correlation_id@,
            operation_id@,
            authorization.authorization_ref,
            None,
        ),
        observation.observation_id@.len() == 0 || observation.schema_version == 0 || observation.schema_version > 65535
            ==> r == Err::<ObservationCommandResult, UnitOfWorkError>(UnitOfWorkError::InvalidOperation)
            && *final(uow) == *old(uow),
{
    persist_observation(uow, plan, actor_ref, correlation_id, operation_id, authorization, observation)
}

pub struct ObservationService<'a, F> {
    factory: &'a mut F,
}

impl<'a, F: UnitOfWorkFactory> ObservationService<'a, F> {
    pub closed spec fn factory_state(&self) -> F {
        *self.factory
    }

    pub fn new(factory: &'a mut F) -> (r: Self)
        ensures
            r.factory_state() == *old(factory),
    {
        ObservationService { factory }
    }

    /// Creates an observation under its authorization; nothing is written
    /// when the authorization or the observation is refused.
    pub fn create(&mut self, context: ObservationCommandContext, observation: Observation) -> (r: Result<
        ObservationCommandResult,
        ObservationServiceError,
    >)
        ensures
            service_gate(context, observation) is Err ==> r == Err::<ObservationCommandResult, ObservationServiceError>(
                service_gate(context, observation)->Err_0,
            ) && final(self).factory_state() == old(self).factory_state(),
            r is Ok ==> service_gate(context, observation) is Ok && created_answer(
                context.operation_id@,
                observation.observation_id,
                r->Ok_0,
            ),
    {
        match check_observation_authorization(
            &context.actor_ref,
            &context.operation_id,
            &context.correlation_id,
            context.now_epoch_seconds,
            &context.authorization,
            "observation.create",
            &observation,
            false,
        ) {
            Ok(()) => {},
            Err(f) => return Err(
                match f {
                    ObservationAuthorizationFault::InvalidInput => ObservationServiceError::InvalidInput,
                    ObservationAuthorizationFault::Denied => ObservationServiceError::AuthorizationDenied,
                    ObservationAuthorizationFault::Mismatch => ObservationServiceError::AuthorizationMismatch,
                    ObservationAuthorizationFault::Expired => ObservationServiceError::AuthorizationExpired,
                },
            ),
        }
        match observation.validate() {
            Ok(()) => {},
            Err(_) => return Err(ObservationServiceError::InvalidInput),
        }
        let mut plan = match AtomicCommandPlan::new(context.operation_id.clone()) {
            Ok(p) => p,
            Err(_) => return Err(ObservationServiceError::InvalidInput),
        };
        match plan.claim_operation() {
            Ok(()) => {},
            Err(_) => return Err(ObservationServiceError::InvalidInput),
        }
        let actor_ref = context.actor_ref;
        let correlation_id = context.correlation_id;
        let operation_id = context.operation_id;
        let authorization = context.authorization;
        let ghost operation = operation_id@;
        let ghost created = observation.observation_id;
        let build = move |uow: &mut <F::Uow as UnitOfWork>::Context, plan: &AtomicCommandPlan| -> (o: Result<
            ObservationCommandResult,
            UnitOfWorkError,
        >)
            ensures
                o is Ok ==> created_answer(operation, created, o->Ok_0),
        { execute_create_observation(uow, plan, actor_ref, correlation_id, operation_id, authorization, observation) };
        match execute_authoritative_command(self.factory, plan, build) {
            Ok(result) => {
                proof {
                    let c = choose|c: &mut <F::Uow as UnitOfWork>::Context| #[trigger]
                        build.ensures((c, &plan), Ok::<ObservationCommandResult, UnitOfWorkError>(result));
                    assert(build.ensures((c, &plan), Ok::<ObservationCommandResult, UnitOfWorkError>(result)));
                }
                Ok(result)
            },
            Err(e) => Err(service_error(e)),
        }
    }
}

} // verus!
