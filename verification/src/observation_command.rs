//! Creating an observation under an evaluated authorization: the
//! observation, its event, audit record, provenance and idempotency marker
//! are written in one unit of work.
use vstd::prelude::*;
use crate::authorization::AuthorizationResult;
use crate::command::{AtomicCommandPlan, AuthoritativeCommandError, execute_authoritative_command};
use crate::observation::{
    Observation, ObservationAuthorizationFault, PriorLink, RecordContext, change_context, check_observation_authorization,
    observation_authorization, observation_change_writes, observation_insert, observation_record_writes,
    observation_records, observation_write,
};
use crate::persistence::{PersistenceError, Revision, UnitOfWork, UnitOfWorkContext, UnitOfWorkError, UnitOfWorkFactory};
use crate::resource::{Id, ResourceRef, ResourceType};
use crate::text::{concat, is_blank, text_of};

verus! {

#[derive(Debug, PartialEq, Eq)]
pub enum ObservationCommandError {
    AuthorizationDenied,
    AuthorizationMismatch,
    AuthorizationExpired,
    Conflict,
    Duplicate,
    InvalidInput,
    Persistence(PersistenceError),
    /// The command failed and undoing it failed too.
    RollbackFailure { operation: Box<ObservationCommandError>, rollback: PersistenceError },
}

pub open spec fn command_error_of(e: AuthoritativeCommandError) -> ObservationCommandError
    decreases e,
{
    match e {
        AuthoritativeCommandError::Persistence(p) => match p {
            PersistenceError::Conflict => ObservationCommandError::Conflict,
            PersistenceError::Duplicate => ObservationCommandError::Duplicate,
            PersistenceError::IdempotencyAlreadyClaimed => ObservationCommandError::Duplicate,
            other => ObservationCommandError::Persistence(other),
        },
        AuthoritativeCommandError::InvalidOperation => ObservationCommandError::InvalidInput,
        AuthoritativeCommandError::RollbackFailure { operation, rollback } => ObservationCommandError::RollbackFailure {
            operation: Box::new(command_error_of(*operation)),
            rollback,
        },
    }
}

pub fn command_error(e: AuthoritativeCommandError) -> (r: ObservationCommandError)
    ensures
        r == command_error_of(e),
    decreases e,
{
    match e {
        AuthoritativeCommandError::Persistence(p) => match p {
            PersistenceError::Conflict => ObservationCommandError::Conflict,
            PersistenceError::Duplicate => ObservationCommandError::Duplicate,
            PersistenceError::IdempotencyAlreadyClaimed => ObservationCommandError::Duplicate,
            other => ObservationCommandError::Persistence(other),
        },
        AuthoritativeCommandError::InvalidOperation => ObservationCommandError::InvalidInput,
        AuthoritativeCommandError::RollbackFailure { operation, rollback } => {
            let inner = command_error(*operation);
            ObservationCommandError::RollbackFailure { operation: Box::new(inner), rollback }
        },
    }
}

impl From<AuthoritativeCommandError> for ObservationCommandError {
    fn from(error: AuthoritativeCommandError) -> (r: Self) {
        command_error(error)
    }
}

impl vstd::std_specs::convert::FromSpecImpl<AuthoritativeCommandError> for ObservationCommandError {
    open spec fn obeys_from_spec() -> bool {
        true
    }

    open spec fn from_spec(v: AuthoritativeCommandError) -> Self {
        command_error_of(v)
    }
}

pub open spec fn fault_error(f: ObservationAuthorizationFault) -> ObservationCommandError {
    match f {
        ObservationAuthorizationFault::InvalidInput => ObservationCommandError::InvalidInput,
        ObservationAuthorizationFault::Denied => ObservationCommandError::AuthorizationDenied,
        ObservationAuthorizationFault::Mismatch => ObservationCommandError::AuthorizationMismatch,
        ObservationAuthorizationFault::Expired => ObservationCommandError::AuthorizationExpired,
    }
}

#[derive(Debug, Clone, PartialEq, Eq)]
pub struct ObservationCommandContext {
    pub actor_ref: ResourceRef,
    pub operation_id: Id,
    pub correlation_id: Id,
    pub now_epoch_seconds: u64,
    pub authorization: AuthorizationResult,
}

#[derive(Debug, Clone, PartialEq, Eq)]
pub struct ObservationCommandResult {
    pub observation_id: Id,
    pub revision: Revision,
    pub event_id: Id,
}

/// The checks before anything is written: the authorization for
/// `observation.create`, data class included, then the observation itself.
pub open spec fn create_gate(c: ObservationCommandContext, o: Observation) -> Result<(), ObservationCommandError> {
    match observation_authorization(
        c.actor_ref,
        c.operation_id@,
        c.correlation_id@,
        c.now_epoch_seconds,
        c.authorization,
        "observation.create"@,
        o,
        true,
    ) {
        Err(f) => Err(fault_error(f)),
        Ok(()) => if o.validity() is Err {
            Err(ObservationCommandError::InvalidInput)
        } else if is_blank(c.operation_id@) {
            Err(ObservationCommandError::InvalidInput)
        } else {
            Ok(())
        },
    }
}

/// What a successful creation answers: the new observation's id, the
/// initial revision and the creation event of this operation.
pub open spec fn created_answer(operation_id: Seq<char>, observation_id: Id, result: ObservationCommandResult) -> bool {
    &&& result.observation_id == observation_id
    &&& result.revision.value == 0
    &&& result.event_id@ == "observation-event-"@ + operation_id
}

/// Writes a new observation and the records of its creation.
pub(crate) fn persist_observation<C: UnitOfWorkContext>(
    uow: &mut C,
    plan: &AtomicCommandPlan,
    actor_ref: ResourceRef,
    correlation_id: Id,
    operation_id: Id,
    authorization: AuthorizationResult,
    observation: Observation,
) -> (r: Result<ObservationCommandResult, UnitOfWorkError>)
    ensures
        r is Ok ==> created_answer(operation_id@, observation.observation_id, r->Ok_0),
        r is Ok ==> final(uow).linked() == old(uow).linked() && observation_change_writes(
            old(uow).written(),
            final(uow).written(),
            observation,
            r->Ok_0.event_id@,
            "observation.created"@,
            actor_ref,
            correlation_id@,
            operation_id@,
            authorization.authorization_ref,
            None,
        ),
        observation.observation_id@.len() == 0 || observation.schema_version == 0 || observation.schema_version > 65535
            ==> r == Err::<ObservationCommandResult, UnitOfWorkError>(UnitOfWorkError::InvalidOperation)
            && *final(uow) == *old(uow),
{
    let ghost o = observation;
    let ghost (actor0, correlation0, operation0, authorization0) = (actor_ref, correlation_id@, operation_id@, authorization.authorization_ref);
    let observation_id = observation.observation_id.clone();
    let (write, rest) = match observation_write(observation) {
        Ok(pair) => pair,
        Err(e) => return Err(e),
    };
    let ghost w0 = write;
    match uow.write_resource(write) {
        Ok(()) => {},
        Err(e) => return Err(e),
    }
    let ghost done = uow.written();
    let event_id = concat("observation-event-", operation_id.as_str());
    let context = RecordContext {
        event_id: event_id.clone(),
        event_type: text_of("observation.created"),
        observation_ref: ResourceRef { resource_type: ResourceType::Observation, id: observation_id.clone() },
        recorded_at: rest.recorded_at,
        actor_ref,
        source_refs: rest.source_refs,
        correlation_id,
        operation_id,
        authorization_ref: authorization.authorization_ref,
        prior: None,
    };
    let mut writes = observation_record_writes(&context);
    let ghost ws0 = writes@;
    while writes.len() > 0
        invariant
            !(observation.observation_id@.len() == 0 || observation.schema_version == 0 || observation.schema_version > 65535),
            writes@.len() <= ws0.len(),
            writes@ == ws0.subrange(ws0.len() - writes@.len(), ws0.len() as int),
            uow.written() == done + ws0.subrange(0, ws0.len() - writes@.len()),
            uow.linked() == old(uow).linked(),
        decreases writes@.len(),
    {
        let ghost before = writes@;
        let w = writes.remove(0);
        proof {
            assert(w == ws0[ws0.len() - before.len()]);
            assert(writes@ =~= ws0.subrange(ws0.len() - writes@.len(), ws0.len() as int));
        }
        match uow.write_resource(w) {
            Ok(()) => {},
            Err(e) => return Err(e),
        }
        proof {
            assert(ws0.subrange(0, ws0.len() - writes@.len()) =~= ws0.subrange(0, ws0.len() - before.len()).push(w));
            assert(uow.written() =~= done + ws0.subrange(0, ws0.len() - writes@.len()));
        }
    }
    let r = ObservationCommandResult { observation_id, revision: Revision::initial(), event_id };
    proof {
        assert(ws0.subrange(0, ws0.len() as int) =~= ws0);
        assert(observation_insert(w0, o));
        assert(observation_records(ws0, context));
        assert(change_context(
            context,
            o,
            r.event_id@,
            "observation.created"@,
            actor0,
            correlation0,
            operation0,
            authorization0,
            None,
        ));
        assert(uow.written() == old(uow).written().push(w0) + ws0);
        assert(observation_change_writes(
            old(uow).written(),
            uow.written(),
            o,
            r.event_id@,
            "observation.created"@,
            actor0,
            correlation0,
            operation0,
            authorization0,
            None,
        ));
    }
    Ok(r)
}

pub struct ObservationCommand<'a, F> {
    factory: &'a mut F,
}

impl<'a, F: UnitOfWorkFactory> ObservationCommand<'a, F> {
    pub closed spec fn factory_state(&self) -> F {
        *self.factory
    }

    pub fn new(factory: &'a mut F) -> (r: Self)
        ensures
            r.factory_state() == *old(factory),
    {
        ObservationCommand { factory }
    }

    /// Creates an observation under its authorization; nothing is written
    /// when the authorization or the observation is refused.
    pub fn create(&mut self, context: ObservationCommandContext, observation: Observation) -> (r: Result<
        ObservationCommandResult,
        ObservationCommandError,
    >)
        ensures
            create_gate(context, observation) is Err ==> r == Err::<ObservationCommandResult, ObservationCommandError>(
                create_gate(context, observation)->Err_0,
            ) && final(self).factory_state() == old(self).factory_state(),
            r is Ok ==> create_gate(context, observation) is Ok && created_answer(
                context.operation_id@,
                observation.observation_id,
                r->Ok_0,
            ),
    {
        match check_observation_authorization(
            &context.actor_ref,
            &context.operation_id,
            &context.correlation_id,
            context.now_epoch_seconds,
            &context.authorization,
            "observation.create",
            &observation,
            true,
        ) {
            Ok(()) => {},
            Err(f) => return Err(
                match f {
                    ObservationAuthorizationFault::InvalidInput => ObservationCommandError::InvalidInput,
                    ObservationAuthorizationFault::Denied => ObservationCommandError::AuthorizationDenied,
                    ObservationAuthorizationFault::Mismatch => ObservationCommandError::AuthorizationMismatch,
                    ObservationAuthorizationFault::Expired => ObservationCommandError::AuthorizationExpired,
                },
            ),
        }
        match observation.validate() {
            Ok(()) => {},
            Err(_) => return Err(ObservationCommandError::InvalidInput),
        }
        let mut plan = match AtomicCommandPlan::new(context.operation_id.clone()) {
            Ok(p) => p,
            Err(_) => return Err(ObservationCommandError::InvalidInput),
        };
        match plan.claim_operation() {
            Ok(()) => {},
            Err(_) => return Err(ObservationCommandError::InvalidInput),
        }
        let actor_ref = context.actor_ref;
        let correlation_id = context.correlation_id;
        let operation_id = context.operation_id;
        let authorization = context.authorization;
        let ghost operation = operation_id@;
        let ghost created = observation.observation_id;
        let build = move |uow: &mut <F::Uow as UnitOfWork>::Context, plan: &AtomicCommandPlan| -> (o: Result<
            ObservationCommandResult,
            UnitOfWorkError,
        >)
            ensures
                o is Ok ==> created_answer(operation, created, o->Ok_0),
        { persist_observation(uow, plan, actor_ref, correlation_id, operation_id, authorization, observation) };
        match execute_authoritative_command(self.factory, plan, build) {
            Ok(result) => {
                proof {
                    let c = choose|c: &mut <F::Uow as UnitOfWork>::Context| #[trigger]
                        build.ensures((c, &plan), Ok::<ObservationCommandResult, UnitOfWorkError>(result));
                    assert(build.ensures((c, &plan), Ok::<ObservationCommandResult, UnitOfWorkError>(result)));
                }
                Ok(result)
            },
            Err(e) => Err(command_error(e)),
        }
    }
}

} // verus!
