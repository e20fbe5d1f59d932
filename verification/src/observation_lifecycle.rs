//! Correcting, superseding or contradicting an observation: a new
//! observation is written with a strong link to the prior one, its event,
//! audit record, provenance and idempotency marker, in one unit of work.
use vstd::prelude::*;
use crate::authorization::AuthorizationResult;
use crate::command::{AtomicCommandPlan, AuthoritativeCommandError, execute_authoritative_command};
use crate::observation::{
    Observation, ObservationAuthorizationFault, PriorLink, RecordContext, change_context, check_observation_authorization,
    observation_authorization, observation_change_writes, observation_insert, observation_record_writes,
    observation_records, observation_write,
};
use crate::persistence::{
    PersistenceError, ResourceLink, ResourceRecord, ResourceLinkClass, Revision, UnitOfWork, UnitOfWorkContext, UnitOfWorkError,
    UnitOfWorkFactory,
};
use crate::resource::{Id, ResourceRef, ResourceRefView, ResourceType};
use crate::text::{concat, is_blank, str_eq, str_is_blank, text_of};

verus! {

#[derive(Debug, Clone, Copy, PartialEq, Eq, Structural)]
pub enum ObservationLifecycleOperation {
    Correct,
    Supersede,
    Contradict,
}

pub open spec fn action_of(op: ObservationLifecycleOperation) -> &'static str {
    match op {
        ObservationLifecycleOperation::Correct => "observation.correct",
        ObservationLifecycleOperation::Supersede => "observation.supersede",
        ObservationLifecycleOperation::Contradict => "observation.contradict",
    }
}

pub open spec fn relation_of(op: ObservationLifecycleOperation) -> &'static str {
    match op {
        ObservationLifecycleOperation::Correct => "corrects",
        ObservationLifecycleOperation::Supersede => "supersedes",
        ObservationLifecycleOperation::Contradict => "contradicts",
    }
}

pub open spec fn event_type_of(op: ObservationLifecycleOperation) -> &'static str {
    match op {
        ObservationLifecycleOperation::Correct => "observation.corrected",
        ObservationLifecycleOperation::Supersede => "observation.superseded",
        ObservationLifecycleOperation::Contradict => "observation.contradicted",
    }
}

impl ObservationLifecycleOperation {
    pub fn action_id(self) -> (r: &'static str)
        ensures
            r == action_of(self),
    {
        match self {
            ObservationLifecycleOperation::Correct => "observation.correct",
            ObservationLifecycleOperation::Supersede => "observation.supersede",
            ObservationLifecycleOperation::Contradict => "observation.contradict",
        }
    }

    pub fn relation(self) -> (r: &'static str)
        ensures
            r == relation_of(self),
    {
        match self {
            ObservationLifecycleOperation::Correct => "corrects",
            ObservationLifecycleOperation::Supersede => "supersedes",
            ObservationLifecycleOperation::Contradict => "contradicts",
        }
    }

    pub fn event_type(self) -> (r: &'static str)
        ensures
            r == event_type_of(self),
    {
        match self {
            ObservationLifecycleOperation::Correct => "observation.corrected",
            ObservationLifecycleOperation::Supersede => "observation.superseded",
            ObservationLifecycleOperation::Contradict => "observation.contradicted",
        }
    }
}

#[derive(Debug, PartialEq, Eq)]
pub enum ObservationLifecycleError {
    AuthorizationDenied,
    AuthorizationMismatch,
    AuthorizationExpired,
    PriorObservationNotFound,
    SameObservation,
    InvalidInput,
    Conflict,
    Duplicate,
    Persistence(PersistenceError),
    /// The command failed and undoing it failed too.
    RollbackFailure { operation: Box<ObservationLifecycleError>, rollback: PersistenceError },
}

pub open spec fn lifecycle_error_of(e: AuthoritativeCommandError) -> ObservationLifecycleError
    decreases e,
{
    match e {
        AuthoritativeCommandError::Persistence(p) => match p {
            PersistenceError::Conflict => ObservationLifecycleError::Conflict,
            PersistenceError::Duplicate => ObservationLifecycleError::Duplicate,
            PersistenceError::IdempotencyAlreadyClaimed => ObservationLifecycleError::Duplicate,
            PersistenceError::NotFound => ObservationLifecycleError::PriorObservationNotFound,
            other => ObservationLifecycleError::Persistence(other),
        },
        AuthoritativeCommandError::InvalidOperation => ObservationLifecycleError::InvalidInput,
        AuthoritativeCommandError::RollbackFailure { operation, rollback } => ObservationLifecycleError::RollbackFailure {
            operation: Box::new(lifecycle_error_of(*operation)),
            rollback,
        },
    }
}

pub fn lifecycle_error(e: AuthoritativeCommandError) -> (r: ObservationLifecycleError)
    ensures
        r == lifecycle_error_of(e),
    decreases e,
{
    match e {
        AuthoritativeCommandError::Persistence(p) => match p {
            PersistenceError::Conflict => ObservationLifecycleError::Conflict,
            PersistenceError::Duplicate => ObservationLifecycleError::Duplicate,
            PersistenceError::IdempotencyAlreadyClaimed => ObservationLifecycleError::Duplicate,
            PersistenceError::NotFound => ObservationLifecycleError::PriorObservationNotFound,
            other => ObservationLifecycleError::Persistence(other),
        },
        AuthoritativeCommandError::InvalidOperation => ObservationLifecycleError::InvalidInput,
        AuthoritativeCommandError::RollbackFailure { operation, rollback } => {
            let inner = lifecycle_error(*operation);
            ObservationLifecycleError::RollbackFailure { operation: Box::new(inner), rollback }
        },
    }
}

impl From<AuthoritativeCommandError> for ObservationLifecycleError {
    fn from(error: AuthoritativeCommandError) -> (r: Self) {
        lifecycle_error(error)
    }
}

impl vstd::std_specs::convert::FromSpecImpl<AuthoritativeCommandError> for ObservationLifecycleError {
    open spec fn obeys_from_spec() -> bool {
        true
    }

    open spec fn from_spec(v: AuthoritativeCommandError) -> Self {
        lifecycle_error_of(v)
    }
}

pub open spec fn fault_error(f: ObservationAuthorizationFault) -> ObservationLifecycleError {
    match f {
        ObservationAuthorizationFault::InvalidInput => ObservationLifecycleError::InvalidInput,
        ObservationAuthorizationFault::Denied => ObservationLifecycleError::AuthorizationDenied,
        ObservationAuthorizationFault::Mismatch => ObservationLifecycleError::AuthorizationMismatch,
        ObservationAuthorizationFault::Expired => ObservationLifecycleError::AuthorizationExpired,
    }
}

#[derive(Debug, Clone, PartialEq, Eq)]
pub struct ObservationLifecycleCommandContext {
    pub actor_ref: ResourceRef,
    pub operation_id: Id,
    pub correlation_id: Id,
    pub now_epoch_seconds: u64,
    pub authorization: AuthorizationResult,
}

#[derive(Debug, Clone, PartialEq, Eq)]
pub struct ObservationLifecycleCommandResult {
    pub observation_id: Id,
    pub prior_observation_id: Id,
    pub revision: Revision,
    pub event_id: Id,
}

/// The checks before anything is written, in order: the authorization for
/// the operation's action, data class included; a prior observation
/// reference; a new observation distinct from it; a reason; a valid
/// observation; an operation id.
pub open spec fn lifecycle_gate(
    c: ObservationLifecycleCommandContext,
    op: ObservationLifecycleOperation,
    prior: ResourceRef,
    o: Observation,
    reason: Seq<char>,
) -> Result<(), ObservationLifecycleError> {
    match observation_authorization(
        c.actor_ref,
        c.operation_id@,
        c.correlation_id@,
        c.now_epoch_seconds,
        c.authorization,
        action_of(op)@,
        o,
        true,
    ) {
        Err(f) => Err(fault_error(f)),
        Ok(()) => if prior.resource_type != ResourceType::Observation || prior.id@.len() == 0 {
            Err(ObservationLifecycleError::InvalidInput)
        } else if prior@ == (ResourceRefView { resource_type: ResourceType::Observation, id: o.observation_id@ }) {
            Err(ObservationLifecycleError::SameObservation)
        } else if is_blank(reason) {
            Err(ObservationLifecycleError::InvalidInput)
        } else if o.validity() is Err {
            Err(ObservationLifecycleError::InvalidInput)
        } else if is_blank(c.operation_id@) {
            Err(ObservationLifecycleError::InvalidInput)
        } else {
            Ok(())
        },
    }
}

/// What reading the prior observation answers: it must be stored, and be an
/// observation.
pub open spec fn prior_outcome(read: Result<Option<ResourceRecord>, UnitOfWorkError>) -> Result<
    ResourceRecord,
    UnitOfWorkError,
> {
    match read {
        Ok(Some(p)) => if p.resource_ref.resource_type == ResourceType::Observation {
            Ok(p)
        } else {
            Err(UnitOfWorkError::InvalidOperation)
        },
        Ok(None) => Err(UnitOfWorkError::Persistence(PersistenceError::NotFound)),
        Err(e) => Err(e),
    }
}

pub fn prior_of(read: Result<Option<ResourceRecord>, UnitOfWorkError>) -> (r: Result<ResourceRecord, UnitOfWorkError>)
    ensures
        r == prior_outcome(read),
{
    match read {
        Ok(Some(p)) => if p.resource_ref.resource_type == ResourceType::Observation {
            Ok(p)
        } else {
            Err(UnitOfWorkError::InvalidOperation)
        },
        Ok(None) => Err(UnitOfWorkError::Persistence(PersistenceError::NotFound)),
        Err(e) => Err(e),
    }
}

/// What a successful lifecycle change answers: the new observation's id,
/// the prior observation's id, the initial revision and the change's event.
pub open spec fn lifecycle_answer(
    operation_id: Seq<char>,
    observation_id: Id,
    prior_id: Id,
    result: ObservationLifecycleCommandResult,
) -> bool {
    &&& result.observation_id == observation_id
    &&& result.prior_observation_id == prior_id
    &&& result.revision.value == 0
    &&& result.event_id@ == "observation-lifecycle-event-"@ + operation_id
}

/// `after` is `before` followed by one link: the strong link from the new
/// observation to the prior one, under the operation's relation.
pub open spec fn lifecycle_linked(
    before: Seq<ResourceLink>,
    after: Seq<ResourceLink>,
    observation_id: Seq<char>,
    operation: ObservationLifecycleOperation,
    prior: ResourceRefView,
) -> bool {
    exists|l: ResourceLink|
        after == before.push(l) && #[trigger] l.parts() == (
            ResourceRefView { resource_type: ResourceType::Observation, id: observation_id },
            relation_of(operation)@,
            prior,
            Some(ResourceLinkClass::Strong),
        )
}

/// Reads the prior observation, then writes the new one, its strong link to
/// the prior one, and the records of the change.
fn persist_lifecycle<C: UnitOfWorkContext>(
    uow: &mut C,
    plan: &AtomicCommandPlan,
    actor_ref: ResourceRef,
    correlation_id: Id,
    operation_id: Id,
    authorization: AuthorizationResult,
    operation: ObservationLifecycleOperation,
    prior_observation: ResourceRef,
    observation: Observation,
    reason: String,
) -> (r: Result<ObservationLifecycleCommandResult, UnitOfWorkError>)
    ensures
        r is Ok ==> lifecycle_answer(operation_id@, observation.observation_id, prior_observation.id, r->Ok_0),
        r is Ok ==> observation_change_writes(
            old(uow).written(),
            final(uow).written(),
            observation,
            r->Ok_0.event_id@,
            event_type_of(operation)@,
            actor_ref,
            correlation_id@,
            operation_id@,
            authorization.authorization_ref,
            Some((prior_observation@, relation_of(operation)@, reason@)),
        ),
        r is Ok ==> lifecycle_linked(
            old(uow).linked(),
            final(uow).linked(),
            observation.observation_id@,
            operation,
            prior_observation@,
        ),
        observation.observation_id@.len() == 0 || observation.schema_version == 0 || observation.schema_version > 65535
            ==> r is Err && final(uow).written() == old(uow).written() && final(uow).linked() == old(uow).linked(),
{
    let read = uow.read_resource(&prior_observation);
    persist_after_prior(
        uow,
        read,
        actor_ref,
        correlation_id,
        operation_id,
        authorization,
        operation,
        prior_observation,
        observation,
        reason,
    )
}

/// Given what reading the prior observation answered, writes the new
/// observation, its strong link to the prior one, and the records of the
/// change. Nothing is written when the prior observation is missing, is no
/// observation or could not be read, nor when the new observation is invalid.
pub fn persist_after_prior<C: UnitOfWorkContext>(
    uow: &mut C,
    read: Result<Option<ResourceRecord>, UnitOfWorkError>,
    actor_ref: ResourceRef,
    correlation_id: Id,
    operation_id: Id,
    authorization: AuthorizationResult,
    operation: ObservationLifecycleOperation,
    prior_observation: ResourceRef,
    observation: Observation,
    reason: String,
) -> (r: Result<ObservationLifecycleCommandResult, UnitOfWorkError>)
    ensures
        prior_outcome(read) matches Err(e) ==> r == Err::<ObservationLifecycleCommandResult, UnitOfWorkError>(e)
            && *final(uow) == *old(uow),
        prior_outcome(read) is Ok && (observation.observation_id@.len() == 0 || observation.schema_version == 0
            || observation.schema_version > 65535) ==> r == Err::<ObservationLifecycleCommandResult, UnitOfWorkError>(
            UnitOfWorkError::InvalidOperation,
        ) && *final(uow) == *old(uow),
        r is Ok ==> prior_outcome(read) is Ok && lifecycle_answer(
            operation_id@,
            observation.observation_id,
            prior_observation.id,
            r->Ok_0,
        ),
        r is Ok ==> observation_change_writes(
            old(uow).written(),
            final(uow).written(),
            observation,
            r->Ok_0.event_id@,
            event_type_of(operation)@,
            actor_ref,
            correlation_id@,
            operation_id@,
            authorization.authorization_ref,
            Some((prior_observation@, relation_of(operation)@, reason@)),
        ),
        r is Ok ==> lifecycle_linked(
            old(uow).linked(),
            final(uow).linked(),
            observation.observation_id@,
            operation,
            prior_observation@,
        ),
{
    let ghost o = observation;
    let ghost (actor0, correlation0, operation0, authorization0, prior0, reason0) = (
        actor_ref,
        correlation_id@,
        operation_id@,
        authorization.authorization_ref,
        prior_observation@,
        reason@,
    );
    match prior_of(read) {
        Ok(_) => {},
        Err(e) => return Err(e),
    }
    let observation_id = observation.observation_id.clone();
    let observation_ref = ResourceRef { resource_type: ResourceType::Observation, id: observation_id.clone() };
    let (write, rest) = match observation_write(observation) {
        Ok(pair) => pair,
        Err(e) => return Err(e),
    };
    let ghost w0 = write;
    match uow.write_resource(write) {
        Ok(()) => {},
        Err(e) => return Err(e),
    }
    let link = match ResourceLink::new_with_class(
        observation_ref.duplicate(),
        operation.relation(),
        prior_observation.duplicate(),
        ResourceLinkClass::Strong,
    ) {
        Ok(l) => l,
        Err(e) => return Err(e),
    };
    let ghost l0 = link;
    match uow.link_resources(link) {
        Ok(()) => {},
        Err(e) => return Err(e),
    }
    let ghost done = uow.written();
    let event_id = concat("observation-lifecycle-event-", operation_id.as_str());
    let prior_id = prior_observation.id.clone();
    let context = RecordContext {
        event_id: event_id.clone(),
        event_type: text_of(operation.event_type()),
        observation_ref,
        recorded_at: rest.recorded_at,
        actor_ref,
        source_refs: rest.source_refs,
        correlation_id,
        operation_id,
        authorization_ref: authorization.authorization_ref,
        prior: Some(PriorLink { prior_ref: prior_observation, relation: text_of(operation.relation()), reason }),
    };
    let mut writes = observation_record_writes(&context);
    let ghost ws0 = writes@;
    let ghost links = uow.linked();
    while writes.len() > 0
        invariant
            prior_outcome(read) is Ok,
            !(observation.observation_id@.len() == 0 || observation.schema_version == 0 || observation.schema_version
                > 65535),
            writes@.len() <= ws0.len(),
            writes@ == ws0.subrange(ws0.len() - writes@.len(), ws0.len() as int),
            uow.written() == done + ws0.subrange(0, ws0.len() - writes@.len()),
            uow.linked() == links,
        decreases writes@.len(),
    {
        let ghost before = writes@;
        let w = writes.remove(0);
        proof {
            assert(w == ws0[ws0.len() - before.len()]);
            assert(writes@ =~= ws0.subrange(ws0.len() - writes@.len(), ws0.len() as int));
        }
        match uow.write_resource(w) {
            Ok(()) => {},
            Err(e) => return Err(e),
        }
        proof {
            assert(ws0.subrange(0, ws0.len() - writes@.len()) =~= ws0.subrange(0, ws0.len() - before.len()).push(w));
            assert(uow.written() =~= done + ws0.subrange(0, ws0.len() - writes@.len()));
        }
    }
    let r = ObservationLifecycleCommandResult {
        observation_id,
        prior_observation_id: prior_id,
        revision: Revision::initial(),
        event_id,
    };
    proof {
        let prior = Some((prior0, relation_of(operation)@, reason0));
        assert(ws0.subrange(0, ws0.len() as int) =~= ws0);
        assert(observation_insert(w0, o));
        assert(observation_records(ws0, context));
        assert(change_context(
            context,
            o,
            r.event_id@,
            event_type_of(operation)@,
            actor0,
            correlation0,
            operation0,
            authorization0,
            prior,
        ));
        assert(uow.written() == old(uow).written().push(w0) + ws0);
        assert(observation_change_writes(
            old(uow).written(),
            uow.written(),
            o,
            r.event_id@,
            event_type_of(operation)@,
            actor0,
            correlation0,
            operation0,
            authorization0,
            prior,
        ));
        assert(uow.linked() == old(uow).linked().push(l0));
        assert(l0.parts() == (
            ResourceRefView { resource_type: ResourceType::Observation, id: o.observation_id@ },
            relation_of(operation)@,
            prior0,
            Some(ResourceLinkClass::Strong),
        ));
        assert(lifecycle_linked(old(uow).linked(), uow.linked(), o.observation_id@, operation, prior0));
    }
    Ok(r)
}

pub struct ObservationLifecycleCommand<'a, F> {
    factory: &'a mut F,
}

impl<'a, F: UnitOfWorkFactory> ObservationLifecycleCommand<'a, F> {
    pub closed spec fn factory_state(&self) -> F {
        *self.factory
    }

    pub fn new(factory: &'a mut F) -> (r: Self)
        ensures
            r.factory_state() == *old(factory),
    {
        ObservationLifecycleCommand { factory }
    }

    /// Applies a lifecycle operation; nothing is written when a check fails.
    pub fn apply(
        &mut self,
        context: ObservationLifecycleCommandContext,
        operation: ObservationLifecycleOperation,
        prior_observation: ResourceRef,
        observation: Observation,
        reason: &str,
    ) -> (r: Result<ObservationLifecycleCommandResult, ObservationLifecycleError>)
        ensures
            lifecycle_gate(context, operation, prior_observation, observation, reason@) is Err ==> r == Err::<
                ObservationLifecycleCommandResult,
                ObservationLifecycleError,
            >(lifecycle_gate(context, operation, prior_observation, observation, reason@)->Err_0)
                && final(self).factory_state() == old(self).factory_state(),
            r is Ok ==> lifecycle_gate(context, operation, prior_observation, observation, reason@) is Ok
                && lifecycle_answer(context.operation_id@, observation.observation_id, prior_observation.id, r->Ok_0),
    {
        match check_observation_authorization(
            &context.actor_ref,
            &context.operation_id,
            &context.correlation_id,
            context.now_epoch_seconds,
            &context.authorization,
            operation.action_id(),
            &observation,
            true,
        ) {
            Ok(()) => {},
            Err(f) => return Err(
                match f {
                    ObservationAuthorizationFault::InvalidInput => ObservationLifecycleError::InvalidInput,
                    ObservationAuthorizationFault::Denied => ObservationLifecycleError::AuthorizationDenied,
                    ObservationAuthorizationFault::Mismatch => ObservationLifecycleError::AuthorizationMismatch,
                    ObservationAuthorizationFault::Expired => ObservationLifecycleError::AuthorizationExpired,
                },
            ),
        }
        if prior_observation.resource_type != ResourceType::Observation || prior_observation.id.as_str().is_empty() {
            return Err(ObservationLifecycleError::InvalidInput);
        }
        if str_eq(prior_observation.id.as_str(), observation.observation_id.as_str()) {
            return Err(ObservationLifecycleError::SameObservation);
        }
        if str_is_blank(reason) {
            return Err(ObservationLifecycleError::InvalidInput);
        }
        match observation.validate() {
            Ok(()) => {},
            Err(_) => return Err(ObservationLifecycleError::InvalidInput),
        }
        let mut plan = match AtomicCommandPlan::new(context.operation_id.clone()) {
            Ok(p) => p,
            Err(_) => return Err(ObservationLifecycleError::InvalidInput),
        };
        match plan.claim_operation() {
            Ok(()) => {},
            Err(_) => return Err(ObservationLifecycleError::InvalidInput),
        }
        let actor_ref = context.actor_ref;
        let correlation_id = context.correlation_id;
        let operation_id = context.operation_id;
        let authorization = context.authorization;
        let reason = text_of(reason);
        let ghost answered = (operation_id@, observation.observation_id, prior_observation.id);
        let build = move |uow: &mut <F::Uow as UnitOfWork>::Context, plan: &AtomicCommandPlan| -> (o: Result<
            ObservationLifecycleCommandResult,
            UnitOfWorkError,
        >)
            ensures
                o is Ok ==> lifecycle_answer(answered.0, answered.1, answered.2, o->Ok_0),
        {
            persist_lifecycle(
                uow,
                plan,
                actor_ref,
                correlation_id,
                operation_id,
                authorization,
                operation,
                prior_observation,
                observation,
                reason,
            )
        };
        match execute_authoritative_command(self.factory, plan, build) {
            Ok(result) => {
                proof {
                    let c = choose|c: &mut <F::Uow as UnitOfWork>::Context| #[trigger]
                        build.ensures((c, &plan), Ok::<ObservationLifecycleCommandResult, UnitOfWorkError>(result));
                    assert(build.ensures((c, &plan), Ok::<ObservationLifecycleCommandResult, UnitOfWorkError>(result)));
                }
                Ok(result)
            },
            Err(e) => Err(lifecycle_error(e)),
        }
    }

    pub fn correct(
        &mut self,
        context: ObservationLifecycleCommandContext,
        prior_observation: ResourceRef,
        observation: Observation,
        reason: &str,
    ) -> (r: Result<ObservationLifecycleCommandResult, ObservationLifecycleError>)
        ensures
            lifecycle_gate(context, ObservationLifecycleOperation::Correct, prior_observation, observation, reason@) is Err
                ==> r == Err::<ObservationLifecycleCommandResult, ObservationLifecycleError>(
                lifecycle_gate(context, ObservationLifecycleOperation::Correct, prior_observation, observation, reason@)->Err_0,
            ),
            r is Ok ==> lifecycle_gate(context, ObservationLifecycleOperation::Correct, prior_observation, observation, reason@) is Ok
                && lifecycle_answer(context.operation_id@, observation.observation_id, prior_observation.id, r->Ok_0),
    {
        self.apply(context, ObservationLifecycleOperation::Correct, prior_observation, observation, reason)
    }

    pub fn supersede(
        &mut self,
        context: ObservationLifecycleCommandContext,
        prior_observation: ResourceRef,
        observation: Observation,
        reason: &str,
    ) -> (r: Result<ObservationLifecycleCommandResult, ObservationLifecycleError>)
        ensures
            lifecycle_gate(context, ObservationLifecycleOperation::Supersede, prior_observation, observation, reason@) is Err
                ==> r == Err::<ObservationLifecycleCommandResult, ObservationLifecycleError>(
                lifecycle_gate(context, ObservationLifecycleOperation::Supersede, prior_observation, observation, reason@)->Err_0,
            ),
            r is Ok ==> lifecycle_gate(context, ObservationLifecycleOperation::Supersede, prior_observation, observation, reason@) is Ok
                && lifecycle_answer(context.operation_id@, observation.observation_id, prior_observation.id, r->Ok_0),
    {
        self.apply(context, ObservationLifecycleOperation::Supersede, prior_observation, observation, reason)
    }

    pub fn contradict(
        &mut self,
        context: ObservationLifecycleCommandContext,
        prior_observation: ResourceRef,
        observation: Observation,
        reason: &str,
    ) -> (r: Result<ObservationLifecycleCommandResult, ObservationLifecycleError>)
        ensures
            lifecycle_gate(context, ObservationLifecycleOperation::Contradict, prior_observation, observation, reason@) is Err
                ==> r == Err::<ObservationLifecycleCommandResult, ObservationLifecycleError>(
                lifecycle_gate(context, ObservationLifecycleOperation::Contradict, prior_observation, observation, reason@)->Err_0,
            ),
            r is Ok ==> lifecycle_gate(context, ObservationLifecycleOperation::Contradict, prior_observation, observation, reason@) is Ok
                && lifecycle_answer(context.operation_id@, observation.observation_id, prior_observation.id, r->Ok_0),
    {
        self.apply(context, ObservationLifecycleOperation::Contradict, prior_observation, observation, reason)
    }
}

} // verus!
