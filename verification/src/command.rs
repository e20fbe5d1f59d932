//! Authoritative state-changing commands: a plan of writes and links that is
//! applied with the command's own writes inside one unit of work, committed
//! together or rolled back together.
use vstd::prelude::*;
use crate::json::{JsonMember, JsonValue, member, text, text_member};
use crate::persistence::{
    PersistenceError, ResourceLink, ResourceWrite, ResourceWriteMode, UnitOfWork, UnitOfWorkContext,
    UnitOfWorkError, UnitOfWorkFactory,
};
use crate::resource::{Id, ResourceRef, ResourceType};
use crate::text::{is_blank, str_is_blank};

verus! {

/// The writes and links of an authoritative command, keyed by its operation id.
#[derive(Debug, Clone, PartialEq, Eq)]
pub struct AtomicCommandPlan {
    pub operation_id: Id,
    pub resource_writes: Vec<ResourceWrite>,
    pub resource_links: Vec<ResourceLink>,
}

/// `v` is `{"operation_id": op}`.
pub open spec fn is_operation_json(v: JsonValue, op: Seq<char>) -> bool {
    v matches JsonValue::Object(ms) && ms@.len() == 1 && text_member(ms@[0], "operation_id"@, op)
}

impl AtomicCommandPlan {
    /// An empty plan; the operation id must not be blank.
    pub fn new(operation_id: Id) -> (r: Result<Self, UnitOfWorkError>)
        ensures
            is_blank(operation_id@) ==> r == Err::<Self, UnitOfWorkError>(UnitOfWorkError::InvalidOperation),
            !is_blank(operation_id@) ==> r is Ok && r->Ok_0.operation_id == operation_id
                && r->Ok_0.resource_writes@.len() == 0 && r->Ok_0.resource_links@.len() == 0,
    {
        if str_is_blank(operation_id.as_str()) {
            return Err(UnitOfWorkError::InvalidOperation);
        }
        AtomicCommandPlan { operation_id, resource_writes: Vec::new(), resource_links: Vec::new() }.into_ok()
    }

    fn into_ok(self) -> (r: Result<Self, UnitOfWorkError>)
        ensures
            r == Ok::<Self, UnitOfWorkError>(self),
    {
        Ok(self)
    }

    /// Adds an insert of `resource_ref`; the schema version must be positive.
    pub fn insert_resource(&mut self, resource_ref: ResourceRef, schema_version: u16, payload: JsonValue) -> (r:
        Result<(), UnitOfWorkError>)
        ensures
            schema_version == 0 ==> r == Err::<(), UnitOfWorkError>(UnitOfWorkError::InvalidOperation)
                && *final(self) == *old(self),
            schema_version != 0 ==> r is Ok && final(self).resource_writes@ == old(self).resource_writes@.push(
                ResourceWrite {
                    resource_ref,
                    schema_version,
                    payload,
                    mode: ResourceWriteMode::Insert,
                    expected_revision: None,
                },
            ) && final(self).operation_id == old(self).operation_id && final(self).resource_links
                == old(self).resource_links,
    {
        match ResourceWrite::new(resource_ref, schema_version, payload, ResourceWriteMode::Insert) {
            Ok(w) => {
                self.resource_writes.push(w);
                Ok(())
            },
            Err(e) => Err(e),
        }
    }

    /// Adds an upsert of `resource_ref`; the schema version must be positive.
    pub fn upsert_resource(&mut self, resource_ref: ResourceRef, schema_version: u16, payload: JsonValue) -> (r:
        Result<(), UnitOfWorkError>)
        ensures
            schema_version == 0 ==> r == Err::<(), UnitOfWorkError>(UnitOfWorkError::InvalidOperation)
                && *final(self) == *old(self),
            schema_version != 0 ==> r is Ok && final(self).resource_writes@ == old(self).resource_writes@.push(
                ResourceWrite {
                    resource_ref,
                    schema_version,
                    payload,
                    mode: ResourceWriteMode::Upsert,
                    expected_revision: None,
                },
            ) && final(self).operation_id == old(self).operation_id && final(self).resource_links
                == old(self).resource_links,
    {
        match ResourceWrite::new(resource_ref, schema_version, payload, ResourceWriteMode::Upsert) {
            Ok(w) => {
                self.resource_writes.push(w);
                Ok(())
            },
            Err(e) => Err(e),
        }
    }

    pub fn link(&mut self, link: ResourceLink)
        ensures
            final(self).resource_links@ == old(self).resource_links@.push(link),
            final(self).resource_writes == old(self).resource_writes,
            final(self).operation_id == old(self).operation_id,
    {
        self.resource_links.push(link);
    }

    /// Adds the durable idempotency marker of the operation to the same
    /// atomic write set: an insert that fails if the operation was done before.
    pub fn claim_operation(&mut self) -> (r: Result<(), UnitOfWorkError>)
        ensures
            old(self).operation_id@.len() == 0 ==> r == Err::<(), UnitOfWorkError>(UnitOfWorkError::InvalidOperation)
                && *final(self) == *old(self),
            old(self).operation_id@.len() != 0 ==> r is Ok && final(self).resource_writes@.len()
                == old(self).resource_writes@.len() + 1 && final(self).resource_writes@.drop_last()
                == old(self).resource_writes@ && ({
                let w = final(self).resource_writes@.last();
                &&& w.resource_ref@ == (crate::resource::ResourceRefView {
                    resource_type: ResourceType::Idempotency,
                    id: old(self).operation_id@,
                })
                &&& w.schema_version == 1
                &&& w.mode == ResourceWriteMode::Insert
                &&& w.expected_revision is None
                &&& is_operation_json(w.payload, old(self).operation_id@)
            }) && final(self).operation_id == old(self).operation_id && final(self).resource_links
                == old(self).resource_links,
    {
        if self.operation_id.as_str().is_empty() {
            return Err(UnitOfWorkError::InvalidOperation);
        }
        let resource_ref = ResourceRef { resource_type: ResourceType::Idempotency, id: self.operation_id.clone() };
        let mut ms: Vec<JsonMember> = Vec::new();
        ms.push(member("operation_id", text(self.operation_id.as_str())));
        let r = self.insert_resource(resource_ref, 1, JsonValue::Object(ms));
        proof {
            assert(self.resource_writes@.drop_last() =~= old(self).resource_writes@);
        }
        r
    }
}

#[derive(Debug, PartialEq, Eq)]
pub enum AuthoritativeCommandError {
    Persistence(PersistenceError),
    InvalidOperation,
    /// The operation failed and undoing it failed too.
    RollbackFailure { operation: Box<AuthoritativeCommandError>, rollback: PersistenceError },
}

pub open spec fn command_error_of(e: UnitOfWorkError) -> AuthoritativeCommandError {
    match e {
        UnitOfWorkError::Persistence(p) => AuthoritativeCommandError::Persistence(p),
        UnitOfWorkError::InvalidOperation => AuthoritativeCommandError::InvalidOperation,
    }
}

impl From<UnitOfWorkError> for AuthoritativeCommandError {
    fn from(error: UnitOfWorkError) -> (r: Self) {
        match error {
            UnitOfWorkError::Persistence(p) => AuthoritativeCommandError::Persistence(p),
            UnitOfWorkError::InvalidOperation => AuthoritativeCommandError::InvalidOperation,
        }
    }
}

impl vstd::std_specs::convert::FromSpecImpl<UnitOfWorkError> for AuthoritativeCommandError {
    open spec fn obeys_from_spec() -> bool {
        true
    }

    open spec fn from_spec(v: UnitOfWorkError) -> Self {
        command_error_of(v)
    }
}

/// The error of a failed operation once its unit of work was rolled back:
/// the operation's own error, or both when the rollback failed as well.
pub open spec fn settled_failure(operation: UnitOfWorkError, rollback: Result<(), PersistenceError>) -> AuthoritativeCommandError {
    match rollback {
        Ok(()) => command_error_of(operation),
        Err(e) => AuthoritativeCommandError::RollbackFailure { operation: Box::new(command_error_of(operation)), rollback: e },
    }
}

pub fn settle_failure(operation: UnitOfWorkError, rollback: Result<(), PersistenceError>) -> (r:
    AuthoritativeCommandError)
    ensures
        r == settled_failure(operation, rollback),
{
    let own = AuthoritativeCommandError::from(operation);
    match rollback {
        Ok(()) => own,
        Err(e) => AuthoritativeCommandError::RollbackFailure { operation: Box::new(own), rollback: e },
    }
}

/// `after` is `before` followed by a copy of each of `writes`, in order.
pub open spec fn applied(before: Seq<ResourceWrite>, after: Seq<ResourceWrite>, writes: Seq<ResourceWrite>) -> bool {
    &&& after.len() == before.len() + writes.len()
    &&& after.subrange(0, before.len() as int) == before
    &&& forall|i: int| 0 <= i < writes.len() ==> (#[trigger] after[before.len() + i]).same_as(writes[i])
}

/// `after` is `before` followed by a copy of each of `links`, in order.
pub open spec fn linked_all(before: Seq<ResourceLink>, after: Seq<ResourceLink>, links: Seq<ResourceLink>) -> bool {
    &&& after.len() == before.len() + links.len()
    &&& after.subrange(0, before.len() as int) == before
    &&& forall|i: int| 0 <= i < links.len() ==> (#[trigger] after[before.len() + i]).parts() == links[i].parts()
}

/// Applies every write of the plan, then every link, in order; stops at the
/// first failure.
pub fn apply_plan<C: UnitOfWorkContext>(context: &mut C, plan: &AtomicCommandPlan) -> (r: Result<(), UnitOfWorkError>)
    ensures
        plan.resource_writes@.len() == 0 && plan.resource_links@.len() == 0 ==> r is Ok && *final(context)
            == *old(context),
        r is Ok ==> applied(old(context).written(), final(context).written(), plan.resource_writes@)
            && linked_all(old(context).linked(), final(context).linked(), plan.resource_links@),
{
    let mut k: usize = 0;
    proof {
        assert(context.written().subrange(0, old(context).written().len() as int) =~= context.written());
    }
    while k < plan.resource_writes.len()
        invariant
            k <= plan.resource_writes@.len(),
            plan.resource_writes@.len() == 0 ==> *context == *old(context),
            applied(old(context).written(), context.written(), plan.resource_writes@.take(k as int)),
            context.linked() == old(context).linked(),
        decreases plan.resource_writes@.len() - k,
    {
        let ghost before = context.written();
        match context.write_resource(plan.resource_writes[k].duplicate()) {
            Ok(()) => {},
            Err(e) => return Err(e),
        }
        proof {
            let done = plan.resource_writes@.take(k + 1);
            assert(done.take(k as int) =~= plan.resource_writes@.take(k as int));
            assert forall|i: int| 0 <= i < done.len() implies (#[trigger] context.written()[old(context).written().len()
                + i]).same_as(done[i]) by {
                if i < k {
                    assert(context.written()[old(context).written().len() + i] == before[old(context).written().len()
                        + i]);
                    assert(done[i] == plan.resource_writes@.take(k as int)[i]);
                }
            }
            assert(context.written().subrange(0, old(context).written().len() as int) =~= before.subrange(
                0,
                old(context).written().len() as int,
            ));
        }
        k = k + 1;
    }
    proof {
        assert(plan.resource_writes@.take(k as int) =~= plan.resource_writes@);
    }
    let ghost written = context.written();
    let mut j: usize = 0;
    proof {
        assert(context.linked().subrange(0, old(context).linked().len() as int) =~= context.linked());
    }
    while j < plan.resource_links.len()
        invariant
            j <= plan.resource_links@.len(),
            plan.resource_writes@.len() == 0 && plan.resource_links@.len() == 0 ==> *context == *old(context),
            applied(old(context).written(), written, plan.resource_writes@),
            context.written() == written,
            linked_all(old(context).linked(), context.linked(), plan.resource_links@.take(j as int)),
        decreases plan.resource_links@.len() - j,
    {
        let ghost before = context.linked();
        match context.link_resources(plan.resource_links[j].duplicate()) {
            Ok(()) => {},
            Err(e) => return Err(e),
        }
        proof {
            let done = plan.resource_links@.take(j + 1);
            assert forall|i: int| 0 <= i < done.len() implies (#[trigger] context.linked()[old(context).linked().len()
                + i]).parts() == done[i].parts() by {
                if i < j {
                    assert(context.linked()[old(context).linked().len() + i] == before[old(context).linked().len() + i]);
                    assert(done[i] == plan.resource_links@.take(j as int)[i]);
                }
            }
            assert(context.linked().subrange(0, old(context).linked().len() as int) =~= before.subrange(
                0,
                old(context).linked().len() as int,
            ));
        }
        j = j + 1;
    }
    proof {
        assert(plan.resource_links@.take(j as int) =~= plan.resource_links@);
    }
    Ok(())
}

/// `build` accepts every context and plan.
pub open spec fn callable_anywhere<C, R, B>(build: B) -> bool where
    B: FnOnce(&mut C, &AtomicCommandPlan) -> Result<R, UnitOfWorkError>,
 {
    forall|c: &mut C, p: &AtomicCommandPlan| build.requires((c, p))
}

fn run_plan_then<C: UnitOfWorkContext, R, B>(context: &mut C, plan: &AtomicCommandPlan, build: B) -> (o: Result<
    R,
    UnitOfWorkError,
>) where
    B: FnOnce(&mut C, &AtomicCommandPlan) -> Result<R, UnitOfWorkError>,

    requires
        callable_anywhere(build),
    ensures
        (exists|c: &mut C| #[trigger] build.ensures((c, plan), o)) || (o is Err && (plan.resource_writes@.len() > 0
            || plan.resource_links@.len() > 0)),
{
    match apply_plan(context, plan) {
        Ok(()) => {},
        Err(e) => return Err(e),
    }
    build(context, plan)
}

/// Runs a complete command through one unit of work: the plan's writes and
/// links, then `build`; commits on success and rolls back on failure, so
/// that the idempotency marker, the resources, the event, the audit record
/// and the provenance share one commit-or-rollback boundary.
pub fn execute_authoritative_command<U: UnitOfWork, F: UnitOfWorkFactory<Uow = U>, R, Build>(
    factory: &mut F,
    plan: AtomicCommandPlan,
    build: Build,
) -> (r: Result<R, AuthoritativeCommandError>) where
    Build: FnOnce(&mut U::Context, &AtomicCommandPlan) -> Result<R, UnitOfWorkError>,

    requires
        callable_anywhere(build),
    ensures
        r matches Ok(v) ==> exists|c: &mut U::Context| #[trigger] build.ensures((c, &plan), Ok::<R, UnitOfWorkError>(v)),
        r matches Err(e) ==> e is Persistence || exists|op: UnitOfWorkError, rb: Result<(), PersistenceError>|
            e == #[trigger] settled_failure(op, rb),
{
    let mut uow = match factory.begin() {
        Ok(u) => u,
        Err(e) => return Err(AuthoritativeCommandError::Persistence(e)),
    };
    let operation = |context: &mut U::Context| -> (o: Result<R, UnitOfWorkError>)
        ensures
            o is Ok ==> exists|c: &mut U::Context| #[trigger] build.ensures((c, &plan), o),
    { run_plan_then(context, &plan, build) };
    let outcome = uow.execute(operation);
    match outcome {
        Ok(result) => match uow.commit() {
            Ok(()) => {
                let r: Result<R, AuthoritativeCommandError> = Ok(result);
                proof {
                    let c = choose|c: &mut U::Context| #[trigger] operation.ensures((c,), outcome);
                    assert(operation.ensures((c,), outcome));
                    assert(exists|c: &mut U::Context| #[trigger] build.ensures((c, &plan), outcome));
                    assert(outcome == Ok::<R, UnitOfWorkError>(r->Ok_0));
                    assert(exists|c: &mut U::Context| #[trigger]
                        build.ensures((c, &plan), Ok::<R, UnitOfWorkError>(r->Ok_0)));
                }
                r
            },
            Err(e) => Err(AuthoritativeCommandError::Persistence(e)),
        },
        Err(e) => {
            let rollback = uow.rollback();
            Err(settle_failure(e, rollback))
        },
    }
}

} // verus!
