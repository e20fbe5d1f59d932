//! Case commands, executed under an already evaluated authorization through
//! the atomic command boundary: the case, its event, its audit record, its
//! provenance and the idempotency marker are written together or not at all.
use vstd::prelude::*;
use crate::authorization::{AuthorizationDecision, AuthorizationResult};
use crate::case::{Case, CaseState, case_decoding, case_step, is_state_json, state_wire};
use crate::command::{
    AtomicCommandPlan, AuthoritativeCommandError, callable_anywhere, execute_authoritative_command,
};
use crate::json::{JsonMember, JsonValue, is_ref_json, is_text, member, ref_json, text, text_member};
use crate::persistence::{
    PersistenceError, ResourceRecord, ResourceWrite, ResourceWriteMode, Revision, UnitOfWork, UnitOfWorkContext,
    UnitOfWorkError, UnitOfWorkFactory,
};
use crate::resource::{Id, ResourceRef, ResourceRefView, ResourceType, opt_ref_view, opt_text_view};
use crate::text::{decimal, is_blank, push_decimal, push_str, str_eq, str_is_blank, text_of, concat};

verus! {

#[derive(Debug, PartialEq, Eq)]
pub enum ServiceError {
    AuthorizationDenied,
    AuthorizationMismatch,
    AuthorizationInvalid,
    AuthorizationExpired,
    Conflict,
    Duplicate,
    InvalidInput,
    NotFound,
    Persistence(PersistenceError),
    /// The command failed and undoing it failed too.
    RollbackFailure { operation: Box<ServiceError>, rollback: PersistenceError },
    SerializationFailure,
}

impl From<PersistenceError> for ServiceError {
    fn from(error: PersistenceError) -> (r: Self) {
        ServiceError::Persistence(error)
    }
}

impl vstd::std_specs::convert::FromSpecImpl<PersistenceError> for ServiceError {
    open spec fn obeys_from_spec() -> bool {
        true
    }

    open spec fn from_spec(v: PersistenceError) -> Self {
        ServiceError::Persistence(v)
    }
}

/// How a failure at the command boundary is reported to the caller: a
/// conflict, a duplicate operation, an invalid input, or the storage error.
pub open spec fn service_error_of(e: AuthoritativeCommandError) -> ServiceError
    decreases e,
{
    match e {
        AuthoritativeCommandError::Persistence(p) => match p {
            PersistenceError::Conflict => ServiceError::Conflict,
            PersistenceError::Duplicate => ServiceError::Duplicate,
            PersistenceError::IdempotencyAlreadyClaimed => ServiceError::Duplicate,
            other => ServiceError::Persistence(other),
        },
        AuthoritativeCommandError::InvalidOperation => ServiceError::InvalidInput,
        AuthoritativeCommandError::RollbackFailure { operation, rollback } => ServiceError::RollbackFailure {
            operation: Box::new(service_error_of(*operation)),
            rollback,
        },
    }
}

pub fn service_error(e: AuthoritativeCommandError) -> (r: ServiceError)
    ensures
        r == service_error_of(e),
    decreases e,
{
    match e {
        AuthoritativeCommandError::Persistence(p) => match p {
            PersistenceError::Conflict => ServiceError::Conflict,
            PersistenceError::Duplicate => ServiceError::Duplicate,
            PersistenceError::IdempotencyAlreadyClaimed => ServiceError::Duplicate,
            other => ServiceError::Persistence(other),
        },
        AuthoritativeCommandError::InvalidOperation => ServiceError::InvalidInput,
        AuthoritativeCommandError::RollbackFailure { operation, rollback } => {
            let inner = service_error(*operation);
            ServiceError::RollbackFailure { operation: Box::new(inner), rollback }
        },
    }
}

impl From<AuthoritativeCommandError> for ServiceError {
    fn from(error: AuthoritativeCommandError) -> (r: Self) {
        service_error(error)
    }
}

impl vstd::std_specs::convert::FromSpecImpl<AuthoritativeCommandError> for ServiceError {
    open spec fn obeys_from_spec() -> bool {
        true
    }

    open spec fn from_spec(v: AuthoritativeCommandError) -> Self {
        service_error_of(v)
    }
}

#[derive(Debug, Clone, PartialEq, Eq)]
pub enum CaseCommand {
    Create { case: Case },
    Transition { case_id: Id, expected_revision: Revision, next: CaseState },
}

#[derive(Debug, Clone, PartialEq, Eq)]
pub struct CommandContext {
    pub actor_id: Id,
    pub operation_id: Id,
    pub correlation_id: Id,
    pub purpose: String,
    pub jurisdiction_ref: Option<ResourceRef>,
    pub requested_data_class: Option<String>,
    pub now_epoch_seconds: u64,
    pub authorization: AuthorizationResult,
}

#[derive(Debug, Clone, PartialEq, Eq)]
pub struct CommandResult {
    pub case_id: Id,
    pub revision: Revision,
    pub event_id: Id,
}

// ----- the writes of a case command -----

/// `v` is the JSON form of a case with this id and state.
pub open spec fn is_case_fields_json(v: JsonValue, id: Seq<char>, state: CaseState) -> bool {
    v matches JsonValue::Object(ms) && ms@.len() == 2 && text_member(ms@[0], "case_id"@, id) && text_member(
        ms@[1],
        "state"@,
        state_wire(state)@,
    )
}

/// The insert of a new case: its JSON form, at schema version 1.
pub fn case_create_write(case: &Case) -> (r: Result<ResourceWrite, UnitOfWorkError>)
    ensures
        case.case_id@.len() == 0 ==> r == Err::<ResourceWrite, UnitOfWorkError>(UnitOfWorkError::InvalidOperation),
        case.case_id@.len() > 0 ==> r is Ok && r->Ok_0.resource_ref@ == (ResourceRefView {
            resource_type: ResourceType::Case,
            id: case.case_id@,
        }) && r->Ok_0.schema_version == 1 && r->Ok_0.mode == ResourceWriteMode::Insert
            && r->Ok_0.expected_revision is None && is_case_fields_json(r->Ok_0.payload, case.case_id@, case.state),
{
    if case.case_id.as_str().is_empty() {
        return Err(UnitOfWorkError::InvalidOperation);
    }
    let case_ref = ResourceRef { resource_type: ResourceType::Case, id: case.case_id.clone() };
    ResourceWrite::new(case_ref, 1, case.to_json(), ResourceWriteMode::Insert)
}

/// What a transition finds in the stored record: the decoded case id, the
/// record's schema version and the next revision; or why it fails.
pub open spec fn transition_outcome(record: Option<ResourceRecord>, expected: Revision, next: CaseState) -> Result<
    (Seq<char>, u16, u64),
    UnitOfWorkError,
> {
    match record {
        None => Err(UnitOfWorkError::Persistence(PersistenceError::NotFound)),
        Some(rec) => if rec.revision != expected {
            Err(UnitOfWorkError::Persistence(PersistenceError::Conflict))
        } else {
            match case_decoding(rec.payload) {
                None => Err(UnitOfWorkError::Persistence(PersistenceError::SerializationFailure)),
                Some((id, state)) => if !case_step(state, next) {
                    Err(UnitOfWorkError::Persistence(PersistenceError::ValidationFailure))
                } else if rec.schema_version == 0 {
                    Err(UnitOfWorkError::InvalidOperation)
                } else if expected.value == u64::MAX {
                    Err(UnitOfWorkError::Persistence(PersistenceError::Conflict))
                } else {
                    Ok((id, rec.schema_version, (expected.value + 1) as u64))
                },
            }
        },
    }
}

/// The conditional upsert that moves the stored case to `next`, given what
/// was read for it.
pub fn case_transition_write(case_ref: &ResourceRef, record: Option<ResourceRecord>, expected: Revision, next: CaseState) -> (r:
    Result<(ResourceWrite, Revision), UnitOfWorkError>)
    ensures
        match transition_outcome(record, expected, next) {
            Err(e) => r == Err::<(ResourceWrite, Revision), UnitOfWorkError>(e),
            Ok((id, schema, revision)) => r is Ok && r->Ok_0.0.resource_ref == *case_ref && r->Ok_0.0.schema_version
                == schema && r->Ok_0.0.mode == ResourceWriteMode::Upsert && r->Ok_0.0.expected_revision == Some(
                expected,
            ) && is_case_fields_json(r->Ok_0.0.payload, id, next) && r->Ok_0.1.value == revision,
        },
{
    let rec = match record {
        Some(rec) => rec,
        None => return Err(UnitOfWorkError::Persistence(PersistenceError::NotFound)),
    };
    if rec.revision != expected {
        return Err(UnitOfWorkError::Persistence(PersistenceError::Conflict));
    }
    let mut case = match Case::from_json(&rec.payload) {
        Some(c) => c,
        None => return Err(UnitOfWorkError::Persistence(PersistenceError::SerializationFailure)),
    };
    match case.transition(next) {
        Ok(()) => {},
        Err(_) => return Err(UnitOfWorkError::Persistence(PersistenceError::ValidationFailure)),
    }
    let write = match ResourceWrite::new(case_ref.duplicate(), rec.schema_version, case.to_json(), ResourceWriteMode::Upsert) {
        Ok(w) => w.with_expected_revision(expected),
        Err(e) => return Err(e),
    };
    let revision = match expected.next() {
        Ok(v) => v,
        Err(e) => return Err(UnitOfWorkError::Persistence(e)),
    };
    Ok((write, revision))
}

/// `event-<operation>-<revision>`.
pub open spec fn event_id_text(operation_id: Seq<char>, revision: u64) -> Seq<char> {
    "event-"@ + operation_id + "-"@ + decimal(revision as nat)
}

pub open spec fn empty_array(v: JsonValue) -> bool {
    v matches JsonValue::Array(items) && items@.len() == 0
}

/// The event record of a case command.
pub open spec fn is_case_event_json(
    v: JsonValue,
    event_id: Seq<char>,
    event_type: Seq<char>,
    case_id: Seq<char>,
    actor_id: Seq<char>,
    payload: JsonValue,
    correlation_id: Seq<char>,
) -> bool {
    v matches JsonValue::Object(ms) && ms@.len() == 12 && text_member(ms@[0], "event_id"@, event_id)
        && text_member(ms@[1], "event_type"@, event_type) && text_member(ms@[2], "aggregate_type"@, "case"@)
        && text_member(ms@[3], "aggregate_id"@, case_id) && text_member(ms@[4], "occurred_at"@, "service"@)
        && text_member(ms@[5], "actor_type"@, "user"@) && text_member(ms@[6], "actor_id"@, actor_id)
        && ms@[7].name@ == "schema_version"@ && ms@[7].value == JsonValue::UInt(1) && ms@[8].name@ == "payload"@
        && ms@[8].value == payload && ms@[9].name@ == "source_refs"@ && empty_array(ms@[9].value)
        && text_member(ms@[10], "correlation_id"@, correlation_id) && ms@[11].name@ == "causation_id"@
        && ms@[11].value == JsonValue::Null
}

/// The audit record of a case command.
pub open spec fn is_case_audit_json(
    v: JsonValue,
    operation_id: Seq<char>,
    actor_id: Seq<char>,
    event_type: Seq<char>,
    case_id: Seq<char>,
) -> bool {
    v matches JsonValue::Object(ms) && ms@.len() == 7 && text_member(ms@[0], "audit_id"@, "audit-"@ + operation_id)
        && text_member(ms@[1], "actor_id"@, actor_id) && text_member(ms@[2], "action"@, event_type)
        && text_member(ms@[3], "aggregate_type"@, "case"@) && text_member(ms@[4], "aggregate_id"@, case_id)
        && text_member(ms@[5], "occurred_at"@, "service"@) && text_member(ms@[6], "operation_id"@, operation_id)
}

/// The actor as a party reference, or null when there is no actor id.
pub open spec fn is_actor_json(v: JsonValue, actor_id: Seq<char>) -> bool {
    if actor_id.len() == 0 {
        v == JsonValue::Null
    } else {
        v matches JsonValue::Object(ms) && ms@.len() == 2 && text_member(ms@[0], "resource_type"@, "party"@)
            && text_member(ms@[1], "id"@, actor_id)
    }
}

/// `[{"resource_type": "case", "id": case_id}]`.
pub open spec fn is_case_ref_list(v: JsonValue, case_id: Seq<char>) -> bool {
    &&& v matches JsonValue::Array(items)
    &&& items@.len() == 1
    &&& items@[0] matches JsonValue::Object(rs)
    &&& rs@.len() == 2
    &&& text_member(rs@[0], "resource_type"@, "case"@)
    &&& text_member(rs@[1], "id"@, case_id)
}

/// The provenance record of a case command.
pub open spec fn is_case_provenance_json(
    v: JsonValue,
    operation_id: Seq<char>,
    actor_id: Seq<char>,
    event_type: Seq<char>,
    case_id: Seq<char>,
) -> bool {
    &&& v matches JsonValue::Object(ms)
    &&& ms@.len() == 6
    &&& text_member(ms@[0], "provenance_id"@, "provenance-"@ + operation_id)
    &&& ms@[1].name@ == "actor_ref"@
    &&& is_actor_json(ms@[1].value, actor_id)
    &&& ms@[2].name@ == "source_refs"@
    &&& empty_array(ms@[2].value)
    &&& ms@[3].name@ == "input_refs"@
    &&& is_case_ref_list(ms@[3].value, case_id)
    &&& text_member(ms@[4], "operation"@, event_type)
    &&& text_member(ms@[5], "occurred_at"@, "service"@)
}

fn empty_json_array() -> (r: JsonValue)
    ensures
        empty_array(r),
{
    JsonValue::Array(Vec::new())
}

/// `ws` are the event, audit and provenance writes of a case command, and
/// `event_id` the event's id.
pub open spec fn recorded_by(
    ws: Seq<ResourceWrite>,
    event_id: Seq<char>,
    case_id: Seq<char>,
    revision: Revision,
    event_type: Seq<char>,
    payload: JsonValue,
    actor_id: Seq<char>,
    correlation_id: Seq<char>,
    operation_id: Seq<char>,
) -> bool {
    &&& event_id == event_id_text(operation_id, revision.value)
    &&& ws.len() == 3
    &&& ws[0].resource_ref@ == (ResourceRefView { resource_type: ResourceType::Event, id: event_id })
    &&& ws[1].resource_ref@ == (ResourceRefView { resource_type: ResourceType::Audit, id: "audit-"@ + operation_id })
    &&& ws[2].resource_ref@ == (ResourceRefView {
        resource_type: ResourceType::Provenance,
        id: "provenance-"@ + operation_id,
    })
    &&& forall|k: int|
        0 <= k < 3 ==> (#[trigger] ws[k]).schema_version == 1 && ws[k].mode == ResourceWriteMode::Insert
            && ws[k].expected_revision is None
    &&& is_case_event_json(ws[0].payload, event_id, event_type, case_id, actor_id, payload, correlation_id)
    &&& is_case_audit_json(ws[1].payload, operation_id, actor_id, event_type, case_id)
    &&& is_case_provenance_json(ws[2].payload, operation_id, actor_id, event_type, case_id)
}

/// The event, audit and provenance writes that record a case command, and
/// the event's id.
pub fn case_record_writes(
    case_id: &Id,
    revision: Revision,
    event_type: &str,
    payload: JsonValue,
    actor_id: &Id,
    correlation_id: &Id,
    operation_id: &Id,
) -> (r: Result<(Vec<ResourceWrite>, Id), UnitOfWorkError>)
    ensures
        case_id@.len() == 0 ==> r == Err::<(Vec<ResourceWrite>, Id), UnitOfWorkError>(UnitOfWorkError::InvalidOperation),
        case_id@.len() > 0 ==> r is Ok && recorded_by(
            r->Ok_0.0@,
            r->Ok_0.1@,
            case_id@,
            revision,
            event_type@,
            payload,
            actor_id@,
            correlation_id@,
            operation_id@,
        ),
{
    if case_id.as_str().is_empty() {
        return Err(UnitOfWorkError::InvalidOperation);
    }
    let mut event_id = text_of("event-");
    push_str(&mut event_id, operation_id.as_str());
    push_str(&mut event_id, "-");
    push_decimal(&mut event_id, revision.value);
    proof {
        assert(event_id@ =~= event_id_text(operation_id@, revision.value));
    }
    let audit_id = concat("audit-", operation_id.as_str());
    let provenance_id = concat("provenance-", operation_id.as_str());

    let mut em: Vec<JsonMember> = Vec::new();
    em.push(member("event_id", text(event_id.as_str())));
    em.push(member("event_type", text(event_type)));
    em.push(member("aggregate_type", text("case")));
    em.push(member("aggregate_id", text(case_id.as_str())));
    em.push(member("occurred_at", text("service")));
    em.push(member("actor_type", text("user")));
    em.push(member("actor_id", text(actor_id.as_str())));
    em.push(member("schema_version", JsonValue::UInt(1)));
    em.push(member("payload", payload));
    em.push(member("source_refs", empty_json_array()));
    em.push(member("correlation_id", text(correlation_id.as_str())));
    em.push(member("causation_id", JsonValue::Null));
    let event_write = ResourceWrite {
        resource_ref: ResourceRef { resource_type: ResourceType::Event, id: event_id.clone() },
        schema_version: 1,
        payload: JsonValue::Object(em),
        mode: ResourceWriteMode::Insert,
        expected_revision: None,
    };

    let mut am: Vec<JsonMember> = Vec::new();
    am.push(member("audit_id", text(audit_id.as_str())));
    am.push(member("actor_id", text(actor_id.as_str())));
    am.push(member("action", text(event_type)));
    am.push(member("aggregate_type", text("case")));
    am.push(member("aggregate_id", text(case_id.as_str())));
    am.push(member("occurred_at", text("service")));
    am.push(member("operation_id", text(operation_id.as_str())));
    let audit_write = ResourceWrite {
        resource_ref: ResourceRef { resource_type: ResourceType::Audit, id: audit_id },
        schema_version: 1,
        payload: JsonValue::Object(am),
        mode: ResourceWriteMode::Insert,
        expected_revision: None,
    };

    let actor = if actor_id.as_str().is_empty() {
        JsonValue::Null
    } else {
        ref_json(&ResourceRef { resource_type: ResourceType::Party, id: actor_id.clone() })
    };
    let mut inputs: Vec<JsonValue> = Vec::new();
    inputs.push(ref_json(&ResourceRef { resource_type: ResourceType::Case, id: case_id.clone() }));
    let mut pm: Vec<JsonMember> = Vec::new();
    pm.push(member("provenance_id", text(provenance_id.as_str())));
    pm.push(member("actor_ref", actor));
    pm.push(member("source_refs", empty_json_array()));
    pm.push(member("input_refs", JsonValue::Array(inputs)));
    pm.push(member("operation", text(event_type)));
    pm.push(member("occurred_at", text("service")));
    let provenance_write = ResourceWrite {
        resource_ref: ResourceRef { resource_type: ResourceType::Provenance, id: provenance_id },
        schema_version: 1,
        payload: JsonValue::Object(pm),
        mode: ResourceWriteMode::Insert,
        expected_revision: None,
    };
    proof {
        reveal_strlit("party");
        reveal_strlit("case");
    }
    let mut ws: Vec<ResourceWrite> = Vec::new();
    ws.push(event_write);
    ws.push(audit_write);
    ws.push(provenance_write);
    Ok((ws, event_id))
}

/// The id of the case that a command addresses.
pub open spec fn command_case_id(command: CaseCommand) -> Seq<char> {
    match command {
        CaseCommand::Create { case } => case.case_id@,
        CaseCommand::Transition { case_id, .. } => case_id@,
    }
}

/// What a successful case command answers: the case it addresses, the
/// revision it wrote (the initial one on creation, the next after the
/// expected one on a transition) and the event of that revision.
pub open spec fn case_command_answer(operation_id: Seq<char>, command: CaseCommand, result: CommandResult) -> bool {
    &&& result.case_id@ == command_case_id(command)
    &&& result.event_id@ == event_id_text(operation_id, result.revision.value)
    &&& match command {
        CaseCommand::Create { .. } => result.revision.value == 0,
        CaseCommand::Transition { expected_revision, .. } => result.revision.value == expected_revision.value + 1,
    }
}

/// The event type that records a case command.
pub open spec fn case_event_type(command: CaseCommand) -> Seq<char> {
    match command {
        CaseCommand::Create { .. } => "case.created"@,
        CaseCommand::Transition { .. } => "case.transition"@,
    }
}

/// `w` is the write of the case itself: an insert of the new case, or an
/// upsert conditional on the expected revision.
pub open spec fn case_change(command: CaseCommand, w: ResourceWrite) -> bool {
    &&& w.resource_ref@ == (ResourceRefView { resource_type: ResourceType::Case, id: command_case_id(command) })
    &&& match command {
        CaseCommand::Create { case } => w.mode == ResourceWriteMode::Insert && w.expected_revision is None
            && is_case_fields_json(w.payload, case.case_id@, case.state),
        CaseCommand::Transition { expected_revision, .. } => w.mode == ResourceWriteMode::Upsert
            && w.expected_revision == Some(expected_revision),
    }
}

/// `after` is `before` followed by the writes of a case command: the case
/// change, then the event, audit record and provenance that record it.
pub open spec fn case_command_writes(
    before: Seq<ResourceWrite>,
    after: Seq<ResourceWrite>,
    command: CaseCommand,
    result: CommandResult,
    actor_id: Seq<char>,
    correlation_id: Seq<char>,
    operation_id: Seq<char>,
) -> bool {
    exists|w: ResourceWrite, ws: Seq<ResourceWrite>, payload: JsonValue|
        after == before.push(w) + ws && #[trigger] case_change(command, w) && #[trigger] recorded_by(
            ws,
            result.event_id@,
            command_case_id(command),
            result.revision,
            case_event_type(command),
            payload,
            actor_id,
            correlation_id,
            operation_id,
        )
}

/// Writes the case change, then its event, audit record and provenance, in
/// one unit of work context.
pub(crate) fn execute_case_command<C: UnitOfWorkContext>(
    uow: &mut C,
    plan: &AtomicCommandPlan,
    actor_id: Id,
    correlation_id: Id,
    operation_id: Id,
    command: CaseCommand,
) -> (r: Result<CommandResult, UnitOfWorkError>)
    ensures
        r is Ok ==> case_command_answer(operation_id@, command, r->Ok_0),
        r is Ok ==> final(uow).linked() == old(uow).linked() && case_command_writes(
            old(uow).written(),
            final(uow).written(),
            command,
            r->Ok_0,
            actor_id@,
            correlation_id@,
            operation_id@,
        ),
        command_case_id(command).len() == 0 ==> r == Err::<CommandResult, UnitOfWorkError>(
            UnitOfWorkError::InvalidOperation,
        ) && *final(uow) == *old(uow),
{
    let ghost command0 = command;
    let ghost mut w0: ResourceWrite = arbitrary();
    let (case_id, revision, event_type, payload) = match command {
        CaseCommand::Create { case } => {
            let write = match case_create_write(&case) {
                Ok(w) => w,
                Err(e) => return Err(e),
            };
            proof {
                w0 = write;
            }
            match uow.write_resource(write) {
                Ok(()) => {},
                Err(e) => return Err(e),
            }
            let payload = case.state.to_json();
            (case.case_id, Revision::initial(), "case.created", payload)
        },
        CaseCommand::Transition { case_id, expected_revision, next } => {
            if case_id.as_str().is_empty() {
                return Err(UnitOfWorkError::InvalidOperation);
            }
            let case_ref = ResourceRef { resource_type: ResourceType::Case, id: case_id.clone() };
            let record = match uow.read_resource(&case_ref) {
                Ok(r) => r,
                Err(e) => return Err(e),
            };
            let (write, revision) = match case_transition_write(&case_ref, record, expected_revision, next.duplicate()) {
                Ok(pair) => pair,
                Err(e) => return Err(e),
            };
            proof {
                w0 = write;
            }
            match uow.write_resource(write) {
                Ok(()) => {},
                Err(e) => return Err(e),
            }
            (case_id, revision, "case.transition", next.to_json())
        },
    };
    let (writes, event_id) = match case_record_writes(
        &case_id,
        revision,
        event_type,
        payload,
        &actor_id,
        &correlation_id,
        &operation_id,
    ) {
        Ok(pair) => pair,
        Err(e) => return Err(e),
    };
    let mut writes = writes;
    let ghost ws0 = writes@;
    let ghost done = old(uow).written().push(w0);
    while writes.len() > 0
        invariant
            command_case_id(command).len() > 0,
            writes@.len() <= ws0.len(),
            writes@ == ws0.subrange(ws0.len() - writes@.len(), ws0.len() as int),
            uow.written() == done + ws0.subrange(0, ws0.len() - writes@.len()),
            uow.linked() == old(uow).linked(),
        decreases writes@.len(),
    {
        let ghost before = writes@;
        let ghost mark = uow.written();
        let w = writes.remove(0);
        proof {
            assert(w == ws0[ws0.len() - before.len()]);
            assert(writes@ =~= ws0.subrange(ws0.len() - writes@.len(), ws0.len() as int));
        }
        match uow.write_resource(w) {
            Ok(()) => {},
            Err(e) => return Err(e),
        }
        proof {
            assert(ws0.subrange(0, ws0.len() - writes@.len()) =~= ws0.subrange(0, ws0.len() - before.len()).push(w));
            assert(uow.written() =~= done + ws0.subrange(0, ws0.len() - writes@.len()));
        }
    }
    let r = CommandResult { case_id, revision, event_id };
    proof {
        assert(ws0.subrange(0, ws0.len() as int) =~= ws0);
        assert(recorded_by(
            ws0,
            r.event_id@,
            command_case_id(command),
            r.revision,
            case_event_type(command),
            payload,
            actor_id@,
            correlation_id@,
            operation_id@,
        ));
        assert(uow.written() == old(uow).written().push(w0) + ws0);
        assert(case_change(command, w0));
        assert(case_command_writes(
            old(uow).written(),
            uow.written(),
            command,
            r,
            actor_id@,
            correlation_id@,
            operation_id@,
        ));
    }
    Ok(r)
}

// ----- authorization of a command -----

/// The resource and the action that a command needs authorization for.
pub open spec fn command_target_spec(command: CaseCommand) -> Result<(ResourceRefView, ResourceRefView), ServiceError> {
    match command {
        CaseCommand::Create { case } => if case.case_id@.len() == 0 {
            Err(ServiceError::InvalidInput)
        } else {
            Ok((
                ResourceRefView { resource_type: ResourceType::Case, id: case.case_id@ },
                ResourceRefView { resource_type: ResourceType::Action, id: "case.create"@ },
            ))
        },
        CaseCommand::Transition { case_id, .. } => if case_id@.len() == 0 {
            Err(ServiceError::InvalidInput)
        } else {
            Ok((
                ResourceRefView { resource_type: ResourceType::Case, id: case_id@ },
                ResourceRefView { resource_type: ResourceType::Action, id: "case.transition"@ },
            ))
        },
    }
}

fn command_target(command: &CaseCommand) -> (r: Result<(ResourceRef, ResourceRef), ServiceError>)
    ensures
        match command_target_spec(*command) {
            Err(e) => r == Err::<(ResourceRef, ResourceRef), ServiceError>(e),
            Ok((c, a)) => r is Ok && r->Ok_0.0@ == c && r->Ok_0.1@ == a,
        },
{
    match command {
        CaseCommand::Create { case } => {
            if case.case_id.as_str().is_empty() {
                return Err(ServiceError::InvalidInput);
            }
            Ok((
                ResourceRef { resource_type: ResourceType::Case, id: case.case_id.clone() },
                ResourceRef { resource_type: ResourceType::Action, id: text_of("case.create") },
            ))
        },
        CaseCommand::Transition { case_id, .. } => {
            if case_id.as_str().is_empty() {
                return Err(ServiceError::InvalidInput);
            }
            Ok((
                ResourceRef { resource_type: ResourceType::Case, id: case_id.clone() },
                ResourceRef { resource_type: ResourceType::Action, id: text_of("case.transition") },
            ))
        },
    }
}

/// Whether the context's evaluated authorization allows this command: it
/// allows, is complete, names this actor, action, resource, purpose,
/// jurisdiction and data class, was evaluated no later than now and has not
/// expired.
pub open spec fn command_authorization(c: CommandContext, resource: ResourceRefView, action: ResourceRefView) -> Result<
    (),
    ServiceError,
> {
    let a = c.authorization;
    if a.decision != AuthorizationDecision::Allow {
        Err(ServiceError::AuthorizationDenied)
    } else if a.authorization_ref.id@.len() == 0 || a.request_id@.len() == 0 || a.subject_ref.id@.len() == 0
        || a.action.id@.len() == 0 || a.resource_ref.id@.len() == 0 || a.purpose@.len() == 0 {
        Err(ServiceError::AuthorizationInvalid)
    } else if c.actor_id@.len() == 0 {
        Err(ServiceError::AuthorizationInvalid)
    } else if a.subject_ref@ != (ResourceRefView { resource_type: ResourceType::Party, id: c.actor_id@ })
        || a.action@ != action || a.resource_ref@ != resource || a.purpose@ != c.purpose@ || opt_ref_view(
        a.jurisdiction_ref,
    ) != opt_ref_view(c.jurisdiction_ref) || opt_text_view(a.data_class) != opt_text_view(c.requested_data_class) {
        Err(ServiceError::AuthorizationMismatch)
    } else if c.now_epoch_seconds < a.evaluated_at_epoch_seconds {
        Err(ServiceError::AuthorizationInvalid)
    } else if a.expires_at_epoch_seconds is Some && c.now_epoch_seconds > a.expires_at_epoch_seconds->0 {
        Err(ServiceError::AuthorizationExpired)
    } else {
        Ok(())
    }
}

fn validate_authorization(c: &CommandContext, resource: &ResourceRef, action: &ResourceRef) -> (r: Result<(), ServiceError>)
    ensures
        r == command_authorization(*c, resource@, action@),
{
    let a = &c.authorization;
    match a.decision {
        AuthorizationDecision::Allow => {},
        _ => return Err(ServiceError::AuthorizationDenied),
    }
    if a.authorization_ref.id.as_str().is_empty() || a.request_id.as_str().is_empty() || a.subject_ref.id.as_str().is_empty()
        || a.action.id.as_str().is_empty() || a.resource_ref.id.as_str().is_empty() || a.purpose.as_str().is_empty() {
        return Err(ServiceError::AuthorizationInvalid);
    }
    if c.actor_id.as_str().is_empty() {
        return Err(ServiceError::AuthorizationInvalid);
    }
    let subject_matches = a.subject_ref.resource_type == ResourceType::Party && str_eq(
        a.subject_ref.id.as_str(),
        c.actor_id.as_str(),
    );
    if !subject_matches || !a.action.same(action) || !a.resource_ref.same(resource) || !str_eq(
        a.purpose.as_str(),
        c.purpose.as_str(),
    ) || !crate::resource::opt_ref_eq(&a.jurisdiction_ref, &c.jurisdiction_ref) || !crate::resource::opt_text_eq(
        &a.data_class,
        &c.requested_data_class,
    ) {
        return Err(ServiceError::AuthorizationMismatch);
    }
    if c.now_epoch_seconds < a.evaluated_at_epoch_seconds {
        return Err(ServiceError::AuthorizationInvalid);
    }
    match a.expires_at_epoch_seconds {
        Some(e) => {
            if c.now_epoch_seconds > e {
                return Err(ServiceError::AuthorizationExpired);
            }
        },
        None => {},
    }
    Ok(())
}

/// The checks before anything is written: a target, an authorization for
/// it, and an operation id.
pub open spec fn command_gate(c: CommandContext, command: CaseCommand) -> Result<(), ServiceError> {
    match command_target_spec(command) {
        Err(e) => Err(e),
        Ok((resource, action)) => match command_authorization(c, resource, action) {
            Err(e) => Err(e),
            Ok(()) => if is_blank(c.operation_id@) {
                Err(ServiceError::InvalidInput)
            } else {
                Ok(())
            },
        },
    }
}

/// An error that reading or writing the storage reported: a duplicate
/// operation among them.
pub open spec fn storage_failure(e: ServiceError) -> bool {
    e is Conflict || e is Duplicate || e is Persistence || e is RollbackFailure || e is InvalidInput
}

/// Whether the idempotency marker of `operation_id` is already stored; the
/// unit of work that reads it is rolled back.
fn operation_recorded<F: UnitOfWorkFactory>(factory: &mut F, operation_id: &Id) -> (r: Result<bool, ServiceError>)
    ensures
        r is Err ==> storage_failure(r->Err_0),
{
    let mut uow = match factory.begin() {
        Ok(u) => u,
        Err(e) => return Err(service_error(AuthoritativeCommandError::Persistence(e))),
    };
    let marker = ResourceRef { resource_type: ResourceType::Idempotency, id: operation_id.clone() };
    let found = uow.execute(
        |context: &mut <F::Uow as crate::persistence::UnitOfWork>::Context| -> (o: Result<bool, UnitOfWorkError>)
        {
            match context.read_resource(&marker) {
                Ok(record) => Ok(record.is_some()),
                Err(e) => Err(e),
            }
        },
    );
    let rollback = uow.rollback();
    match (found, rollback) {
        (Ok(b), Ok(())) => Ok(b),
        (Err(e), rollback) => Err(service_error(crate::command::settle_failure(e, rollback))),
        (Ok(_), Err(e)) => Err(service_error(AuthoritativeCommandError::Persistence(e))),
    }
}

// ----- the service -----

pub struct CaseService<'a, F> {
    factory: &'a mut F,
}

impl<'a, F: UnitOfWorkFactory> CaseService<'a, F> {
    /// The storage that commands are executed in.
    pub closed spec fn factory_state(&self) -> F {
        *self.factory
    }

    pub fn new(factory: &'a mut F) -> (r: Self)
        ensures
            r.factory_state() == *old(factory),
    {
        CaseService { factory }
    }

    /// Authorizes the command against the context, then runs it with its
    /// idempotency marker in one unit of work. Nothing is written when the
    /// command or its authorization is refused.
    pub fn execute(&mut self, context: CommandContext, command: CaseCommand) -> (r: Result<CommandResult, ServiceError>)
        ensures
            command_target_spec(command) is Err ==> r == Err::<CommandResult, ServiceError>(ServiceError::InvalidInput)
                && final(self).factory_state() == old(self).factory_state(),
            command_target_spec(command) is Ok && is_blank(context.operation_id@) && command_gate(context, command) is Err
                ==> r == Err::<CommandResult, ServiceError>(command_gate(context, command)->Err_0)
                && final(self).factory_state() == old(self).factory_state(),
            command_gate(context, command) is Err ==> r is Err && (r->Err_0 == command_gate(context, command)->Err_0
                || storage_failure(r->Err_0)),
            r is Ok ==> command_gate(context, command) is Ok && case_command_answer(context.operation_id@, command, r->Ok_0),
    {
        let (case_ref, action_ref) = match command_target(&command) {
            Ok(pair) => pair,
            Err(e) => return Err(e),
        };
        if !str_is_blank(context.operation_id.as_str()) {
            match operation_recorded(self.factory, &context.operation_id) {
                Ok(false) => {},
                Ok(true) => return Err(ServiceError::Duplicate),
                Err(e) => return Err(e),
            }
        }
        match validate_authorization(&context, &case_ref, &action_ref) {
            Ok(()) => {},
            Err(e) => return Err(e),
        }
        let mut plan = match AtomicCommandPlan::new(context.operation_id.clone()) {
            Ok(p) => p,
            Err(_) => return Err(ServiceError::InvalidInput),
        };
        match plan.claim_operation() {
            Ok(()) => {},
            Err(_) => return Err(ServiceError::InvalidInput),
        }
        let actor_id = context.actor_id;
        let correlation_id = context.correlation_id;
        let operation_id = context.operation_id;
        let ghost operation = operation_id@;
        let ghost addressed = command;
        let build = move |uow: &mut <F::Uow as crate::persistence::UnitOfWork>::Context, plan: &AtomicCommandPlan| -> (o:
            Result<CommandResult, UnitOfWorkError>)
            ensures
                o is Ok ==> case_command_answer(operation, addressed, o->Ok_0),
        { execute_case_command(uow, plan, actor_id, correlation_id, operation_id, command) };
        match execute_authoritative_command(self.factory, plan, build) {
            Ok(result) => {
                proof {
                    let c = choose|c: &mut <F::Uow as crate::persistence::UnitOfWork>::Context| #[trigger]
                        build.ensures((c, &plan), Ok::<CommandResult, UnitOfWorkError>(result));
                    assert(build.ensures((c, &plan), Ok::<CommandResult, UnitOfWorkError>(result)));
                }
                Ok(result)
            },
            Err(e) => Err(service_error(e)),
        }
    }
}

} // verus!
