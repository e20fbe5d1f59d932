//! Provider-neutral persistence contracts: schema-versioned records with
//! revisions, typed links between resources, idempotency claims and units of
//! work.
use vstd::prelude::*;
use crate::case::Case;
use crate::event::EventEnvelope;
use crate::incident::Incident;
use crate::json::JsonValue;
use crate::resource::{Id, ResourceRef, ResourceRefView};
use crate::text::{str_is_blank, is_blank, text_of};

verus! {

#[derive(Debug, Clone, Copy, PartialEq, Eq, Structural)]
pub enum PersistenceError {
    Unavailable,
    Timeout,
    Conflict,
    IntegrityFailure,
    AuthorizationFailure,
    ValidationFailure,
    SerializationFailure,
    UnsupportedSchemaVersion,
    NotFound,
    Duplicate,
    IdempotencyAlreadyClaimed,
    RetentionBlocked,
}

#[derive(Debug, Clone, Copy, PartialEq, Eq, Structural)]
pub enum UnitOfWorkError {
    Persistence(PersistenceError),
    InvalidOperation,
}

impl From<PersistenceError> for UnitOfWorkError {
    fn from(value: PersistenceError) -> (r: Self) {
        UnitOfWorkError::Persistence(value)
    }
}

impl vstd::std_specs::convert::FromSpecImpl<PersistenceError> for UnitOfWorkError {
    open spec fn obeys_from_spec() -> bool {
        true
    }

    open spec fn from_spec(v: PersistenceError) -> Self {
        UnitOfWorkError::Persistence(v)
    }
}

/// Lifecycle of an operation guarded by an idempotency claim.
#[derive(Debug, Clone, Copy, PartialEq, Eq, Structural)]
pub enum IdempotencyState {
    Claimed,
    InProgress,
    Completed,
    Failed,
    Unknown,
}

#[derive(Debug, Clone, Copy, PartialEq, Eq, Structural)]
pub enum IdempotencyClaim {
    Claimed,
    AlreadyClaimed,
}

/// Durable claims on operation ids; implemented by each storage provider.
pub trait IdempotencyStore {
    /// The operation ids claimed so far; an implementation defines it, and
    /// is left unspecified where it does not.
    closed spec fn claimed_ids(&self) -> Set<Seq<char>> {
        arbitrary()
    }

    /// The recorded execution state of each operation id, for a store that
    /// keeps one (see `IdempotencyLifecycleStore`): a claim leaves it as it
    /// is, a mark sets one id's state and leaves the claims as they are, and
    /// a failed mark changes nothing. An implementation defines it, and is
    /// left unspecified where it does not.
    closed spec fn states(&self) -> Map<Seq<char>, IdempotencyState> {
        arbitrary()
    }

    /// Whether `operation_id` was claimed.
    fn lookup(&self, operation_id: &Id) -> (r: Result<bool, PersistenceError>)
        ensures
            r matches Ok(b) ==> b == self.claimed_ids().contains(operation_id@),
    ;

    /// Claims `operation_id`: the first claim of an id is `Claimed`, every
    /// later one `AlreadyClaimed`.
    fn claim(&mut self, operation_id: Id) -> (r: Result<IdempotencyClaim, PersistenceError>)
        ensures
            r is Ok ==> final(self).claimed_ids() == old(self).claimed_ids().insert(operation_id@),
            r matches Ok(c) ==> (c == IdempotencyClaim::Claimed <==> !old(self).claimed_ids().contains(operation_id@)),
            final(self).states() == old(self).states(),
    ;
}

/// Durable execution state layered on the claim semantics; implemented by
/// each storage provider.
pub trait IdempotencyLifecycleStore: IdempotencyStore {
    fn state(&self, operation_id: &Id) -> (r: Result<Option<IdempotencyState>, PersistenceError>)
        ensures
            r matches Ok(s) ==> s == (if self.states().contains_key(operation_id@) {
                Some(self.states()[operation_id@])
            } else {
                None
            }),
    ;

    fn mark_in_progress(&mut self, operation_id: &Id) -> (r: Result<(), PersistenceError>)
        ensures
            final(self).claimed_ids() == old(self).claimed_ids(),
            r is Ok ==> final(self).states() == old(self).states().insert(operation_id@, IdempotencyState::InProgress),
            r is Err ==> final(self).states() == old(self).states(),
    ;

    fn mark_completed(&mut self, operation_id: &Id) -> (r: Result<(), PersistenceError>)
        ensures
            final(self).claimed_ids() == old(self).claimed_ids(),
            r is Ok ==> final(self).states() == old(self).states().insert(operation_id@, IdempotencyState::Completed),
            r is Err ==> final(self).states() == old(self).states(),
    ;

    fn mark_failed(&mut self, operation_id: &Id) -> (r: Result<(), PersistenceError>)
        ensures
            final(self).claimed_ids() == old(self).claimed_ids(),
            r is Ok ==> final(self).states() == old(self).states().insert(operation_id@, IdempotencyState::Failed),
            r is Err ==> final(self).states() == old(self).states(),
    ;

    fn mark_unknown(&mut self, operation_id: &Id) -> (r: Result<(), PersistenceError>)
        ensures
            final(self).claimed_ids() == old(self).claimed_ids(),
            r is Ok ==> final(self).states() == old(self).states().insert(operation_id@, IdempotencyState::Unknown),
            r is Err ==> final(self).states() == old(self).states(),
    ;
}

#[derive(Debug, Clone, Copy, PartialEq, Eq, Structural)]
pub enum ResourceWriteMode {
    Insert,
    Upsert,
}

/// Optimistic-concurrency revision of a persisted record.
#[derive(Debug, Clone, Copy, PartialEq, Eq, Structural)]
pub struct Revision {
    pub value: u64,
}

impl Revision {
    pub fn initial() -> (r: Self)
        ensures
            r.value == 0,
    {
        Revision { value: 0 }
    }

    /// The following revision; a revision that cannot grow is a conflict.
    pub fn next(self) -> (r: Result<Self, PersistenceError>)
        ensures
            self.value < u64::MAX ==> r == Ok::<Self, PersistenceError>(Revision { value: (self.value + 1) as u64 }),
            self.value == u64::MAX ==> r == Err::<Self, PersistenceError>(PersistenceError::Conflict),
    {
        match self.value.checked_add(1) {
            Some(value) => Ok(Revision { value }),
            None => Err(PersistenceError::Conflict),
        }
    }
}

/// A write of one resource inside a unit of work.
#[derive(Debug, Clone, PartialEq, Eq)]
pub struct ResourceWrite {
    pub resource_ref: ResourceRef,
    pub schema_version: u16,
    pub payload: JsonValue,
    pub mode: ResourceWriteMode,
    pub expected_revision: Option<Revision>,
}

impl ResourceWrite {
    /// A write without an expected revision; the schema version must be positive.
    pub fn new(resource_ref: ResourceRef, schema_version: u16, payload: JsonValue, mode: ResourceWriteMode) -> (r:
        Result<Self, UnitOfWorkError>)
        ensures
            schema_version == 0 ==> r == Err::<Self, UnitOfWorkError>(UnitOfWorkError::InvalidOperation),
            schema_version != 0 ==> r == Ok::<Self, UnitOfWorkError>(
                ResourceWrite { resource_ref, schema_version, payload, mode, expected_revision: None },
            ),
    {
        if schema_version == 0 {
            return Err(UnitOfWorkError::InvalidOperation);
        }
        Ok(ResourceWrite { resource_ref, schema_version, payload, mode, expected_revision: None })
    }

    /// `self` and `other` write the same payload to the same resource in the
    /// same way.
    pub open spec fn same_as(&self, other: ResourceWrite) -> bool {
        &&& self.resource_ref == other.resource_ref
        &&& self.schema_version == other.schema_version
        &&& self.payload@ == other.payload@
        &&& self.mode == other.mode
        &&& self.expected_revision == other.expected_revision
    }

    /// A copy of the write.
    pub fn duplicate(&self) -> (r: ResourceWrite)
        ensures
            r.same_as(*self),
    {
        ResourceWrite {
            resource_ref: self.resource_ref.duplicate(),
            schema_version: self.schema_version,
            payload: self.payload.duplicate(),
            mode: self.mode,
            expected_revision: self.expected_revision,
        }
    }

    /// The same write, made conditional on `revision`.
    pub fn with_expected_revision(self, revision: Revision) -> (r: Self)
        ensures
            r == (ResourceWrite { expected_revision: Some(revision), ..self }),
    {
        let mut w = self;
        w.expected_revision = Some(revision);
        w
    }
}

/// A persisted resource as read back.
#[derive(Debug, Clone, PartialEq, Eq)]
pub struct ResourceRecord {
    pub resource_ref: ResourceRef,
    pub schema_version: u16,
    pub revision: Revision,
    pub payload: JsonValue,
}

/// Semantic class of a link between resources. `Legacy` stands for the
/// class-less representation and never means any of the others.
#[derive(Debug, Clone, Copy, PartialEq, Eq, Structural)]
pub enum ResourceLinkClass {
    Strong,
    Forward,
    External,
    Legacy,
}

#[derive(Debug, Clone, PartialEq, Eq)]
pub struct ResourceLink {
    pub source_ref: ResourceRef,
    pub relation: String,
    pub target_ref: ResourceRef,
    /// `None` for a link without a class.
    pub class: Option<ResourceLinkClass>,
}

impl ResourceLink {
    /// The link that `new_with_class` builds: a blank relation is refused,
    /// and `Legacy` is stored as no class at all.
    pub open spec fn linking(
        source_ref: ResourceRef,
        relation: Seq<char>,
        target_ref: ResourceRef,
        class: ResourceLinkClass,
    ) -> Result<(ResourceRefView, Seq<char>, ResourceRefView, Option<ResourceLinkClass>), UnitOfWorkError> {
        if is_blank(relation) {
            Err(UnitOfWorkError::InvalidOperation)
        } else {
            Ok((
                source_ref@,
                relation,
                target_ref@,
                if class == ResourceLinkClass::Legacy { None } else { Some(class) },
            ))
        }
    }

    pub open spec fn parts(&self) -> (ResourceRefView, Seq<char>, ResourceRefView, Option<ResourceLinkClass>) {
        (self.source_ref@, self.relation@, self.target_ref@, self.class)
    }

    /// A copy of the link.
    pub fn duplicate(&self) -> (r: ResourceLink)
        ensures
            r.parts() == self.parts(),
    {
        ResourceLink {
            source_ref: self.source_ref.duplicate(),
            relation: self.relation.clone(),
            target_ref: self.target_ref.duplicate(),
            class: self.class,
        }
    }

    /// A link without a class; it is never taken as a strong one.
    pub fn new(source_ref: ResourceRef, relation: &str, target_ref: ResourceRef) -> (r: Result<Self, UnitOfWorkError>)
        ensures
            r matches Ok(l) ==> Self::linking(source_ref, relation@, target_ref, ResourceLinkClass::Legacy) == Ok::<(ResourceRefView, Seq<char>, ResourceRefView, Option<ResourceLinkClass>), UnitOfWorkError>(l.parts()),
            r is Err ==> r == Err::<Self, UnitOfWorkError>(UnitOfWorkError::InvalidOperation),
            (r is Ok) <==> Self::linking(source_ref, relation@, target_ref, ResourceLinkClass::Legacy) is Ok,
    {
        Self::new_with_class(source_ref, relation, target_ref, ResourceLinkClass::Legacy)
    }

    pub fn new_with_class(source_ref: ResourceRef, relation: &str, target_ref: ResourceRef, class: ResourceLinkClass) -> (r:
        Result<Self, UnitOfWorkError>)
        ensures
            r matches Ok(l) ==> Self::linking(source_ref, relation@, target_ref, class) == Ok::<(ResourceRefView, Seq<char>, ResourceRefView, Option<ResourceLinkClass>), UnitOfWorkError>(l.parts()),
            r is Err ==> r == Err::<Self, UnitOfWorkError>(UnitOfWorkError::InvalidOperation),
            (r is Ok) <==> Self::linking(source_ref, relation@, target_ref, class) is Ok,
    {
        if str_is_blank(relation) {
            return Err(UnitOfWorkError::InvalidOperation);
        }
        let relation = text_of(relation);
        let class = match class {
            ResourceLinkClass::Legacy => None,
            other => Some(other),
        };
        Ok(ResourceLink { source_ref, relation, target_ref, class })
    }

    /// A link whose target must resolve inside the resource graph.
    pub fn strong(source_ref: ResourceRef, relation: &str, target_ref: ResourceRef) -> (r: Result<Self, UnitOfWorkError>)
        ensures
            r matches Ok(l) ==> Self::linking(source_ref, relation@, target_ref, ResourceLinkClass::Strong) == Ok::<(ResourceRefView, Seq<char>, ResourceRefView, Option<ResourceLinkClass>), UnitOfWorkError>(l.parts()),
            (r is Ok) <==> Self::linking(source_ref, relation@, target_ref, ResourceLinkClass::Strong) is Ok,
            r is Err ==> r == Err::<Self, UnitOfWorkError>(UnitOfWorkError::InvalidOperation),
    {
        Self::new_with_class(source_ref, relation, target_ref, ResourceLinkClass::Strong)
    }

    /// A link whose target may be created later.
    pub fn forward(source_ref: ResourceRef, relation: &str, target_ref: ResourceRef) -> (r: Result<Self, UnitOfWorkError>)
        ensures
            r matches Ok(l) ==> Self::linking(source_ref, relation@, target_ref, ResourceLinkClass::Forward) == Ok::<(ResourceRefView, Seq<char>, ResourceRefView, Option<ResourceLinkClass>), UnitOfWorkError>(l.parts()),
            (r is Ok) <==> Self::linking(source_ref, relation@, target_ref, ResourceLinkClass::Forward) is Ok,
            r is Err ==> r == Err::<Self, UnitOfWorkError>(UnitOfWorkError::InvalidOperation),
    {
        Self::new_with_class(source_ref, relation, target_ref, ResourceLinkClass::Forward)
    }

    /// A link whose target lies outside the resource graph.
    pub fn external(source_ref: ResourceRef, relation: &str, target_ref: ResourceRef) -> (r: Result<Self, UnitOfWorkError>)
        ensures
            r matches Ok(l) ==> Self::linking(source_ref, relation@, target_ref, ResourceLinkClass::External) == Ok::<(ResourceRefView, Seq<char>, ResourceRefView, Option<ResourceLinkClass>), UnitOfWorkError>(l.parts()),
            (r is Ok) <==> Self::linking(source_ref, relation@, target_ref, ResourceLinkClass::External) is Ok,
            r is Err ==> r == Err::<Self, UnitOfWorkError>(UnitOfWorkError::InvalidOperation),
    {
        Self::new_with_class(source_ref, relation, target_ref, ResourceLinkClass::External)
    }

    pub fn semantic_class(&self) -> (r: Option<ResourceLinkClass>)
        ensures
            r == self.class,
    {
        self.class
    }
}

/// A value stored with its schema version and revision.
#[derive(Debug, Clone, PartialEq, Eq)]
pub struct Persisted<T> {
    pub schema_version: u16,
    pub revision: Revision,
    pub value: T,
}

impl<T> Persisted<T> {
    /// A first revision of `value`; the schema version must be positive.
    pub fn new(schema_version: u16, value: T) -> (r: Result<Self, PersistenceError>)
        ensures
            schema_version == 0 ==> r == Err::<Self, PersistenceError>(PersistenceError::ValidationFailure),
            schema_version != 0 ==> r == Ok::<Self, PersistenceError>(
                Persisted { schema_version, revision: Revision { value: 0 }, value },
            ),
    {
        if schema_version == 0 {
            return Err(PersistenceError::ValidationFailure);
        }
        Ok(Persisted { schema_version, revision: Revision::initial(), value })
    }
}

/// Storage of cases; implemented by each storage provider.
pub trait CaseStore {
    fn get_case(&self, id: &Id) -> Result<Option<Persisted<Case>>, PersistenceError>;

    fn create_case(&mut self, value: Persisted<Case>) -> Result<(), PersistenceError>;

    fn update_case(&mut self, id: &Id, expected_revision: Revision, value: Case) -> Result<Revision, PersistenceError>;
}

/// Storage of incidents; implemented by each storage provider.
pub trait IncidentStore {
    fn get_incident(&self, id: &Id) -> Result<Option<Persisted<Incident>>, PersistenceError>;

    fn create_incident(&mut self, value: Persisted<Incident>) -> Result<(), PersistenceError>;

    fn update_incident(&mut self, id: &Id, expected_revision: Revision, value: Incident) -> Result<Revision, PersistenceError>;
}

/// Append-only storage of domain events; implemented by each storage provider.
pub trait EventStore {
    fn get_event(&self, id: &Id) -> Result<Option<Persisted<EventEnvelope>>, PersistenceError>;

    fn append_event(&mut self, value: Persisted<EventEnvelope>) -> Result<(), PersistenceError>;
}

/// An atomic boundary; implemented by each storage provider.
pub trait Transaction: Sized {
    fn commit(self) -> Result<(), PersistenceError>;

    fn rollback(self) -> Result<(), PersistenceError>;
}

pub trait TransactionFactory {
    type Tx: Transaction;

    fn begin(&mut self) -> Result<Self::Tx, PersistenceError>;
}

/// Reads and writes inside a unit of work; reads see the same transaction
/// as the writes that follow them.
pub trait UnitOfWorkContext {
    /// The writes that the context accepted, in order; an implementation
    /// defines it, and is left unspecified where it does not.
    closed spec fn written(&self) -> Seq<ResourceWrite> {
        arbitrary()
    }

    /// The links that the context accepted, in order; an implementation
    /// defines it, and is left unspecified where it does not.
    closed spec fn linked(&self) -> Seq<ResourceLink> {
        arbitrary()
    }

    /// Reads the record of `resource_ref`, if any; a read accepts no write or
    /// link.
    fn read_resource(&mut self, resource_ref: &ResourceRef) -> (r: Result<Option<ResourceRecord>, UnitOfWorkError>)
        ensures
            r matches Ok(Some(record)) ==> record.resource_ref@ == resource_ref@,
            final(self).written() == old(self).written(),
            final(self).linked() == old(self).linked(),
    ;

    /// Writes a record; an accepted write is appended to `written`.
    fn write_resource(&mut self, write: ResourceWrite) -> (r: Result<(), UnitOfWorkError>)
        ensures
            r is Ok ==> final(self).written() == old(self).written().push(write),
            r is Ok ==> final(self).linked() == old(self).linked(),
    ;

    /// Links two records; an accepted link is appended to `linked`.
    fn link_resources(&mut self, link: ResourceLink) -> (r: Result<(), UnitOfWorkError>)
        ensures
            r is Ok ==> final(self).linked() == old(self).linked().push(link),
            r is Ok ==> final(self).written() == old(self).written(),
    ;
}

/// The atomic boundary of a workflow that spans several resources.
pub trait UnitOfWork: Sized {
    type Context: UnitOfWorkContext;

    /// Runs `operation` against the unit of work's context. A success is
    /// the operation's own success on that context.
    fn execute<R, F>(&mut self, operation: F) -> (r: Result<R, UnitOfWorkError>) where
        F: FnOnce(&mut Self::Context) -> Result<R, UnitOfWorkError>,

        requires
            forall|c: &mut Self::Context| #[trigger] operation.requires((c,)),
        ensures
            r is Ok ==> exists|c: &mut Self::Context| #[trigger] operation.ensures((c,), r),
    ;

    fn commit(self) -> Result<(), PersistenceError>;

    fn rollback(self) -> Result<(), PersistenceError>;
}

pub trait UnitOfWorkFactory {
    type Uow: UnitOfWork;

    fn begin(&mut self) -> Result<Self::Uow, PersistenceError>;
}

} // verus!
