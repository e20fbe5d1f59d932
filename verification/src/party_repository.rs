//! Parties and relationships persisted through a unit-of-work context that
//! the caller owns, so that they commit atomically with other resources.
use vstd::prelude::*;
use crate::json::JsonValue;
use crate::party::{Party, PartyRelationship};
use crate::party_codec::{
    PartyView, RelationshipView, is_party_json, is_relationship_json, lemma_party_json_round_trip,
    lemma_party_validity_by_view, lemma_relationship_json_round_trip, lemma_relationship_validity_by_view, party_decoding, party_from_json, party_to_json, party_view_validity,
    relationship_decoding, relationship_from_json, relationship_to_json, relationship_view_validity,
};
use crate::persistence::{
    PersistenceError, ResourceRecord, ResourceWrite, ResourceWriteMode, UnitOfWorkContext, UnitOfWorkError,
};
use crate::resource::{Id, ResourceRef, ResourceRefView, ResourceType};

verus! {

/// The persistence error a unit-of-work failure is reported as.
pub open spec fn uow_error_of(e: UnitOfWorkError) -> PersistenceError {
    match e {
        UnitOfWorkError::Persistence(p) => p,
        UnitOfWorkError::InvalidOperation => PersistenceError::ValidationFailure,
    }
}

fn map_uow_error(e: UnitOfWorkError) -> (r: PersistenceError)
    ensures
        r == uow_error_of(e),
{
    match e {
        UnitOfWorkError::Persistence(p) => p,
        UnitOfWorkError::InvalidOperation => PersistenceError::ValidationFailure,
    }
}

/// The schema version a record is stored under: the low 16 bits of the
/// value's own version.
pub open spec fn stored_version(v: u32) -> u16 {
    v as u16
}

fn stored_version_of(v: u32) -> (r: u16)
    ensures
        r == stored_version(v),
{
    #[verifier::truncate]
    (v as u16)
}

/// `w` inserts, under a reference of type `t` and id `id`, the payload that
/// `encodes` accepts, with schema version `version`.
pub open spec fn is_insert(w: ResourceWrite, t: ResourceType, id: Seq<char>, version: u16) -> bool {
    &&& w.resource_ref@ == (ResourceRefView { resource_type: t, id })
    &&& w.schema_version == version
    &&& w.mode == ResourceWriteMode::Insert
    &&& w.expected_revision is None
}

/// A party that is not written: invalid, or stored under schema version zero.
pub open spec fn party_refused(p: Party) -> bool {
    p.validity() is Err || stored_version(p.schema_version) == 0
}

/// A relationship that is not written, as for a party.
pub open spec fn relationship_refused(p: PartyRelationship) -> bool {
    p.validity() is Err || stored_version(p.schema_version) == 0
}

/// The insert that stores `party`: refused with `ValidationFailure` when the
/// party is invalid or its stored schema version is zero.
pub fn party_write(party: &Party) -> (r: Result<ResourceWrite, PersistenceError>)
    ensures
        party_refused(*party) ==> r == Err::<ResourceWrite, PersistenceError>(PersistenceError::ValidationFailure),
        !party_refused(*party) ==> r is Ok,
        r matches Ok(w) ==> is_insert(w, ResourceType::Party, party.party_id@, stored_version(party.schema_version))
            && is_party_json(w.payload, party@),
{
    match party.validate() {
        Ok(()) => {},
        Err(_) => return Err(PersistenceError::ValidationFailure),
    }
    let resource_ref = ResourceRef { resource_type: ResourceType::Party, id: party.party_id.clone() };
    let payload = party_to_json(party);
    match ResourceWrite::new(resource_ref, stored_version_of(party.schema_version), payload, ResourceWriteMode::Insert) {
        Ok(w) => Ok(w),
        Err(_) => Err(PersistenceError::ValidationFailure),
    }
}

/// The insert that stores `relationship`, refused as a party's is.
pub fn relationship_write(relationship: &PartyRelationship) -> (r: Result<ResourceWrite, PersistenceError>)
    ensures
        relationship_refused(*relationship) ==> r == Err::<ResourceWrite, PersistenceError>(
            PersistenceError::ValidationFailure,
        ),
        !relationship_refused(*relationship) ==> r is Ok,
        r matches Ok(w) ==> is_insert(
            w,
            ResourceType::PartyRelationship,
            relationship.relationship_id@,
            stored_version(relationship.schema_version),
        ) && is_relationship_json(w.payload, relationship@),
{
    match relationship.validate() {
        Ok(()) => {},
        Err(_) => return Err(PersistenceError::ValidationFailure),
    }
    let resource_ref = ResourceRef {
        resource_type: ResourceType::PartyRelationship,
        id: relationship.relationship_id.clone(),
    };
    let payload = relationship_to_json(relationship);
    match ResourceWrite::new(
        resource_ref,
        stored_version_of(relationship.schema_version),
        payload,
        ResourceWriteMode::Insert,
    ) {
        Ok(w) => Ok(w),
        Err(_) => Err(PersistenceError::ValidationFailure),
    }
}

/// What reading a party answers, given the record read: none, or the party
/// the payload describes when it is one and valid.
pub open spec fn party_read_outcome(record: Option<ResourceRecord>) -> Result<Option<PartyView>, PersistenceError> {
    match record {
        None => Ok(None),
        Some(rec) => match party_decoding(rec.payload) {
            None => Err(PersistenceError::SerializationFailure),
            Some(p) => if party_view_validity(p) is Err {
                Err(PersistenceError::ValidationFailure)
            } else {
                Ok(Some(p))
            },
        },
    }
}

/// What reading a relationship answers, given the record read.
pub open spec fn relationship_read_outcome(record: Option<ResourceRecord>) -> Result<
    Option<RelationshipView>,
    PersistenceError,
> {
    match record {
        None => Ok(None),
        Some(rec) => match relationship_decoding(rec.payload) {
            None => Err(PersistenceError::SerializationFailure),
            Some(p) => if relationship_view_validity(p) is Err {
                Err(PersistenceError::ValidationFailure)
            } else {
                Ok(Some(p))
            },
        },
    }
}

/// The party a stored record holds.
pub fn party_of_record(record: Option<ResourceRecord>) -> (r: Result<Option<Party>, PersistenceError>)
    ensures
        match r {
            Ok(Some(p)) => party_read_outcome(record) == Ok::<Option<PartyView>, PersistenceError>(Some(p@)),
            Ok(None) => party_read_outcome(record) == Ok::<Option<PartyView>, PersistenceError>(None),
            Err(e) => party_read_outcome(record) == Err::<Option<PartyView>, PersistenceError>(e),
        },
{
    let rec = match record {
        None => return Ok(None),
        Some(rec) => rec,
    };
    let party = match party_from_json(&rec.payload) {
        Some(p) => p,
        None => return Err(PersistenceError::SerializationFailure),
    };
    proof {
        lemma_party_validity_by_view(party);
    }
    match party.validate() {
        Ok(()) => Ok(Some(party)),
        Err(_) => Err(PersistenceError::ValidationFailure),
    }
}

/// The relationship a stored record holds.
pub fn relationship_of_record(record: Option<ResourceRecord>) -> (r: Result<Option<PartyRelationship>, PersistenceError>)
    ensures
        match r {
            Ok(Some(p)) => relationship_read_outcome(record) == Ok::<Option<RelationshipView>, PersistenceError>(
                Some(p@),
            ),
            Ok(None) => relationship_read_outcome(record) == Ok::<Option<RelationshipView>, PersistenceError>(None),
            Err(e) => relationship_read_outcome(record) == Err::<Option<RelationshipView>, PersistenceError>(e),
        },
{
    let rec = match record {
        None => return Ok(None),
        Some(rec) => rec,
    };
    let relationship = match relationship_from_json(&rec.payload) {
        Some(p) => p,
        None => return Err(PersistenceError::SerializationFailure),
    };
    proof {
        lemma_relationship_validity_by_view(relationship);
    }
    match relationship.validate() {
        Ok(()) => Ok(Some(relationship)),
        Err(_) => Err(PersistenceError::ValidationFailure),
    }
}

/// A party that was written is read back as that party from a record that
/// holds the payload written.
pub proof fn lemma_party_read_back(p: Party, rec: ResourceRecord)
    requires
        !party_refused(p),
        is_party_json(rec.payload, p@),
    ensures
        party_read_outcome(Some(rec)) == Ok::<Option<PartyView>, PersistenceError>(Some(p@)),
{
    lemma_party_json_round_trip(rec.payload, p@);
    lemma_party_validity_by_view(p);
}

/// A relationship that was written is read back as that relationship.
pub proof fn lemma_relationship_read_back(p: PartyRelationship, rec: ResourceRecord)
    requires
        !relationship_refused(p),
        is_relationship_json(rec.payload, p@),
    ensures
        relationship_read_outcome(Some(rec)) == Ok::<Option<RelationshipView>, PersistenceError>(Some(p@)),
{
    lemma_relationship_json_round_trip(rec.payload, p@);
    lemma_relationship_validity_by_view(p);
}

/// Parties and relationships read and written in the caller's unit of work;
/// the repository never begins, commits or rolls back.
pub struct PartyUnitOfWorkRepository<'a, C: UnitOfWorkContext> {
    context: &'a mut C,
}

impl<'a, C: UnitOfWorkContext> PartyUnitOfWorkRepository<'a, C> {
    /// The context that reads and writes go to.
    pub closed spec fn context_state(&self) -> C {
        *self.context
    }

    pub fn new(context: &'a mut C) -> (r: Self)
        ensures
            r.context_state() == *old(context),
    {
        PartyUnitOfWorkRepository { context }
    }

    /// Inserts the party; nothing is written when it is refused,
    /// and a write the context refuses is reported with its error.
    pub fn create_party(&mut self, party: Party) -> (r: Result<(), PersistenceError>)
        ensures
            party_refused(party) ==> r == Err::<(), PersistenceError>(PersistenceError::ValidationFailure)
                && final(self).context_state() == old(self).context_state(),
            r is Ok ==> !party_refused(party),
            r is Ok ==> exists|w: ResourceWrite|
                final(self).context_state().written() == old(self).context_state().written().push(w) && #[trigger] is_insert(
                    w,
                    ResourceType::Party,
                    party.party_id@,
                    stored_version(party.schema_version),
                ) && is_party_json(w.payload, party@),
    {
        let write = match party_write(&party) {
            Ok(w) => w,
            Err(e) => return Err(e),
        };
        let ghost w0 = write;
        match self.context.write_resource(write) {
            Ok(()) => {
                assert(is_insert(w0, ResourceType::Party, party.party_id@, stored_version(party.schema_version)));
                Ok(())
            },
            Err(e) => Err(map_uow_error(e)),
        }
    }

    /// The party stored under `party_id`, if any; an empty id is an integrity
    /// failure, and nothing is read then.
    pub fn get_party(&mut self, party_id: &Id) -> (r: Result<Option<Party>, PersistenceError>)
        ensures
            party_id@.len() == 0 ==> r == Err::<Option<Party>, PersistenceError>(PersistenceError::IntegrityFailure)
                && final(self).context_state() == old(self).context_state(),
            r matches Ok(Some(p)) ==> p.validity() is Ok,
            final(self).context_state().written() == old(self).context_state().written(),
    {
        let resource_ref = match ResourceRef::new(ResourceType::Party, party_id.clone()) {
            Ok(r) => r,
            Err(_) => return Err(PersistenceError::IntegrityFailure),
        };
        let record = match self.context.read_resource(&resource_ref) {
            Ok(rec) => rec,
            Err(e) => return Err(map_uow_error(e)),
        };
        let r = party_of_record(record);
        proof {
            if r is Ok && r->Ok_0 is Some {
                lemma_party_validity_by_view(r->Ok_0->Some_0);
            }
        }
        r
    }

    /// Inserts the relationship, as `create_party` does a party.
    pub fn create_relationship(&mut self, relationship: PartyRelationship) -> (r: Result<(), PersistenceError>)
        ensures
            relationship_refused(relationship) ==> r == Err::<(), PersistenceError>(
                PersistenceError::ValidationFailure,
            ) && final(self).context_state() == old(self).context_state(),
            r is Ok ==> !relationship_refused(relationship),
            r is Ok ==> exists|w: ResourceWrite|
                final(self).context_state().written() == old(self).context_state().written().push(w) && #[trigger] is_insert(
                    w,
                    ResourceType::PartyRelationship,
                    relationship.relationship_id@,
                    stored_version(relationship.schema_version),
                ) && is_relationship_json(w.payload, relationship@),
    {
        let write = match relationship_write(&relationship) {
            Ok(w) => w,
            Err(e) => return Err(e),
        };
        let ghost w0 = write;
        match self.context.write_resource(write) {
            Ok(()) => {
                assert(is_insert(
                    w0,
                    ResourceType::PartyRelationship,
                    relationship.relationship_id@,
                    stored_version(relationship.schema_version),
                ));
                Ok(())
            },
            Err(e) => Err(map_uow_error(e)),
        }
    }

    /// The relationship stored under `relationship_id`, if any.
    pub fn get_relationship(&mut self, relationship_id: &Id) -> (r: Result<Option<PartyRelationship>, PersistenceError>)
        ensures
            relationship_id@.len() == 0 ==> r == Err::<Option<PartyRelationship>, PersistenceError>(
                PersistenceError::IntegrityFailure,
            ) && final(self).context_state() == old(self).context_state(),
            r matches Ok(Some(p)) ==> p.validity() is Ok,
            final(self).context_state().written() == old(self).context_state().written(),
    {
        let resource_ref = match ResourceRef::new(ResourceType::PartyRelationship, relationship_id.clone()) {
            Ok(r) => r,
            Err(_) => return Err(PersistenceError::IntegrityFailure),
        };
        let record = match self.context.read_resource(&resource_ref) {
            Ok(rec) => rec,
            Err(e) => return Err(map_uow_error(e)),
        };
        let r = relationship_of_record(record);
        proof {
            if r is Ok && r->Ok_0 is Some {
                lemma_relationship_validity_by_view(r->Ok_0->Some_0);
            }
        }
        r
    }
}

} // verus!
