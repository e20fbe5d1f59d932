//! Parties and the relationships between them.
use vstd::prelude::*;
use crate::id_map::IdMap;
use crate::resource::{Id, any_text_empty, has_empty_text};
use crate::text::str_eq;

verus! {

#[derive(Debug, Clone, Copy, PartialEq, Eq, Structural)]
pub enum PartyKind {
    Person,
    Organization,
    GovernmentEntity,
    RoleActor,
    SystemActor,
}

#[derive(Debug, Clone, Copy, PartialEq, Eq, Structural)]
pub enum PartyStatus {
    Active,
    Inactive,
    Suspended,
    Unknown,
    Superseded,
}

/// A present but empty optional text.
pub open spec fn present_but_empty(o: Option<String>) -> bool {
    o matches Some(s) && s@.len() == 0
}

fn is_present_but_empty(o: &Option<String>) -> (b: bool)
    ensures
        b == present_but_empty(*o),
{
    match o {
        Some(s) => s.as_str().is_empty(),
        None => false,
    }
}

#[derive(Debug, Clone, PartialEq, Eq)]
pub struct Party {
    pub party_id: Id,
    pub schema_version: u32,
    pub party_kind: PartyKind,
    pub status: PartyStatus,
    pub display_name: String,
    pub identity_refs: Vec<Id>,
    pub jurisdiction_refs: Vec<Id>,
    pub organization_ref: Option<Id>,
    pub provenance_ref: Option<Id>,
    pub privacy_classification: String,
    pub created_at: String,
    pub updated_at: String,
}

impl Party {
    pub open spec fn validity(&self) -> Result<(), &'static str> {
        if self.party_id@.len() == 0 {
            Err("party id is required")
        } else if self.schema_version == 0 {
            Err("party schema version is required")
        } else if self.display_name@.len() == 0 {
            Err("party display name is required")
        } else if self.privacy_classification@.len() == 0 {
            Err("party privacy classification is required")
        } else if self.created_at@.len() == 0 || self.updated_at@.len() == 0 {
            Err("party timestamps are required")
        } else if has_empty_text(self.identity_refs@) || has_empty_text(self.jurisdiction_refs@) {
            Err("party references cannot be empty")
        } else if present_but_empty(self.organization_ref) || present_but_empty(self.provenance_ref) {
            Err("party reference cannot be empty")
        } else {
            Ok(())
        }
    }

    pub fn validate(&self) -> (r: Result<(), &'static str>)
        ensures
            r == self.validity(),
    {
        if self.party_id.as_str().is_empty() {
            return Err("party id is required");
        }
        if self.schema_version == 0 {
            return Err("party schema version is required");
        }
        if self.display_name.as_str().is_empty() {
            return Err("party display name is required");
        }
        if self.privacy_classification.as_str().is_empty() {
            return Err("party privacy classification is required");
        }
        if self.created_at.as_str().is_empty() || self.updated_at.as_str().is_empty() {
            return Err("party timestamps are required");
        }
        if any_text_empty(&self.identity_refs) || any_text_empty(&self.jurisdiction_refs) {
            return Err("party references cannot be empty");
        }
        if is_present_but_empty(&self.organization_ref) || is_present_but_empty(&self.provenance_ref) {
            return Err("party reference cannot be empty");
        }
        Ok(())
    }
}

#[derive(Debug, Clone, PartialEq, Eq)]
pub struct PartyRelationship {
    pub relationship_id: Id,
    pub schema_version: u32,
    pub from_party_id: Id,
    pub to_party_id: Id,
    pub relationship_type: String,
    pub context_ref: Option<Id>,
    pub role: String,
    pub valid_from: String,
    pub valid_to: Option<String>,
    pub provenance_ref: Option<Id>,
    pub authorization_ref: Option<Id>,
    pub created_at: String,
}

impl PartyRelationship {
    pub open spec fn validity(&self) -> Result<(), &'static str> {
        if self.relationship_id@.len() == 0 {
            Err("relationship id is required")
        } else if self.schema_version == 0 {
            Err("relationship schema version is required")
        } else if self.from_party_id@.len() == 0 || self.to_party_id@.len() == 0 {
            Err("relationship parties are required")
        } else if self.from_party_id@ == self.to_party_id@ {
            Err("party relationship cannot self-reference")
        } else if self.relationship_type@.len() == 0 || self.role@.len() == 0 {
            Err("relationship type and role are required")
        } else if self.valid_from@.len() == 0 || self.created_at@.len() == 0 {
            Err("relationship timestamps are required")
        } else {
            Ok(())
        }
    }

    pub fn validate(&self) -> (r: Result<(), &'static str>)
        ensures
            r == self.validity(),
    {
        if self.relationship_id.as_str().is_empty() {
            return Err("relationship id is required");
        }
        if self.schema_version == 0 {
            return Err("relationship schema version is required");
        }
        if self.from_party_id.as_str().is_empty() || self.to_party_id.as_str().is_empty() {
            return Err("relationship parties are required");
        }
        if str_eq(self.from_party_id.as_str(), self.to_party_id.as_str()) {
            return Err("party relationship cannot self-reference");
        }
        if self.relationship_type.as_str().is_empty() || self.role.as_str().is_empty() {
            return Err("relationship type and role are required");
        }
        if self.valid_from.as_str().is_empty() || self.created_at.as_str().is_empty() {
            return Err("relationship timestamps are required");
        }
        Ok(())
    }
}

pub struct PartyRegistry {
    parties: IdMap<Party>,
    relationships: IdMap<PartyRelationship>,
}

/// Every stored relationship joins two stored parties.
pub open spec fn relationships_attached(
    parties: Map<Seq<char>, Party>,
    relationships: Map<Seq<char>, PartyRelationship>,
) -> bool {
    forall|k: Seq<char>| #[trigger]
        relationships.contains_key(k) ==> parties.contains_key(relationships[k].from_party_id@)
            && parties.contains_key(relationships[k].to_party_id@)
}

impl PartyRegistry {
    pub closed spec fn wf(&self) -> bool {
        self.parties.wf() && self.relationships.wf()
    }

    pub closed spec fn party_map(&self) -> Map<Seq<char>, Party> {
        self.parties.map()
    }

    pub closed spec fn relationship_map(&self) -> Map<Seq<char>, PartyRelationship> {
        self.relationships.map()
    }

    pub fn new() -> (r: Self)
        ensures
            r.wf(),
            r.party_map() == Map::<Seq<char>, Party>::empty(),
            r.relationship_map() == Map::<Seq<char>, PartyRelationship>::empty(),
    {
        PartyRegistry { parties: IdMap::new(), relationships: IdMap::new() }
    }

    pub open spec fn party_insertion(&self, party: Party) -> Result<(), &'static str> {
        if party.validity() is Err {
            party.validity()
        } else if self.party_map().contains_key(party.party_id@) {
            Err("duplicate party id")
        } else {
            Ok(())
        }
    }

    /// Stores a valid party under a fresh id.
    pub fn insert_party(&mut self, party: Party) -> (r: Result<(), &'static str>)
        requires
            old(self).wf(),
        ensures
            final(self).wf(),
            r == old(self).party_insertion(party),
            r is Ok ==> final(self).party_map() == old(self).party_map().insert(party.party_id@, party),
            r is Err ==> final(self).party_map() == old(self).party_map(),
            final(self).relationship_map() == old(self).relationship_map(),
            relationships_attached(old(self).party_map(), old(self).relationship_map())
                ==> relationships_attached(final(self).party_map(), final(self).relationship_map()),
    {
        match party.validate() {
            Ok(()) => {},
            Err(e) => return Err(e),
        }
        if self.parties.contains_key(party.party_id.as_str()) {
            return Err("duplicate party id");
        }
        let key = party.party_id.clone();
        self.parties.insert_new(key, party);
        Ok(())
    }

    pub open spec fn relationship_insertion(&self, relationship: PartyRelationship) -> Result<
        (),
        &'static str,
    > {
        if relationship.validity() is Err {
            relationship.validity()
        } else if !self.party_map().contains_key(relationship.from_party_id@)
            || !self.party_map().contains_key(relationship.to_party_id@) {
            Err("relationship party not found")
        } else if self.relationship_map().contains_key(relationship.relationship_id@) {
            Err("duplicate relationship id")
        } else {
            Ok(())
        }
    }

    /// Stores a valid relationship between two stored parties under a fresh
    /// id.
    pub fn insert_relationship(&mut self, relationship: PartyRelationship) -> (r: Result<
        (),
        &'static str,
    >)
        requires
            old(self).wf(),
        ensures
            final(self).wf(),
            r == old(self).relationship_insertion(relationship),
            r is Ok ==> final(self).relationship_map() == old(self).relationship_map().insert(
                relationship.relationship_id@,
                relationship,
            ),
            r is Err ==> final(self).relationship_map() == old(self).relationship_map(),
            final(self).party_map() == old(self).party_map(),
            relationships_attached(old(self).party_map(), old(self).relationship_map())
                ==> relationships_attached(final(self).party_map(), final(self).relationship_map()),
    {
        match relationship.validate() {
            Ok(()) => {},
            Err(e) => return Err(e),
        }
        if !self.parties.contains_key(relationship.from_party_id.as_str()) || !self.parties.contains_key(
            relationship.to_party_id.as_str(),
        ) {
            return Err("relationship party not found");
        }
        if self.relationships.contains_key(relationship.relationship_id.as_str()) {
            return Err("duplicate relationship id");
        }
        let key = relationship.relationship_id.clone();
        self.relationships.insert_new(key, relationship);
        Ok(())
    }

    pub fn get_party(&self, id: &Id) -> (r: Option<&Party>)
        requires
            self.wf(),
        ensures
            r is Some <==> self.party_map().contains_key(id@),
            r matches Some(p) ==> *p == self.party_map()[id@],
    {
        self.parties.get(id.as_str())
    }

    pub fn get_relationship(&self, id: &Id) -> (r: Option<&PartyRelationship>)
        requires
            self.wf(),
        ensures
            r is Some <==> self.relationship_map().contains_key(id@),
            r matches Some(p) ==> *p == self.relationship_map()[id@],
    {
        self.relationships.get(id.as_str())
    }
}

impl Default for PartyRegistry {
    fn default() -> (r: Self)
        ensures
            r.wf(),
            r.party_map() == Map::<Seq<char>, Party>::empty(),
            r.relationship_map() == Map::<Seq<char>, PartyRelationship>::empty(),
    {
        PartyRegistry::new()
    }
}

} // verus!
