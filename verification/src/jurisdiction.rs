//! Jurisdictions and their parent hierarchy.
use vstd::prelude::*;
use crate::chain::{Linked, chain_has_cycle, has_cycle};
use crate::id_map::{IdMap, strictly_sorted};
use crate::resource::Id;
use crate::text::str_eq;

verus! {

#[derive(Debug, Clone, Copy, PartialEq, Eq, Structural)]
pub enum JurisdictionType {
    Territorial,
    SubjectMatter,
    Personal,
    Institutional,
    Other,
}

#[derive(Debug, Clone, Copy, PartialEq, Eq, Structural)]
pub enum JurisdictionStatus {
    Active,
    Inactive,
}

#[derive(Debug, Clone, PartialEq, Eq)]
pub struct Jurisdiction {
    pub jurisdiction_id: Id,
    pub jurisdiction_type: JurisdictionType,
    pub name: String,
    pub parent_id: Option<Id>,
    pub status: JurisdictionStatus,
}

impl Jurisdiction {
    pub open spec fn validity(&self) -> Result<(), &'static str> {
        if self.jurisdiction_id@.len() == 0 {
            Err("jurisdiction id is required")
        } else if self.name@.len() == 0 {
            Err("jurisdiction name is required")
        } else if self.parent_id matches Some(p) && p@ == self.jurisdiction_id@ {
            Err("jurisdiction cannot parent itself")
        } else {
            Ok(())
        }
    }

    pub fn validate(&self) -> (r: Result<(), &'static str>)
        ensures
            r == self.validity(),
    {
        if self.jurisdiction_id.as_str().is_empty() {
            return Err("jurisdiction id is required");
        }
        if self.name.as_str().is_empty() {
            return Err("jurisdiction name is required");
        }
        let self_parent = match &self.parent_id {
            Some(p) => str_eq(p.as_str(), self.jurisdiction_id.as_str()),
            None => false,
        };
        if self_parent {
            return Err("jurisdiction cannot parent itself");
        }
        Ok(())
    }
}

impl Linked for Jurisdiction {
    open spec fn link(&self) -> Option<Seq<char>> {
        match self.parent_id {
            Some(p) => Some(p@),
            None => None,
        }
    }

    fn link_id(&self) -> (r: Option<&String>) {
        match &self.parent_id {
            Some(p) => Some(p),
            None => None,
        }
    }
}

pub struct JurisdictionRegistry {
    jurisdictions: IdMap<Jurisdiction>,
}

impl JurisdictionRegistry {
    pub closed spec fn wf(&self) -> bool {
        self.jurisdictions.wf()
    }

    pub closed spec fn jurisdiction_map(&self) -> Map<Seq<char>, Jurisdiction> {
        self.jurisdictions.map()
    }

    pub fn new() -> (r: Self)
        ensures
            r.wf(),
            r.jurisdiction_map() == Map::<Seq<char>, Jurisdiction>::empty(),
    {
        JurisdictionRegistry { jurisdictions: IdMap::new() }
    }

    /// Stores a valid jurisdiction under a fresh id, then checks the parent
    /// hierarchy. A cycle is reported, but the jurisdiction stays stored.
    pub fn insert(&mut self, jurisdiction: Jurisdiction) -> (r: Result<(), &'static str>)
        requires
            old(self).wf(),
        ensures
            final(self).wf(),
            jurisdiction.validity() is Err ==> r == jurisdiction.validity(),
            jurisdiction.validity() is Ok && old(self).jurisdiction_map().contains_key(
                jurisdiction.jurisdiction_id@,
            ) ==> r == Err::<(), &'static str>("duplicate jurisdiction id"),
            jurisdiction.validity() is Err || old(self).jurisdiction_map().contains_key(
                jurisdiction.jurisdiction_id@,
            ) ==> final(self).jurisdiction_map() == old(self).jurisdiction_map(),
            jurisdiction.validity() is Ok && !old(self).jurisdiction_map().contains_key(
                jurisdiction.jurisdiction_id@,
            ) ==> {
                &&& final(self).jurisdiction_map() == old(self).jurisdiction_map().insert(
                    jurisdiction.jurisdiction_id@,
                    jurisdiction,
                )
                &&& r == if has_cycle(final(self).jurisdiction_map()) {
                    Err::<(), &'static str>("jurisdiction hierarchy cycle detected")
                } else {
                    Ok(())
                }
            },
    {
        match jurisdiction.validate() {
            Ok(()) => {},
            Err(e) => return Err(e),
        }
        if self.jurisdictions.contains_key(jurisdiction.jurisdiction_id.as_str()) {
            return Err("duplicate jurisdiction id");
        }
        let key = jurisdiction.jurisdiction_id.clone();
        self.jurisdictions.insert_new(key, jurisdiction);
        if chain_has_cycle(&self.jurisdictions) {
            return Err("jurisdiction hierarchy cycle detected");
        }
        Ok(())
    }

    pub fn get(&self, id: &Id) -> (r: Option<&Jurisdiction>)
        requires
            self.wf(),
        ensures
            r is Some <==> self.jurisdiction_map().contains_key(id@),
            r matches Some(j) ==> *j == self.jurisdiction_map()[id@],
    {
        self.jurisdictions.get(id.as_str())
    }

    /// Jurisdiction ids in ascending order.
    pub fn ids(&self) -> (r: Vec<Id>)
        requires
            self.wf(),
        ensures
            strictly_sorted(r@.map_values(|s: String| s@)),
            forall|k: Seq<char>|
                self.jurisdiction_map().contains_key(k) <==> r@.map_values(|s: String| s@).contains(k),
    {
        self.jurisdictions.keys()
    }
}

impl Default for JurisdictionRegistry {
    fn default() -> (r: Self)
        ensures
            r.wf(),
            r.jurisdiction_map() == Map::<Seq<char>, Jurisdiction>::empty(),
    {
        JurisdictionRegistry::new()
    }
}

} // verus!
