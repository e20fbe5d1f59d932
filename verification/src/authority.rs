//! Public authorities, the powers they hold, and their registry.
use vstd::prelude::*;
use crate::id_map::{IdMap, strictly_sorted};
use crate::resource::{Id, any_text_empty, has_empty_text};
use crate::text::str_eq;

verus! {

#[derive(Debug, Clone, Copy, PartialEq, Eq, Structural)]
pub enum AuthorityType {
    GovernmentBody,
    StatutoryOffice,
    Court,
    Tribunal,
    Other,
}

#[derive(Debug, Clone, Copy, PartialEq, Eq, Structural)]
pub enum AuthorityStatus {
    Active,
    Inactive,
}

#[derive(Debug, Clone, PartialEq, Eq)]
pub struct Authority {
    pub authority_id: Id,
    pub name: String,
    pub authority_type: AuthorityType,
    pub jurisdiction_id: Id,
    pub status: AuthorityStatus,
}

impl Authority {
    pub open spec fn validity(&self) -> Result<(), &'static str> {
        if self.authority_id@.len() == 0 {
            Err("authority id is required")
        } else if self.name@.len() == 0 {
            Err("authority name is required")
        } else if self.jurisdiction_id@.len() == 0 {
            Err("authority jurisdiction is required")
        } else {
            Ok(())
        }
    }

    pub fn validate(&self) -> (r: Result<(), &'static str>)
        ensures
            r == self.validity(),
    {
        if self.authority_id.as_str().is_empty() {
            return Err("authority id is required");
        }
        if self.name.as_str().is_empty() {
            return Err("authority name is required");
        }
        if self.jurisdiction_id.as_str().is_empty() {
            return Err("authority jurisdiction is required");
        }
        Ok(())
    }
}

#[derive(Debug, Clone, PartialEq, Eq)]
pub struct AuthorityPower {
    pub power_id: Id,
    pub authority_id: Id,
    pub jurisdiction_id: Id,
    pub name: String,
    pub source_refs: Vec<Id>,
    pub status: AuthorityStatus,
}

impl AuthorityPower {
    pub open spec fn validity(&self) -> Result<(), &'static str> {
        if self.power_id@.len() == 0 {
            Err("power id is required")
        } else if self.authority_id@.len() == 0 {
            Err("power authority is required")
        } else if self.jurisdiction_id@.len() == 0 {
            Err("power jurisdiction is required")
        } else if self.name@.len() == 0 {
            Err("power name is required")
        } else if self.source_refs@.len() == 0 {
            Err("power requires a source reference")
        } else if has_empty_text(self.source_refs@) {
            Err("power source reference cannot be empty")
        } else {
            Ok(())
        }
    }

    pub fn validate(&self) -> (r: Result<(), &'static str>)
        ensures
            r == self.validity(),
    {
        if self.power_id.as_str().is_empty() {
            return Err("power id is required");
        }
        if self.authority_id.as_str().is_empty() {
            return Err("power authority is required");
        }
        if self.jurisdiction_id.as_str().is_empty() {
            return Err("power jurisdiction is required");
        }
        if self.name.as_str().is_empty() {
            return Err("power name is required");
        }
        if self.source_refs.len() == 0 {
            return Err("power requires a source reference");
        }
        if any_text_empty(&self.source_refs) {
            return Err("power source reference cannot be empty");
        }
        Ok(())
    }
}

pub struct AuthorityRegistry {
    authorities: IdMap<Authority>,
    powers: IdMap<AuthorityPower>,
}

/// Every stored power belongs to a stored authority of the same
/// jurisdiction.
pub open spec fn powers_attached(
    authorities: Map<Seq<char>, Authority>,
    powers: Map<Seq<char>, AuthorityPower>,
) -> bool {
    forall|k: Seq<char>| #[trigger]
        powers.contains_key(k) ==> authorities.contains_key(powers[k].authority_id@)
            && authorities[powers[k].authority_id@].jurisdiction_id@ == powers[k].jurisdiction_id@
}

impl AuthorityRegistry {
    pub closed spec fn wf(&self) -> bool {
        self.authorities.wf() && self.powers.wf()
    }

    pub closed spec fn authority_map(&self) -> Map<Seq<char>, Authority> {
        self.authorities.map()
    }

    pub closed spec fn power_map(&self) -> Map<Seq<char>, AuthorityPower> {
        self.powers.map()
    }

    pub fn new() -> (r: Self)
        ensures
            r.wf(),
            r.authority_map() == Map::<Seq<char>, Authority>::empty(),
            r.power_map() == Map::<Seq<char>, AuthorityPower>::empty(),
    {
        AuthorityRegistry { authorities: IdMap::new(), powers: IdMap::new() }
    }

    pub open spec fn authority_insertion(&self, authority: Authority) -> Result<(), &'static str> {
        if authority.validity() is Err {
            authority.validity()
        } else if self.authority_map().contains_key(authority.authority_id@) {
            Err("duplicate authority id")
        } else {
            Ok(())
        }
    }

    /// Stores a valid authority under a fresh id.
    pub fn insert_authority(&mut self, authority: Authority) -> (r: Result<(), &'static str>)
        requires
            old(self).wf(),
        ensures
            final(self).wf(),
            r == old(self).authority_insertion(authority),
            r is Ok ==> final(self).authority_map() == old(self).authority_map().insert(
                authority.authority_id@,
                authority,
            ),
            r is Err ==> final(self).authority_map() == old(self).authority_map(),
            final(self).power_map() == old(self).power_map(),
            powers_attached(old(self).authority_map(), old(self).power_map()) ==> powers_attached(
                final(self).authority_map(),
                final(self).power_map(),
            ),
    {
        match authority.validate() {
            Ok(()) => {},
            Err(e) => return Err(e),
        }
        if self.authorities.contains_key(authority.authority_id.as_str()) {
            return Err("duplicate authority id");
        }
        let key = authority.authority_id.clone();
        self.authorities.insert_new(key, authority);
        Ok(())
    }

    pub open spec fn power_insertion(&self, power: AuthorityPower) -> Result<(), &'static str> {
        if power.validity() is Err {
            power.validity()
        } else if !self.authority_map().contains_key(power.authority_id@) {
            Err("power authority not found")
        } else if self.authority_map()[power.authority_id@].jurisdiction_id@
            != power.jurisdiction_id@ {
            Err("power jurisdiction does not match authority")
        } else if self.power_map().contains_key(power.power_id@) {
            Err("duplicate power id")
        } else {
            Ok(())
        }
    }

    /// Stores a valid power of a known authority, in that authority's
    /// jurisdiction, under a fresh id.
    pub fn insert_power(&mut self, power: AuthorityPower) -> (r: Result<(), &'static str>)
        requires
            old(self).wf(),
        ensures
            final(self).wf(),
            r == old(self).power_insertion(power),
            r is Ok ==> final(self).power_map() == old(self).power_map().insert(power.power_id@, power),
            r is Err ==> final(self).power_map() == old(self).power_map(),
            final(self).authority_map() == old(self).authority_map(),
            powers_attached(old(self).authority_map(), old(self).power_map()) ==> powers_attached(
                final(self).authority_map(),
                final(self).power_map(),
            ),
    {
        match power.validate() {
            Ok(()) => {},
            Err(e) => return Err(e),
        }
        let same_jurisdiction = match self.authorities.get(power.authority_id.as_str()) {
            None => return Err("power authority not found"),
            Some(a) => str_eq(a.jurisdiction_id.as_str(), power.jurisdiction_id.as_str()),
        };
        if !same_jurisdiction {
            return Err("power jurisdiction does not match authority");
        }
        if self.powers.contains_key(power.power_id.as_str()) {
            return Err("duplicate power id");
        }
        let key = power.power_id.clone();
        self.powers.insert_new(key, power);
        Ok(())
    }

    pub fn get_authority(&self, id: &Id) -> (r: Option<&Authority>)
        requires
            self.wf(),
        ensures
            r is Some <==> self.authority_map().contains_key(id@),
            r matches Some(a) ==> *a == self.authority_map()[id@],
    {
        self.authorities.get(id.as_str())
    }

    pub fn get_power(&self, id: &Id) -> (r: Option<&AuthorityPower>)
        requires
            self.wf(),
        ensures
            r is Some <==> self.power_map().contains_key(id@),
            r matches Some(p) ==> *p == self.power_map()[id@],
    {
        self.powers.get(id.as_str())
    }

    /// Authority ids in ascending order.
    pub fn authority_ids(&self) -> (r: Vec<Id>)
        requires
            self.wf(),
        ensures
            strictly_sorted(r@.map_values(|s: String| s@)),
            forall|k: Seq<char>|
                self.authority_map().contains_key(k) <==> r@.map_values(|s: String| s@).contains(k),
    {
        self.authorities.keys()
    }

    /// Power ids in ascending order.
    pub fn power_ids(&self) -> (r: Vec<Id>)
        requires
            self.wf(),
        ensures
            strictly_sorted(r@.map_values(|s: String| s@)),
            forall|k: Seq<char>|
                self.power_map().contains_key(k) <==> r@.map_values(|s: String| s@).contains(k),
    {
        self.powers.keys()
    }
}

impl Default for AuthorityRegistry {
    fn default() -> (r: Self)
        ensures
            r.wf(),
            r.authority_map() == Map::<Seq<char>, Authority>::empty(),
            r.power_map() == Map::<Seq<char>, AuthorityPower>::empty(),
    {
        AuthorityRegistry::new()
    }
}

} // verus!
