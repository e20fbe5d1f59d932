//! The registry of legal sources and their supersession chains.
use vstd::prelude::*;
use crate::chain::{chain_has_cycle, has_cycle};
use crate::id_map::{IdMap, strictly_sorted};
use crate::legal_source::LegalSource;
use crate::resource::Id;

verus! {

pub struct LegalSourceRegistry {
    sources: IdMap<LegalSource>,
}

impl LegalSourceRegistry {
    pub closed spec fn wf(&self) -> bool {
        self.sources.wf()
    }

    pub closed spec fn source_map(&self) -> Map<Seq<char>, LegalSource> {
        self.sources.map()
    }

    pub fn new() -> (r: Self)
        ensures
            r.wf(),
            r.source_map() == Map::<Seq<char>, LegalSource>::empty(),
    {
        LegalSourceRegistry { sources: IdMap::new() }
    }

    /// Stores a valid source under a fresh id, then checks the supersession
    /// chains. A cycle is reported, but the source stays stored.
    pub fn insert(&mut self, source: LegalSource) -> (r: Result<(), &'static str>)
        requires
            old(self).wf(),
        ensures
            final(self).wf(),
            source.validity() is Err ==> r == source.validity(),
            source.validity() is Ok && old(self).source_map().contains_key(source.source_id@) ==> r
                == Err::<(), &'static str>("duplicate source id"),
            source.validity() is Err || old(self).source_map().contains_key(source.source_id@) ==> final(self).source_map() == old(self).source_map(),
            source.validity() is Ok && !old(self).source_map().contains_key(source.source_id@) ==> {
                &&& final(self).source_map() == old(self).source_map().insert(source.source_id@, source)
                &&& r == if has_cycle(final(self).source_map()) {
                    Err::<(), &'static str>("supersession cycle detected")
                } else {
                    Ok(())
                }
            },
    {
        match source.validate() {
            Ok(()) => {},
            Err(e) => return Err(e),
        }
        if self.sources.contains_key(source.source_id.as_str()) {
            return Err("duplicate source id");
        }
        let key = source.source_id.clone();
        self.sources.insert_new(key, source);
        self.validate_supersession_graph()
    }

    /// Reports a cycle among the supersession links of the stored sources.
    pub fn validate_supersession_graph(&self) -> (r: Result<(), &'static str>)
        requires
            self.wf(),
        ensures
            r == if has_cycle(self.source_map()) {
                Err::<(), &'static str>("supersession cycle detected")
            } else {
                Ok(())
            },
    {
        if chain_has_cycle(&self.sources) {
            Err("supersession cycle detected")
        } else {
            Ok(())
        }
    }

    pub fn get(&self, source_id: &Id) -> (r: Option<&LegalSource>)
        requires
            self.wf(),
        ensures
            r is Some <==> self.source_map().contains_key(source_id@),
            r matches Some(s) ==> *s == self.source_map()[source_id@],
    {
        self.sources.get(source_id.as_str())
    }

    /// Source ids in ascending order.
    pub fn ids(&self) -> (r: Vec<Id>)
        requires
            self.wf(),
        ensures
            strictly_sorted(r@.map_values(|s: String| s@)),
            forall|k: Seq<char>|
                self.source_map().contains_key(k) <==> r@.map_values(|s: String| s@).contains(k),
    {
        self.sources.keys()
    }
}

impl Default for LegalSourceRegistry {
    fn default() -> (r: Self)
        ensures
            r.wf(),
            r.source_map() == Map::<Seq<char>, LegalSource>::empty(),
    {
        LegalSourceRegistry::new()
    }
}

} // verus!
