//! Storage of evidence: content objects by storage reference, and originals
//! and derived artifacts by id. Nothing stored is ever replaced.
use vstd::prelude::*;
use crate::evidence::{DerivedArtifact, EvidenceOriginal};
use crate::id_map::IdMap;
use crate::resource::Id;

verus! {

/// Content objects by storage reference; implemented by each storage provider.
pub trait EvidenceObjectStore {
    fn put(&mut self, storage_ref: Id, content: Vec<u8>) -> Result<(), &'static str>;

    fn get(&self, storage_ref: &Id) -> Result<Option<Vec<u8>>, &'static str>;
}

/// Evidence originals and derived artifacts; implemented by each storage
/// provider.
pub trait EvidenceRepository {
    fn get_original(&self, evidence_id: &Id) -> Result<Option<EvidenceOriginal>, &'static str>;

    fn save_original(&mut self, evidence: EvidenceOriginal) -> Result<(), &'static str>;

    fn get_artifact(&self, artifact_id: &Id) -> Result<Option<DerivedArtifact>, &'static str>;

    fn save_artifact(&mut self, artifact: DerivedArtifact) -> Result<(), &'static str>;
}

/// Evidence kept in memory.
pub struct InMemoryEvidenceVault {
    objects: IdMap<Vec<u8>>,
    originals: IdMap<EvidenceOriginal>,
    artifacts: IdMap<DerivedArtifact>,
}

impl InMemoryEvidenceVault {
    /// Each record is keyed by its own id.
    #[verifier::type_invariant]
    pub closed spec fn wf(&self) -> bool {
        &&& self.objects.wf()
        &&& self.originals.wf()
        &&& self.artifacts.wf()
        &&& forall|k: Seq<char>| #[trigger]
            self.originals.map().contains_key(k) ==> self.originals.map()[k].evidence_id@ == k
        &&& forall|k: Seq<char>| #[trigger]
            self.artifacts.map().contains_key(k) ==> self.artifacts.map()[k].artifact_id@ == k
    }

    /// Stored content by storage reference.
    pub closed spec fn object_map(&self) -> Map<Seq<char>, Seq<u8>> {
        self.objects.map().map_values(|v: Vec<u8>| v@)
    }

    pub closed spec fn original_map(&self) -> Map<Seq<char>, EvidenceOriginal> {
        self.originals.map()
    }

    pub closed spec fn artifact_map(&self) -> Map<Seq<char>, DerivedArtifact> {
        self.artifacts.map()
    }

    pub fn new() -> (r: Self)
        ensures
            r.wf(),
            r.object_map() == Map::<Seq<char>, Seq<u8>>::empty(),
            r.original_map() == Map::<Seq<char>, EvidenceOriginal>::empty(),
            r.artifact_map() == Map::<Seq<char>, DerivedArtifact>::empty(),
    {
        let r = InMemoryEvidenceVault { objects: IdMap::new(), originals: IdMap::new(), artifacts: IdMap::new() };
        proof {
            assert(r.object_map() =~= Map::<Seq<char>, Seq<u8>>::empty());
        }
        r
    }

    /// Replaces the content stored under `storage_ref`, as a failing or
    /// compromised store would; integrity checks must then refuse it.
    pub fn tamper_object(&mut self, storage_ref: &str, content: &[u8])
        ensures
            final(self).object_map() == old(self).object_map().insert(storage_ref@, content@),
            final(self).original_map() == old(self).original_map(),
            final(self).artifact_map() == old(self).artifact_map(),
    {
        proof {
            use_type_invariant(&*self);
        }
        let key = crate::text::text_of(storage_ref);
        let bytes = vstd::slice::slice_to_vec(content);
        let mut objects = IdMap::new();
        std::mem::swap(&mut objects, &mut self.objects);
        objects.insert(key, bytes);
        self.objects = objects;
        proof {
            assert(self.object_map() =~= old(self).object_map().insert(storage_ref@, content@));
        }
    }
}

impl Default for InMemoryEvidenceVault {
    fn default() -> (r: Self)
        ensures
            r.wf(),
            r.object_map() == Map::<Seq<char>, Seq<u8>>::empty(),
            r.original_map() == Map::<Seq<char>, EvidenceOriginal>::empty(),
            r.artifact_map() == Map::<Seq<char>, DerivedArtifact>::empty(),
    {
        InMemoryEvidenceVault::new()
    }
}

impl EvidenceObjectStore for InMemoryEvidenceVault {
    /// Stores content under a new, non-empty storage reference.
    fn put(&mut self, storage_ref: Id, content: Vec<u8>) -> (r: Result<(), &'static str>)
        ensures
            r == (if storage_ref@.len() == 0 {
                Err("storage reference is required")
            } else if old(self).object_map().contains_key(storage_ref@) {
                Err("storage object already exists")
            } else {
                Ok(())
            }),
            r is Ok ==> final(self).object_map() == old(self).object_map().insert(storage_ref@, content@),
            r is Err ==> final(self).object_map() == old(self).object_map(),
            final(self).original_map() == old(self).original_map(),
            final(self).artifact_map() == old(self).artifact_map(),
    {
        proof {
            use_type_invariant(&*self);
        }
        if storage_ref.as_str().is_empty() {
            return Err("storage reference is required");
        }
        if self.objects.contains_key(storage_ref.as_str()) {
            return Err("storage object already exists");
        }
        let ghost k = storage_ref@;
        let ghost c = content@;
        let mut objects = IdMap::new();
        std::mem::swap(&mut objects, &mut self.objects);
        objects.insert_new(storage_ref, content);
        self.objects = objects;
        proof {
            assert(self.object_map() =~= old(self).object_map().insert(k, c));
        }
        Ok(())
    }

    /// The content stored under `storage_ref`, if any.
    fn get(&self, storage_ref: &Id) -> (r: Result<Option<Vec<u8>>, &'static str>)
        ensures
            r is Ok,
            match r->Ok_0 {
                Some(c) => self.object_map().contains_key(storage_ref@) && c@ == self.object_map()[storage_ref@],
                None => !self.object_map().contains_key(storage_ref@),
            },
    {
        proof {
            use_type_invariant(self);
        }
        match self.objects.get(storage_ref.as_str()) {
            Some(v) => {
                let c = v.clone();
                proof {
                    assert(c@ =~= v@);
                }
                Ok(Some(c))
            },
            None => Ok(None),
        }
    }
}

impl EvidenceRepository for InMemoryEvidenceVault {
    fn get_original(&self, evidence_id: &Id) -> (r: Result<Option<EvidenceOriginal>, &'static str>)
        ensures
            r is Ok,
            match r->Ok_0 {
                Some(e) => self.original_map().contains_key(evidence_id@) && e == self.original_map()[evidence_id@],
                None => !self.original_map().contains_key(evidence_id@),
            },
    {
        proof {
            use_type_invariant(self);
        }
        match self.originals.get(evidence_id.as_str()) {
            Some(e) => Ok(Some(e.duplicate())),
            None => Ok(None),
        }
    }

    /// Saves a valid original under its id; an original is never replaced.
    fn save_original(&mut self, evidence: EvidenceOriginal) -> (r: Result<(), &'static str>)
        ensures
            r == (if evidence.validity() is Err {
                evidence.validity()
            } else if old(self).original_map().contains_key(evidence.evidence_id@) {
                Err("evidence original already exists")
            } else {
                Ok(())
            }),
            r is Ok ==> final(self).original_map() == old(self).original_map().insert(evidence.evidence_id@, evidence),
            r is Err ==> final(self).original_map() == old(self).original_map(),
            final(self).object_map() == old(self).object_map(),
            final(self).artifact_map() == old(self).artifact_map(),
    {
        proof {
            use_type_invariant(&*self);
        }
        match evidence.validate() {
            Ok(()) => {},
            Err(e) => return Err(e),
        }
        if self.originals.contains_key(evidence.evidence_id.as_str()) {
            return Err("evidence original already exists");
        }
        let key = evidence.evidence_id.clone();
        let mut originals = IdMap::new();
        std::mem::swap(&mut originals, &mut self.originals);
        originals.insert_new(key, evidence);
        self.originals = originals;
        Ok(())
    }

    fn get_artifact(&self, artifact_id: &Id) -> (r: Result<Option<DerivedArtifact>, &'static str>)
        ensures
            r is Ok,
            match r->Ok_0 {
                Some(a) => self.artifact_map().contains_key(artifact_id@) && a == self.artifact_map()[artifact_id@],
                None => !self.artifact_map().contains_key(artifact_id@),
            },
    {
        proof {
            use_type_invariant(self);
        }
        match self.artifacts.get(artifact_id.as_str()) {
            Some(a) => Ok(Some(a.duplicate())),
            None => Ok(None),
        }
    }

    /// Saves a valid artifact under its id; an artifact is never replaced.
    fn save_artifact(&mut self, artifact: DerivedArtifact) -> (r: Result<(), &'static str>)
        ensures
            r == (if artifact.validity() is Err {
                artifact.validity()
            } else if old(self).artifact_map().contains_key(artifact.artifact_id@) {
                Err("derived artifact already exists")
            } else {
                Ok(())
            }),
            r is Ok ==> final(self).artifact_map() == old(self).artifact_map().insert(artifact.artifact_id@, artifact),
            r is Err ==> final(self).artifact_map() == old(self).artifact_map(),
            final(self).object_map() == old(self).object_map(),
            final(self).original_map() == old(self).original_map(),
    {
        proof {
            use_type_invariant(&*self);
        }
        match artifact.validate() {
            Ok(()) => {},
            Err(e) => return Err(e),
        }
        if self.artifacts.contains_key(artifact.artifact_id.as_str()) {
            return Err("derived artifact already exists");
        }
        let key = artifact.artifact_id.clone();
        let mut artifacts = IdMap::new();
        std::mem::swap(&mut artifacts, &mut self.artifacts);
        artifacts.insert_new(key, artifact);
        self.artifacts = artifacts;
        Ok(())
    }
}

} // verus!
