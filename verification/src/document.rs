//! Documents, their versions and the artifacts derived from them, held in a
//! registry where a document always points at its current version.
use vstd::prelude::*;
use crate::id_map::IdMap;
use crate::resource::{Id, any_text_empty, has_empty_text};
use crate::text::str_eq;

verus! {

#[derive(Debug, Clone, PartialEq, Eq, Structural)]
pub enum DocumentStatus {
    Draft,
    Active,
    Superseded,
    Revoked,
    Archived,
    Deleted,
    Unknown,
}

#[derive(Debug, Clone, PartialEq, Eq, Structural)]
pub enum IntegrityStatus {
    Verified,
    Unverified,
    Modified,
    Unavailable,
}

#[derive(Debug, Clone, PartialEq, Eq)]
pub struct Document {
    pub document_id: Id,
    pub schema_version: u32,
    pub document_type: String,
    pub status: DocumentStatus,
    pub title: String,
    pub issuer_party_id: Option<Id>,
    pub recipient_party_refs: Vec<Id>,
    pub case_refs: Vec<Id>,
    pub incident_refs: Vec<Id>,
    pub jurisdiction_refs: Vec<Id>,
    pub authority_ref: Option<Id>,
    pub current_version_id: Id,
    pub provenance_ref: Option<Id>,
    pub privacy_classification: String,
    pub retention_policy_ref: Option<Id>,
    pub created_at: String,
    pub updated_at: String,
}

impl Document {
    /// The first rule that the document breaks, in the order they are checked.
    pub open spec fn validity(&self) -> Result<(), &'static str> {
        if self.document_id@.len() == 0 {
            Err("document id is required")
        } else if self.schema_version == 0 {
            Err("document schema version is required")
        } else if self.document_type@.len() == 0 {
            Err("document type is required")
        } else if self.title@.len() == 0 {
            Err("document title is required")
        } else if self.current_version_id@.len() == 0 {
            Err("current document version is required")
        } else if self.privacy_classification@.len() == 0 {
            Err("document privacy classification is required")
        } else if self.created_at@.len() == 0 || self.updated_at@.len() == 0 {
            Err("document timestamps are required")
        } else if has_empty_text(self.recipient_party_refs@) || has_empty_text(self.case_refs@) || has_empty_text(
            self.incident_refs@,
        ) || has_empty_text(self.jurisdiction_refs@) {
            Err("document references cannot be empty")
        } else {
            Ok(())
        }
    }

    pub fn validate(&self) -> (r: Result<(), &'static str>)
        ensures
            r == self.validity(),
    {
        if self.document_id.as_str().is_empty() {
            return Err("document id is required");
        }
        if self.schema_version == 0 {
            return Err("document schema version is required");
        }
        if self.document_type.as_str().is_empty() {
            return Err("document type is required");
        }
        if self.title.as_str().is_empty() {
            return Err("document title is required");
        }
        if self.current_version_id.as_str().is_empty() {
            return Err("current document version is required");
        }
        if self.privacy_classification.as_str().is_empty() {
            return Err("document privacy classification is required");
        }
        if self.created_at.as_str().is_empty() || self.updated_at.as_str().is_empty() {
            return Err("document timestamps are required");
        }
        if any_text_empty(&self.recipient_party_refs) || any_text_empty(&self.case_refs) || any_text_empty(
            &self.incident_refs,
        ) || any_text_empty(&self.jurisdiction_refs) {
            return Err("document references cannot be empty");
        }
        Ok(())
    }
}

#[derive(Debug, Clone, PartialEq, Eq)]
pub struct DocumentVersion {
    pub document_version_id: Id,
    pub document_id: Id,
    pub schema_version: u32,
    pub version_number: u32,
    pub media_type: String,
    pub content_ref: Id,
    pub content_hash: String,
    pub byte_length: Option<u64>,
    pub captured_at: Option<String>,
    pub created_by: Id,
    pub source_ref: Option<Id>,
    pub provenance_ref: Option<Id>,
    pub integrity_status: IntegrityStatus,
    pub supersedes_version_id: Option<Id>,
    pub language: Option<String>,
    pub created_at: String,
}

impl DocumentVersion {
    pub open spec fn validity(&self) -> Result<(), &'static str> {
        if self.document_version_id@.len() == 0 || self.document_id@.len() == 0 {
            Err("document version identity is required")
        } else if self.schema_version == 0 || self.version_number == 0 {
            Err("document version number and schema version are required")
        } else if self.media_type@.len() == 0 || self.content_ref@.len() == 0 || self.content_hash@.len() == 0 {
            Err("document version content metadata is required")
        } else if self.created_by@.len() == 0 || self.created_at@.len() == 0 {
            Err("document version creator and timestamp are required")
        } else {
            Ok(())
        }
    }

    pub fn validate(&self) -> (r: Result<(), &'static str>)
        ensures
            r == self.validity(),
    {
        if self.document_version_id.as_str().is_empty() || self.document_id.as_str().is_empty() {
            return Err("document version identity is required");
        }
        if self.schema_version == 0 || self.version_number == 0 {
            return Err("document version number and schema version are required");
        }
        if self.media_type.as_str().is_empty() || self.content_ref.as_str().is_empty()
            || self.content_hash.as_str().is_empty() {
            return Err("document version content metadata is required");
        }
        if self.created_by.as_str().is_empty() || self.created_at.as_str().is_empty() {
            return Err("document version creator and timestamp are required");
        }
        Ok(())
    }
}

#[derive(Debug, Clone, PartialEq, Eq)]
pub struct DerivedArtifact {
    pub artifact_id: Id,
    pub source_document_version_id: Id,
    pub artifact_type: String,
    pub content_ref: Id,
    pub content_hash: Option<String>,
    pub created_at: String,
    pub created_by: Id,
    pub processing_provenance_ref: Option<Id>,
    pub model_ref: Option<Id>,
    /// Percent, from 0 to 100.
    pub confidence: Option<u8>,
}

impl DerivedArtifact {
    pub open spec fn validity(&self) -> Result<(), &'static str> {
        if self.artifact_id@.len() == 0 || self.source_document_version_id@.len() == 0 {
            Err("artifact identity and source are required")
        } else if self.artifact_type@.len() == 0 || self.content_ref@.len() == 0 || self.created_by@.len() == 0
            || self.created_at@.len() == 0 {
            Err("artifact metadata is required")
        } else if self.confidence is Some && self.confidence->0 > 100 {
            Err("artifact confidence must be between 0 and 100")
        } else {
            Ok(())
        }
    }

    pub fn validate(&self) -> (r: Result<(), &'static str>)
        ensures
            r == self.validity(),
    {
        if self.artifact_id.as_str().is_empty() || self.source_document_version_id.as_str().is_empty() {
            return Err("artifact identity and source are required");
        }
        if self.artifact_type.as_str().is_empty() || self.content_ref.as_str().is_empty()
            || self.created_by.as_str().is_empty() || self.created_at.as_str().is_empty() {
            return Err("artifact metadata is required");
        }
        match self.confidence {
            Some(v) => {
                if v > 100 {
                    return Err("artifact confidence must be between 0 and 100");
                }
            },
            None => {},
        }
        Ok(())
    }
}

/// Every document's current version is registered and belongs to it.
pub open spec fn integrity_holds(documents: Map<Seq<char>, Document>, versions: Map<Seq<char>, DocumentVersion>) -> bool {
    forall|k: Seq<char>|
        #[trigger] documents.contains_key(k) ==> versions.contains_key(documents[k].current_version_id@)
            && versions[documents[k].current_version_id@].document_id@ == documents[k].document_id@
}

/// What checking one document's current version answers.
pub open spec fn current_version_check(d: Document, versions: Map<Seq<char>, DocumentVersion>) -> Result<(), &'static str> {
    if !versions.contains_key(d.current_version_id@) {
        Err("document current version not found")
    } else if versions[d.current_version_id@].document_id@ != d.document_id@ {
        Err("document current version belongs to another document")
    } else {
        Ok(())
    }
}

pub struct DocumentRegistry {
    documents: IdMap<Document>,
    versions: IdMap<DocumentVersion>,
    artifacts: IdMap<DerivedArtifact>,
}

impl DocumentRegistry {
    /// Each record is keyed by its own id.
    pub closed spec fn wf(&self) -> bool {
        &&& self.documents.wf()
        &&& self.versions.wf()
        &&& self.artifacts.wf()
        &&& forall|k: Seq<char>| #[trigger]
            self.documents.map().contains_key(k) ==> self.documents.map()[k].document_id@ == k
        &&& forall|k: Seq<char>| #[trigger]
            self.versions.map().contains_key(k) ==> self.versions.map()[k].document_version_id@ == k
        &&& forall|k: Seq<char>| #[trigger]
            self.artifacts.map().contains_key(k) ==> self.artifacts.map()[k].artifact_id@ == k
    }

    pub closed spec fn document_map(&self) -> Map<Seq<char>, Document> {
        self.documents.map()
    }

    pub closed spec fn version_map(&self) -> Map<Seq<char>, DocumentVersion> {
        self.versions.map()
    }

    pub closed spec fn artifact_map(&self) -> Map<Seq<char>, DerivedArtifact> {
        self.artifacts.map()
    }

    /// Documents in id order.
    pub closed spec fn document_seq(&self) -> Seq<Document> {
        self.documents.value_seq()
    }

    pub fn new() -> (r: Self)
        ensures
            r.wf(),
            r.document_map().len() == 0,
            r.version_map().len() == 0,
            r.artifact_map().len() == 0,
            r.document_map() == Map::<Seq<char>, Document>::empty(),
            r.version_map() == Map::<Seq<char>, DocumentVersion>::empty(),
            r.artifact_map() == Map::<Seq<char>, DerivedArtifact>::empty(),
    {
        DocumentRegistry { documents: IdMap::new(), versions: IdMap::new(), artifacts: IdMap::new() }
    }

    /// Registers a document on its own; its current version may not exist yet,
    /// which `validate_integrity` reports.
    pub fn insert_document(&mut self, document: Document) -> (r: Result<(), &'static str>)
        requires
            old(self).wf(),
        ensures
            final(self).wf(),
            r == (if document.validity() is Err {
                document.validity()
            } else if old(self).document_map().contains_key(document.document_id@) {
                Err("duplicate document id")
            } else {
                Ok(())
            }),
            r is Ok ==> final(self).document_map() == old(self).document_map().insert(document.document_id@, document),
            r is Err ==> final(self).document_map() == old(self).document_map(),
            final(self).version_map() == old(self).version_map(),
            final(self).artifact_map() == old(self).artifact_map(),
    {
        match document.validate() {
            Ok(()) => {},
            Err(e) => return Err(e),
        }
        if self.documents.contains_key(document.document_id.as_str()) {
            return Err("duplicate document id");
        }
        let key = document.document_id.clone();
        self.documents.insert_new(key, document);
        Ok(())
    }

    /// The checks of an initial registration, in order.
    pub open spec fn initial_admission(&self, d: Document, v: DocumentVersion) -> Result<(), &'static str> {
        if d.validity() is Err {
            d.validity()
        } else if v.validity() is Err {
            v.validity()
        } else if self.document_map().contains_key(d.document_id@) {
            Err("duplicate document id")
        } else if self.version_map().contains_key(v.document_version_id@) {
            Err("duplicate document version id")
        } else if v.document_id@ != d.document_id@ {
            Err("document version document mismatch")
        } else if v.version_number != 1 {
            Err("initial document version must be version 1")
        } else if v.supersedes_version_id is Some {
            Err("initial document version cannot supersede another version")
        } else if d.current_version_id@ != v.document_version_id@ {
            Err("document current version must match initial version")
        } else {
            Ok(())
        }
    }

    /// Registers a document together with its first version once every check
    /// passes; nothing is registered otherwise.
    pub fn insert_document_with_initial_version(&mut self, document: Document, version: DocumentVersion) -> (r:
        Result<(), &'static str>)
        requires
            old(self).wf(),
        ensures
            final(self).wf(),
            r == old(self).initial_admission(document, version),
            r is Ok ==> final(self).document_map() == old(self).document_map().insert(document.document_id@, document)
                && final(self).version_map() == old(self).version_map().insert(version.document_version_id@, version),
            r is Err ==> *final(self) == *old(self),
            final(self).artifact_map() == old(self).artifact_map(),
            integrity_holds(old(self).document_map(), old(self).version_map()) ==> integrity_holds(
                final(self).document_map(),
                final(self).version_map(),
            ),
    {
        match document.validate() {
            Ok(()) => {},
            Err(e) => return Err(e),
        }
        match version.validate() {
            Ok(()) => {},
            Err(e) => return Err(e),
        }
        if self.documents.contains_key(document.document_id.as_str()) {
            return Err("duplicate document id");
        }
        if self.versions.contains_key(version.document_version_id.as_str()) {
            return Err("duplicate document version id");
        }
        if !str_eq(version.document_id.as_str(), document.document_id.as_str()) {
            return Err("document version document mismatch");
        }
        if version.version_number != 1 {
            return Err("initial document version must be version 1");
        }
        if version.supersedes_version_id.is_some() {
            return Err("initial document version cannot supersede another version");
        }
        if !str_eq(document.current_version_id.as_str(), version.document_version_id.as_str()) {
            return Err("document current version must match initial version");
        }
        let dk = document.document_id.clone();
        let vk = version.document_version_id.clone();
        let ghost (d0, v0) = (self.document_map(), self.version_map());
        self.documents.insert_new(dk, document);
        self.versions.insert_new(vk, version);
        proof {
            if integrity_holds(d0, v0) {
                lemma_initial_registration_keeps_integrity(d0, v0, document, version);
            }
        }
        Ok(())
    }

    /// The checks of a later version, in order.
    pub open spec fn version_admission(&self, v: DocumentVersion) -> Result<(), &'static str> {
        if v.validity() is Err {
            v.validity()
        } else if self.version_map().contains_key(v.document_version_id@) {
            Err("duplicate document version id")
        } else if !self.document_map().contains_key(v.document_id@) {
            Err("document version document not found")
        } else if v.version_number == 1 {
            Err("initial document version must be registered with its document")
        } else if v.supersedes_version_id is None {
            Err("non-initial document version must identify superseded version")
        } else if !self.version_map().contains_key(v.supersedes_version_id->0@) {
            Err("superseded document version not found")
        } else {
            let s = self.version_map()[v.supersedes_version_id->0@];
            if s.document_id@ != v.document_id@ {
                Err("superseded version belongs to another document")
            } else if s.document_version_id@ != self.document_map()[v.document_id@].current_version_id@ {
                Err("new version must supersede the document current version")
            } else if v.version_number != s.version_number + 1 {
                Err("document version number must advance sequentially")
            } else {
                Ok(())
            }
        }
    }

    /// Registers a version that supersedes its document's current version
    /// with the next number, and moves the document's current pointer to it;
    /// nothing changes when a check fails.
    pub fn insert_version(&mut self, version: DocumentVersion) -> (r: Result<(), &'static str>)
        requires
            old(self).wf(),
        ensures
            final(self).wf(),
            r == old(self).version_admission(version),
            r is Ok ==> final(self).version_map() == old(self).version_map().insert(version.document_version_id@, version)
                && final(self).document_map() == old(self).document_map().insert(
                version.document_id@,
                Document {
                    current_version_id: version.document_version_id,
                    ..old(self).document_map()[version.document_id@]
                },
            ),
            r is Err ==> *final(self) == *old(self),
            final(self).artifact_map() == old(self).artifact_map(),
            integrity_holds(old(self).document_map(), old(self).version_map()) ==> integrity_holds(
                final(self).document_map(),
                final(self).version_map(),
            ),
    {
        match version.validate() {
            Ok(()) => {},
            Err(e) => return Err(e),
        }
        if self.versions.contains_key(version.document_version_id.as_str()) {
            return Err("duplicate document version id");
        }
        let current = match self.documents.get(version.document_id.as_str()) {
            Some(d) => d.current_version_id.clone(),
            None => return Err("document version document not found"),
        };
        if version.version_number == 1 {
            return Err("initial document version must be registered with its document");
        }
        let superseded_id = match &version.supersedes_version_id {
            Some(s) => s,
            None => return Err("non-initial document version must identify superseded version"),
        };
        let superseded = match self.versions.get(superseded_id.as_str()) {
            Some(s) => s,
            None => return Err("superseded document version not found"),
        };
        if !str_eq(superseded.document_id.as_str(), version.document_id.as_str()) {
            return Err("superseded version belongs to another document");
        }
        if !str_eq(superseded.document_version_id.as_str(), current.as_str()) {
            return Err("new version must supersede the document current version");
        }
        if superseded.version_number == u32::MAX || version.version_number != superseded.version_number + 1 {
            return Err("document version number must advance sequentially");
        }
        let vk = version.document_version_id.clone();
        let new_current = version.document_version_id.clone();
        let doc_key = version.document_id.clone();
        proof {
            if integrity_holds(self.document_map(), self.version_map()) {
                lemma_later_version_keeps_integrity(self.document_map(), self.version_map(), version);
            }
        }
        self.versions.insert_new(vk, version);
        let mut doc = self.documents.take(doc_key.as_str());
        doc.current_version_id = new_current;
        self.documents.insert_new(doc_key, doc);
        Ok(())
    }

    pub open spec fn artifact_admission(&self, a: DerivedArtifact) -> Result<(), &'static str> {
        if a.validity() is Err {
            a.validity()
        } else if !self.version_map().contains_key(a.source_document_version_id@) {
            Err("artifact source document version not found")
        } else if self.artifact_map().contains_key(a.artifact_id@) {
            Err("duplicate artifact id")
        } else {
            Ok(())
        }
    }

    /// Registers an artifact derived from a registered version.
    pub fn insert_artifact(&mut self, artifact: DerivedArtifact) -> (r: Result<(), &'static str>)
        requires
            old(self).wf(),
        ensures
            final(self).wf(),
            r == old(self).artifact_admission(artifact),
            r is Ok ==> final(self).artifact_map() == old(self).artifact_map().insert(artifact.artifact_id@, artifact),
            r is Err ==> final(self).artifact_map() == old(self).artifact_map(),
            final(self).document_map() == old(self).document_map(),
            final(self).version_map() == old(self).version_map(),
    {
        match artifact.validate() {
            Ok(()) => {},
            Err(e) => return Err(e),
        }
        if !self.versions.contains_key(artifact.source_document_version_id.as_str()) {
            return Err("artifact source document version not found");
        }
        if self.artifacts.contains_key(artifact.artifact_id.as_str()) {
            return Err("duplicate artifact id");
        }
        let key = artifact.artifact_id.clone();
        self.artifacts.insert_new(key, artifact);
        Ok(())
    }

    pub fn get_document(&self, id: &Id) -> (r: Option<&Document>)
        requires
            self.wf(),
        ensures
            r is Some <==> self.document_map().contains_key(id@),
            r matches Some(d) ==> *d == self.document_map()[id@],
    {
        self.documents.get(id.as_str())
    }

    pub fn get_version(&self, id: &Id) -> (r: Option<&DocumentVersion>)
        requires
            self.wf(),
        ensures
            r is Some <==> self.version_map().contains_key(id@),
            r matches Some(v) ==> *v == self.version_map()[id@],
    {
        self.versions.get(id.as_str())
    }

    pub fn get_artifact(&self, id: &Id) -> (r: Option<&DerivedArtifact>)
        requires
            self.wf(),
        ensures
            r is Some <==> self.artifact_map().contains_key(id@),
            r matches Some(a) ==> *a == self.artifact_map()[id@],
    {
        self.artifacts.get(id.as_str())
    }

    /// Checks every document, in id order, for a registered current version
    /// that belongs to it; reports the first failure.
    pub fn validate_integrity(&self) -> (r: Result<(), &'static str>)
        requires
            self.wf(),
        ensures
            r is Ok <==> integrity_holds(self.document_map(), self.version_map()),
            r is Err ==> exists|i: int|
                0 <= i < self.document_seq().len() && r == current_version_check(
                    #[trigger] self.document_seq()[i],
                    self.version_map(),
                ) && forall|j: int|
                    0 <= j < i ==> current_version_check(#[trigger] self.document_seq()[j], self.version_map()) is Ok,
    {
        proof {
            self.documents.lemma_layout();
        }
        let n = self.documents.len();
        let mut i: usize = 0;
        while i < n
            invariant
                self.wf(),
                n == self.document_seq().len(),
                i <= n,
                forall|j: int| 0 <= j < i ==> current_version_check(#[trigger] self.document_seq()[j], self.version_map()) is Ok,
                forall|j: int|
                    0 <= j < n ==> #[trigger] self.documents.map().contains_key(self.documents.key_seq()[j])
                        && self.documents.map()[self.documents.key_seq()[j]] == self.document_seq()[j],
            decreases n - i,
        {
            let d = self.documents.value_at(i);
            proof {
                let k = self.documents.key_seq()[i as int];
                assert(self.documents.map().contains_key(k));
                assert(self.document_map()[k] == *d);
                assert(d.document_id@ == k);
            }
            match self.versions.get(d.current_version_id.as_str()) {
                None => {
                    proof {
                        let k = self.documents.key_seq()[i as int];
                        assert(self.document_map().contains_key(k));
                    }
                    return Err("document current version not found");
                },
                Some(v) => {
                    if !str_eq(v.document_id.as_str(), d.document_id.as_str()) {
                        proof {
                            let k = self.documents.key_seq()[i as int];
                            assert(self.document_map().contains_key(k));
                        }
                        return Err("document current version belongs to another document");
                    }
                },
            }
            i = i + 1;
        }
        proof {
            self.lemma_all_checked();
        }
        Ok(())
    }

    proof fn lemma_all_checked(&self)
        requires
            self.wf(),
            forall|j: int|
                0 <= j < self.document_seq().len() ==> current_version_check(#[trigger] self.document_seq()[j], self.version_map()) is Ok,
        ensures
            integrity_holds(self.document_map(), self.version_map()),
    {
        self.documents.lemma_layout();
        assert forall|k: Seq<char>| #[trigger] self.document_map().contains_key(k) implies self.version_map().contains_key(
            self.document_map()[k].current_version_id@,
        ) && self.version_map()[self.document_map()[k].current_version_id@].document_id@
            == self.document_map()[k].document_id@ by {
            let i = self.documents.key_seq().index_of(k);
            assert(current_version_check(self.document_seq()[i], self.version_map()) is Ok);
        }
    }
}

impl Default for DocumentRegistry {
    fn default() -> (r: Self)
        ensures
            r.wf(),
            r.document_map() == Map::<Seq<char>, Document>::empty(),
            r.version_map() == Map::<Seq<char>, DocumentVersion>::empty(),
            r.artifact_map() == Map::<Seq<char>, DerivedArtifact>::empty(),
    {
        DocumentRegistry::new()
    }
}

/// Registering a document with its first version keeps every current
/// version pointer valid.
pub proof fn lemma_initial_registration_keeps_integrity(
    before: Map<Seq<char>, Document>,
    before_versions: Map<Seq<char>, DocumentVersion>,
    d: Document,
    v: DocumentVersion,
)
    requires
        integrity_holds(before, before_versions),
        !before_versions.contains_key(v.document_version_id@),
        v.document_id@ == d.document_id@,
        d.current_version_id@ == v.document_version_id@,
    ensures
        integrity_holds(before.insert(d.document_id@, d), before_versions.insert(v.document_version_id@, v)),
{
    let docs = before.insert(d.document_id@, d);
    let vs = before_versions.insert(v.document_version_id@, v);
    assert forall|k: Seq<char>| #[trigger] docs.contains_key(k) implies vs.contains_key(docs[k].current_version_id@)
        && vs[docs[k].current_version_id@].document_id@ == docs[k].document_id@ by {
        if k != d.document_id@ {
            assert(before.contains_key(k));
            assert(before_versions.contains_key(before[k].current_version_id@));
        }
    }
}

/// Registering a later version of a document and moving its current pointer
/// keeps every current version pointer valid.
pub proof fn lemma_later_version_keeps_integrity(
    before: Map<Seq<char>, Document>,
    before_versions: Map<Seq<char>, DocumentVersion>,
    v: DocumentVersion,
)
    requires
        integrity_holds(before, before_versions),
        before.contains_key(v.document_id@),
        before[v.document_id@].document_id@ == v.document_id@,
        !before_versions.contains_key(v.document_version_id@),
    ensures
        integrity_holds(
            before.insert(v.document_id@, Document { current_version_id: v.document_version_id, ..before[v.document_id@] }),
            before_versions.insert(v.document_version_id@, v),
        ),
{
    let docs = before.insert(v.document_id@, Document { current_version_id: v.document_version_id, ..before[v.document_id@] });
    let vs = before_versions.insert(v.document_version_id@, v);
    assert forall|k: Seq<char>| #[trigger] docs.contains_key(k) implies vs.contains_key(docs[k].current_version_id@)
        && vs[docs[k].current_version_id@].document_id@ == docs[k].document_id@ by {
        if k != v.document_id@ {
            assert(before.contains_key(k));
            assert(before_versions.contains_key(before[k].current_version_id@));
        }
    }
}

} // verus!
