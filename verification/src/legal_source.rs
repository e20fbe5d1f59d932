//! Legal sources and the propositions drawn from them.
use vstd::prelude::*;
use crate::id_map::{IdMap, lemma_sorted_unique, strictly_sorted};
use crate::resource::{Id, any_text_empty, has_empty_text, texts_view};
use crate::text::{seq_lt, str_eq, str_lt};

verus! {

#[derive(Debug, Clone, Copy, PartialEq, Eq, Structural)]
pub enum SourceType {
    ConstitutionOrLegislation,
    RuleOrRegulation,
    NotificationOrderOrCircular,
    OfficialProcedure,
    JudicialDecision,
    OfficialGuidance,
    SecondarySource,
}

#[derive(Debug, Clone, Copy, PartialEq, Eq, Structural)]
pub enum VerificationStatus {
    Verified,
    Unverified,
    Disputed,
    ReviewRequired,
}

#[derive(Debug, Clone, Copy, PartialEq, Eq, Structural)]
pub enum PropositionType {
    VerifiedRule,
    OfficialProcedure,
    AuthoritativeInterpretation,
    UserFact,
    Inference,
    Uncertainty,
    DisputedInterpretation,
    ProfessionalReviewRequired,
}

#[derive(Debug, Clone, PartialEq, Eq)]
pub struct LegalSource {
    pub source_id: Id,
    pub source_type: SourceType,
    pub title: String,
    pub issuing_authority: Id,
    pub jurisdiction: Id,
    pub citation: String,
    pub published_at: String,
    pub effective_from: String,
    pub effective_to: Option<String>,
    pub version: String,
    pub retrieved_at: String,
    pub verification_status: VerificationStatus,
    pub supersedes: Option<Id>,
}

impl LegalSource {
    pub open spec fn validity(&self) -> Result<(), &'static str> {
        if self.source_id@.len() == 0 {
            Err("source id is required")
        } else if self.title@.len() == 0 {
            Err("source title is required")
        } else if self.issuing_authority@.len() == 0 {
            Err("issuing authority is required")
        } else if self.jurisdiction@.len() == 0 {
            Err("jurisdiction is required")
        } else if self.citation@.len() == 0 {
            Err("source citation is required")
        } else if self.published_at@.len() == 0 {
            Err("publication time is required")
        } else if self.effective_from@.len() == 0 {
            Err("effective from is required")
        } else if self.version@.len() == 0 {
            Err("source version is required")
        } else if self.retrieved_at@.len() == 0 {
            Err("retrieval time is required")
        } else if self.supersedes matches Some(s) && s@ == self.source_id@ {
            Err("source cannot supersede itself")
        } else if self.effective_to matches Some(end) && seq_lt(end@, self.effective_from@) {
            Err("effective end precedes effective start")
        } else {
            Ok(())
        }
    }

    pub fn validate(&self) -> (r: Result<(), &'static str>)
        ensures
            r == self.validity(),
    {
        if self.source_id.as_str().is_empty() {
            return Err("source id is required");
        }
        if self.title.as_str().is_empty() {
            return Err("source title is required");
        }
        if self.issuing_authority.as_str().is_empty() {
            return Err("issuing authority is required");
        }
        if self.jurisdiction.as_str().is_empty() {
            return Err("jurisdiction is required");
        }
        if self.citation.as_str().is_empty() {
            return Err("source citation is required");
        }
        if self.published_at.as_str().is_empty() {
            return Err("publication time is required");
        }
        if self.effective_from.as_str().is_empty() {
            return Err("effective from is required");
        }
        if self.version.as_str().is_empty() {
            return Err("source version is required");
        }
        if self.retrieved_at.as_str().is_empty() {
            return Err("retrieval time is required");
        }
        let self_superseding = match &self.supersedes {
            Some(s) => str_eq(s.as_str(), self.source_id.as_str()),
            None => false,
        };
        if self_superseding {
            return Err("source cannot supersede itself");
        }
        let inverted = match &self.effective_to {
            Some(end) => str_lt(end.as_str(), self.effective_from.as_str()),
            None => false,
        };
        if inverted {
            return Err("effective end precedes effective start");
        }
        Ok(())
    }
}

impl crate::chain::Linked for LegalSource {
    open spec fn link(&self) -> Option<Seq<char>> {
        match self.supersedes {
            Some(s) => Some(s@),
            None => None,
        }
    }

    fn link_id(&self) -> (r: Option<&String>) {
        match &self.supersedes {
            Some(s) => Some(s),
            None => None,
        }
    }
}

#[derive(Debug, Clone, PartialEq, Eq)]
pub struct LegalProposition {
    pub proposition_id: Id,
    pub schema_version: u32,
    pub proposition_type: PropositionType,
    pub statement: String,
    pub source_refs: Vec<Id>,
    pub verification_status: VerificationStatus,
    pub confidence_basis_points: u16,
}

impl LegalProposition {
    pub open spec fn validity(&self) -> Result<(), &'static str> {
        if self.proposition_id@.len() == 0 {
            Err("proposition id is required")
        } else if self.schema_version == 0 {
            Err("schema version must be positive")
        } else if self.statement@.len() == 0 {
            Err("proposition statement is required")
        } else if self.source_refs@.len() == 0 {
            Err("proposition requires a source reference")
        } else if has_empty_text(self.source_refs@) {
            Err("proposition source reference cannot be empty")
        } else if self.confidence_basis_points > 10_000 {
            Err("confidence must be between 0 and 10000 basis points")
        } else {
            Ok(())
        }
    }

    pub fn validate(&self) -> (r: Result<(), &'static str>)
        ensures
            r == self.validity(),
    {
        if self.proposition_id.as_str().is_empty() {
            return Err("proposition id is required");
        }
        if self.schema_version == 0 {
            return Err("schema version must be positive");
        }
        if self.statement.as_str().is_empty() {
            return Err("proposition statement is required");
        }
        if self.source_refs.len() == 0 {
            return Err("proposition requires a source reference");
        }
        if any_text_empty(&self.source_refs) {
            return Err("proposition source reference cannot be empty");
        }
        if self.confidence_basis_points > 10_000 {
            return Err("confidence must be between 0 and 10000 basis points");
        }
        Ok(())
    }

    /// Sorts the source references and drops repeats.
    pub fn canonical_source_refs(&mut self)
        ensures
            strictly_sorted(texts_view(final(self).source_refs@)),
            texts_view(final(self).source_refs@).to_set() == texts_view(old(self).source_refs@).to_set(),
            strictly_sorted(texts_view(old(self).source_refs@)) ==> texts_view(final(self).source_refs@) == texts_view(
                old(self).source_refs@,
            ),
            final(self).proposition_id == old(self).proposition_id,
            final(self).schema_version == old(self).schema_version,
            final(self).proposition_type == old(self).proposition_type,
            final(self).statement == old(self).statement,
            final(self).verification_status == old(self).verification_status,
            final(self).confidence_basis_points == old(self).confidence_basis_points,
    {
        let mut refs: Vec<String> = Vec::new();
        std::mem::swap(&mut refs, &mut self.source_refs);
        self.source_refs = sorted_unique(refs);
        proof {
            if strictly_sorted(texts_view(old(self).source_refs@)) {
                lemma_sorted_unique(texts_view(self.source_refs@), texts_view(old(self).source_refs@));
            }
        }
    }
}

/// The texts of `items` in ascending order without repeats.
pub fn sorted_unique(items: Vec<String>) -> (r: Vec<String>)
    ensures
        strictly_sorted(texts_view(r@)),
        texts_view(r@).to_set() == texts_view(items@).to_set(),
{
    let ghost all = texts_view(items@);
    let mut set: IdMap<()> = IdMap::new();
    let mut rest = items;
    let mut i: usize = 0;
    let n = rest.len();
    while i < n
        invariant
            set.wf(),
            n == all.len(),
            i <= n,
            texts_view(rest@) == all.skip(i as int),
            forall|k: Seq<char>| set.map().contains_key(k) <==> all.take(i as int).contains(k),
        decreases n - i,
    {
        proof {
            assert(texts_view(rest@).len() == rest@.len());
            assert(texts_view(rest@)[0] == rest@[0]@);
        }
        let ghost before = rest@;
        let item = rest.remove(0);
        proof {
            assert(before[0] == item);
            assert(all.skip(i as int)[0] == item@);
            assert(all.take(i + 1) =~= all.take(i as int).push(item@));
            assert(rest@ =~= before.subrange(1, before.len() as int));
            assert forall|t: int| 0 <= t < rest@.len() implies #[trigger] texts_view(rest@)[t] == all.skip(
                i + 1,
            )[t] by {
                assert(texts_view(before)[t + 1] == before[t + 1]@);
            }
            assert(texts_view(rest@) =~= all.skip(i + 1));
        }
        set.insert(item, ());
        proof {
            assert forall|k: Seq<char>| set.map().contains_key(k) <==> all.take(i + 1).contains(k) by {
                if k == item@ {
                    assert(all.take(i + 1)[i as int] == k);
                } else if all.take(i + 1).contains(k) {
                    let j = all.take(i + 1).index_of(k);
                    assert(all.take(i as int)[j] == k);
                }
            }
        }
        i = i + 1;
    }
    let r = set.keys();
    proof {
        assert(all.take(n as int) =~= all);
        assert(texts_view(r@) =~= r@.map_values(|s: String| s@));
        assert(texts_view(r@).to_set() =~= all.to_set());
    }
    r
}

} // verus!
