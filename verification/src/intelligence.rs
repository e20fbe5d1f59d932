//! The provider-neutral intelligence boundary: requests carry their policy
//! context, and responses are accepted only when they answer the request
//! they claim to answer. Providers are untrusted computation.
use vstd::prelude::*;
use crate::json::JsonValue;
use crate::resource::{Id, ResourceRef};
use crate::text::str_eq;

verus! {

/// Evidentiary position of a claim. It grants no legal authority, and a
/// provider must not silently strengthen it.
#[derive(Debug, Clone, Copy, PartialEq, Eq, Structural)]
pub enum EpistemicStatus {
    Observed,
    UserReported,
    EvidenceSupported,
    SourceSupported,
    SystemDerived,
    Inferred,
    Unverified,
    Contested,
    Unknown,
}

/// The statuses that leave a claim uncertain.
pub open spec fn uncertain(s: EpistemicStatus) -> bool {
    s is Inferred || s is Unverified || s is Contested || s is Unknown
}

impl EpistemicStatus {
    pub fn is_uncertain(&self) -> (b: bool)
        ensures
            b == uncertain(*self),
    {
        match self {
            EpistemicStatus::Inferred | EpistemicStatus::Unverified | EpistemicStatus::Contested
            | EpistemicStatus::Unknown => true,
            _ => false,
        }
    }
}

/// Risk class supplied by the caller or the policy layer.
#[derive(Debug, Clone, Copy, PartialEq, Eq, Structural)]
pub enum IntelligenceRiskClass {
    Low,
    Medium,
    HighImpact,
}

/// Data class supplied by policy, never inferred by a model.
#[derive(Debug, Clone, Copy, PartialEq, Eq, Structural)]
pub enum IntelligenceDataClass {
    Public,
    Internal,
    Confidential,
    Restricted,
}

#[derive(Debug, Clone, PartialEq, Eq)]
pub struct IntelligenceRequest {
    pub request_id: Id,
    pub capability_id: Id,
    pub contract_version: String,
    pub provider_id: Id,
    pub model_id: Option<Id>,
    pub model_version: Option<String>,
    pub task_type: String,
    pub context_refs: Vec<ResourceRef>,
    pub jurisdiction_ref: Option<ResourceRef>,
    pub data_class: IntelligenceDataClass,
    pub required_output_schema: String,
    pub tool_permissions: Vec<ResourceRef>,
    pub retrieval_required: bool,
    pub provenance_required: bool,
    pub risk_class: IntelligenceRiskClass,
    pub human_approval_required: bool,
}

impl IntelligenceRequest {
    /// The first rule that the request breaks: identity, contract, provider,
    /// task and output schema are required, and a high-impact request needs
    /// human approval.
    pub open spec fn validity(&self) -> Result<(), &'static str> {
        if self.request_id@.len() == 0 {
            Err("intelligence request id is required")
        } else if self.capability_id@.len() == 0 {
            Err("intelligence capability id is required")
        } else if self.contract_version@.len() == 0 {
            Err("intelligence contract version is required")
        } else if self.provider_id@.len() == 0 {
            Err("intelligence provider id is required")
        } else if self.task_type@.len() == 0 {
            Err("intelligence task type is required")
        } else if self.required_output_schema@.len() == 0 {
            Err("intelligence output schema is required")
        } else if self.risk_class == IntelligenceRiskClass::HighImpact && !self.human_approval_required {
            Err("high-impact intelligence requires human approval")
        } else {
            Ok(())
        }
    }

    pub fn validate(&self) -> (r: Result<(), &'static str>)
        ensures
            r == self.validity(),
    {
        if self.request_id.as_str().is_empty() {
            return Err("intelligence request id is required");
        }
        if self.capability_id.as_str().is_empty() {
            return Err("intelligence capability id is required");
        }
        if self.contract_version.as_str().is_empty() {
            return Err("intelligence contract version is required");
        }
        if self.provider_id.as_str().is_empty() {
            return Err("intelligence provider id is required");
        }
        if self.task_type.as_str().is_empty() {
            return Err("intelligence task type is required");
        }
        if self.required_output_schema.as_str().is_empty() {
            return Err("intelligence output schema is required");
        }
        if self.risk_class == IntelligenceRiskClass::HighImpact && !self.human_approval_required {
            return Err("high-impact intelligence requires human approval");
        }
        Ok(())
    }
}

#[derive(Debug, Clone, PartialEq, Eq)]
pub struct IntelligenceClaim {
    pub claim_id: Id,
    pub content: String,
    pub status: EpistemicStatus,
    pub source_refs: Vec<ResourceRef>,
    pub evidence_refs: Vec<ResourceRef>,
    pub provenance_ref: Option<ResourceRef>,
}

impl IntelligenceClaim {
    pub open spec fn validity(&self) -> Result<(), &'static str> {
        if self.claim_id@.len() == 0 {
            Err("intelligence claim id is required")
        } else if self.content@.len() == 0 {
            Err("intelligence claim content is required")
        } else {
            Ok(())
        }
    }

    pub fn validate(&self) -> (r: Result<(), &'static str>)
        ensures
            r == self.validity(),
    {
        if self.claim_id.as_str().is_empty() {
            return Err("intelligence claim id is required");
        }
        if self.content.as_str().is_empty() {
            return Err("intelligence claim content is required");
        }
        Ok(())
    }
}

#[derive(Debug, Clone, PartialEq, Eq)]
pub struct IntelligenceToolProposal {
    pub tool_ref: ResourceRef,
    pub arguments: JsonValue,
}

#[derive(Debug, Clone, PartialEq, Eq)]
pub struct IntelligenceResponse {
    pub request_id: Id,
    pub provider_id: Id,
    pub model_id: Option<Id>,
    pub model_version: Option<String>,
    pub output: String,
    pub claims: Vec<IntelligenceClaim>,
    pub source_refs: Vec<ResourceRef>,
    pub evidence_refs: Vec<ResourceRef>,
    pub tool_proposals: Vec<IntelligenceToolProposal>,
    pub warnings: Vec<String>,
    pub provenance_refs: Vec<ResourceRef>,
}

/// The error of the first invalid claim, if any.
pub open spec fn first_claim_fault(claims: Seq<IntelligenceClaim>) -> Option<&'static str>
    decreases claims.len(),
{
    if claims.len() == 0 {
        None
    } else if claims[0].validity() is Err {
        Some(claims[0].validity()->Err_0)
    } else {
        first_claim_fault(claims.drop_first())
    }
}

impl IntelligenceResponse {
    /// What checking the response against `request` answers, in order.
    pub open spec fn answer_check(&self, request: IntelligenceRequest) -> Result<(), &'static str> {
        if request.validity() is Err {
            request.validity()
        } else if self.request_id@ != request.request_id@ {
            Err("intelligence response request id mismatch")
        } else if self.provider_id@ != request.provider_id@ {
            Err("intelligence response provider id mismatch")
        } else if self.output@.len() == 0 && self.claims@.len() == 0 {
            Err("intelligence response output is empty")
        } else if first_claim_fault(self.claims@) is Some {
            Err(first_claim_fault(self.claims@)->0)
        } else if request.provenance_required && self.provenance_refs@.len() == 0 {
            Err("intelligence response provenance is required")
        } else {
            Ok(())
        }
    }

    /// Accepts the response only for the request it answers: a valid request,
    /// the same request and provider, some output, valid claims, and
    /// provenance when the request requires it.
    pub fn validate_against(&self, request: &IntelligenceRequest) -> (r: Result<(), &'static str>)
        ensures
            r == self.answer_check(*request),
    {
        match request.validate() {
            Ok(()) => {},
            Err(e) => return Err(e),
        }
        if !str_eq(self.request_id.as_str(), request.request_id.as_str()) {
            return Err("intelligence response request id mismatch");
        }
        if !str_eq(self.provider_id.as_str(), request.provider_id.as_str()) {
            return Err("intelligence response provider id mismatch");
        }
        if self.output.as_str().is_empty() && self.claims.len() == 0 {
            return Err("intelligence response output is empty");
        }
        let mut k: usize = 0;
        proof {
            assert(self.claims@.skip(0) =~= self.claims@);
        }
        while k < self.claims.len()
            invariant
                k <= self.claims@.len(),
                first_claim_fault(self.claims@) == first_claim_fault(self.claims@.skip(k as int)),
                request.validity() is Ok,
                self.request_id@ == request.request_id@,
                self.provider_id@ == request.provider_id@,
                !(self.output@.len() == 0 && self.claims@.len() == 0),
            decreases self.claims@.len() - k,
        {
            proof {
                let rest = self.claims@.skip(k as int);
                assert(rest[0] == self.claims@[k as int]);
                assert(rest.drop_first() =~= self.claims@.skip(k + 1));
            }
            match self.claims[k].validate() {
                Ok(()) => {},
                Err(e) => return Err(e),
            }
            k = k + 1;
        }
        proof {
            assert(self.claims@.skip(k as int).len() == 0);
        }
        if request.provenance_required && self.provenance_refs.len() == 0 {
            return Err("intelligence response provenance is required");
        }
        Ok(())
    }
}

#[derive(Debug, Clone, Copy, PartialEq, Eq)]
pub enum IntelligenceError {
    InvalidRequest(&'static str),
    ProviderRejected,
    ProviderUnavailable,
    Timeout,
    MalformedOutput(&'static str),
    PolicyDenied(&'static str),
}

/// An intelligence provider, implemented by each deployment. Providers are
/// untrusted computation and must not bypass policy, authorization, tool,
/// provenance or approval boundaries.
pub trait IntelligenceProvider {
    fn execute(&self, request: &IntelligenceRequest) -> Result<IntelligenceResponse, IntelligenceError>;
}

} // verus!
