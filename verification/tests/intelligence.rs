use sidereth::intelligence::{EpistemicStatus, IntelligenceDataClass, IntelligenceRequest, IntelligenceResponse, IntelligenceRiskClass, IntelligenceClaim};
use sidereth::{ResourceRef, ResourceType};
fn reference(resource_type: ResourceType, id: &str) -> ResourceRef {
    ResourceRef::new(resource_type, id.into()).unwrap()
}

fn request() -> IntelligenceRequest {
    IntelligenceRequest {
        request_id: "req-1".into(),
        capability_id: "legal.analysis".into(),
        contract_version: "1.0".into(),
        provider_id: "fake-provider".into(),
        model_id: Some("fake-model".into()),
        model_version: Some("1".into()),
        task_type: "analysis".into(),
        context_refs: vec![reference(ResourceType::Document, "doc-1")],
        jurisdiction_ref: Some(reference(ResourceType::Jurisdiction, "india")),
        data_class: IntelligenceDataClass::Confidential,
        required_output_schema: "intelligence.response.v1".into(),
        tool_permissions: Vec::new(),
        retrieval_required: true,
        provenance_required: true,
        risk_class: IntelligenceRiskClass::Medium,
        human_approval_required: false,
    }
}

#[test]
fn request_validation_rejects_missing_identity() {
    let mut value = request();
    value.request_id.clear();
    assert_eq!(value.validate(), Err("intelligence request id is required"));
}

#[test]
fn high_impact_request_requires_approval() {
    let mut value = request();
    value.risk_class = IntelligenceRiskClass::HighImpact;
    assert_eq!(
        value.validate(),
        Err("high-impact intelligence requires human approval")
    );
    value.human_approval_required = true;
    assert!(value.validate().is_ok());
}

#[test]
fn response_must_bind_to_request() {
    let req = request();
    let response = IntelligenceResponse {
        request_id: "other".into(),
        provider_id: "fake-provider".into(),
        model_id: Some("fake-model".into()),
        model_version: Some("1".into()),
        output: "candidate".into(),
        claims: Vec::new(),
        source_refs: Vec::new(),
        evidence_refs: Vec::new(),
        tool_proposals: Vec::new(),
        warnings: Vec::new(),
        provenance_refs: vec![reference(ResourceType::Provenance, "prov-1")],
    };
    assert_eq!(
        response.validate_against(&req),
        Err("intelligence response request id mismatch")
    );
}

#[test]
fn provenance_is_required_when_requested() {
    let req = request();
    let response = IntelligenceResponse {
        request_id: req.request_id.clone(),
        provider_id: req.provider_id.clone(),
        model_id: req.model_id.clone(),
        model_version: req.model_version.clone(),
        output: "candidate".into(),
        claims: Vec::new(),
        source_refs: Vec::new(),
        evidence_refs: Vec::new(),
        tool_proposals: Vec::new(),
        warnings: Vec::new(),
        provenance_refs: Vec::new(),
    };
    assert_eq!(
        response.validate_against(&req),
        Err("intelligence response provenance is required")
    );
}



#[test]
fn uncertain_epistemic_status_remains_uncertain() {
    assert!(EpistemicStatus::Inferred.is_uncertain());
    assert!(EpistemicStatus::Unverified.is_uncertain());
    assert!(EpistemicStatus::Contested.is_uncertain());
    assert!(EpistemicStatus::Unknown.is_uncertain());
    assert!(!EpistemicStatus::Observed.is_uncertain());
}

#[test]
fn invalid_claim_is_reported_by_its_own_rule() {
    let req = request();
    let response = IntelligenceResponse {
        request_id: req.request_id.clone(),
        provider_id: req.provider_id.clone(),
        model_id: None,
        model_version: None,
        output: String::new(),
        claims: vec![IntelligenceClaim {
            claim_id: "claim-1".into(),
            content: String::new(),
            status: EpistemicStatus::Inferred,
            source_refs: Vec::new(),
            evidence_refs: Vec::new(),
            provenance_ref: None,
        }],
        source_refs: Vec::new(),
        evidence_refs: Vec::new(),
        tool_proposals: Vec::new(),
        warnings: Vec::new(),
        provenance_refs: vec![reference(ResourceType::Provenance, "prov-1")],
    };
    assert_eq!(
        response.validate_against(&req),
        Err("intelligence claim content is required")
    );
}
