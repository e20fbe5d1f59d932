//! Typed references between resources.
use vstd::prelude::*;
use crate::text::str_eq;

verus! {

/// Identifier of a resource. Every registry keys its records by one.
pub type Id = String;

/// Kind of resource that a reference targets.
#[derive(Debug, Clone, Copy, PartialEq, Eq, Hash, Structural)]
pub enum ResourceType {
    Case,
    Incident,
    Event,
    Observation,
    Evidence,
    Authority,
    Jurisdiction,
    Party,
    PartyRelationship,
    Document,
    Action,
    Deadline,
    Response,
    Escalation,
    Remedy,
    Resolution,
    Procedure,
    ComplianceRequirement,
    LegalSource,
    Timeline,
    Audit,
    Provenance,
    Idempotency,
    Other,
}

/// Name of a resource type as written in audit records (the variant's name).
pub open spec fn type_label(t: ResourceType) -> &'static str {
    match t {
            ResourceType::Case => "Case",
            ResourceType::Incident => "Incident",
            ResourceType::Event => "Event",
            ResourceType::Observation => "Observation",
            ResourceType::Evidence => "Evidence",
            ResourceType::Authority => "Authority",
            ResourceType::Jurisdiction => "Jurisdiction",
            ResourceType::Party => "Party",
            ResourceType::PartyRelationship => "PartyRelationship",
            ResourceType::Document => "Document",
            ResourceType::Action => "Action",
            ResourceType::Deadline => "Deadline",
            ResourceType::Response => "Response",
            ResourceType::Escalation => "Escalation",
            ResourceType::Remedy => "Remedy",
            ResourceType::Resolution => "Resolution",
            ResourceType::Procedure => "Procedure",
            ResourceType::ComplianceRequirement => "ComplianceRequirement",
            ResourceType::LegalSource => "LegalSource",
            ResourceType::Timeline => "Timeline",
            ResourceType::Audit => "Audit",
            ResourceType::Provenance => "Provenance",
            ResourceType::Idempotency => "Idempotency",
            ResourceType::Other => "Other",
    }
}

/// The resource type whose label is `s`.
pub open spec fn type_of_label(s: Seq<char>) -> Option<ResourceType> {
    if s == "Case"@ {
        Some(ResourceType::Case)
    } else if s == "Incident"@ {
        Some(ResourceType::Incident)
    } else if s == "Event"@ {
        Some(ResourceType::Event)
    } else if s == "Observation"@ {
        Some(ResourceType::Observation)
    } else if s == "Evidence"@ {
        Some(ResourceType::Evidence)
    } else if s == "Authority"@ {
        Some(ResourceType::Authority)
    } else if s == "Jurisdiction"@ {
        Some(ResourceType::Jurisdiction)
    } else if s == "Party"@ {
        Some(ResourceType::Party)
    } else if s == "PartyRelationship"@ {
        Some(ResourceType::PartyRelationship)
    } else if s == "Document"@ {
        Some(ResourceType::Document)
    } else if s == "Action"@ {
        Some(ResourceType::Action)
    } else if s == "Deadline"@ {
        Some(ResourceType::Deadline)
    } else if s == "Response"@ {
        Some(ResourceType::Response)
    } else if s == "Escalation"@ {
        Some(ResourceType::Escalation)
    } else if s == "Remedy"@ {
        Some(ResourceType::Remedy)
    } else if s == "Resolution"@ {
        Some(ResourceType::Resolution)
    } else if s == "Procedure"@ {
        Some(ResourceType::Procedure)
    } else if s == "ComplianceRequirement"@ {
        Some(ResourceType::ComplianceRequirement)
    } else if s == "LegalSource"@ {
        Some(ResourceType::LegalSource)
    } else if s == "Timeline"@ {
        Some(ResourceType::Timeline)
    } else if s == "Audit"@ {
        Some(ResourceType::Audit)
    } else if s == "Provenance"@ {
        Some(ResourceType::Provenance)
    } else if s == "Idempotency"@ {
        Some(ResourceType::Idempotency)
    } else if s == "Other"@ {
        Some(ResourceType::Other)
    } else {
        None
    }
}

/// Each type's label reads back as that type.
pub proof fn lemma_type_label_round_trip(x: ResourceType)
    ensures
        type_of_label(type_label(x)@) == Some(x),
{
    match x {
        ResourceType::Case => {
            reveal_strlit("Case");
        },
        ResourceType::Incident => {
            reveal_strlit("Incident");
            reveal_strlit("Case");
            assert("Incident"@ != "Case"@) by { assert("Incident"@.len() != "Case"@.len()); }
        },
        ResourceType::Event => {
            reveal_strlit("Event");
            reveal_strlit("Case");
            assert("Event"@ != "Case"@) by { assert("Event"@.len() != "Case"@.len()); }
            reveal_strlit("Incident");
            assert("Event"@ != "Incident"@) by { assert("Event"@.len() != "Incident"@.len()); }
        },
        ResourceType::Observation => {
            reveal_strlit("Observation");
            reveal_strlit("Case");
            assert("Observation"@ != "Case"@) by { assert("Observation"@.len() != "Case"@.len()); }
            reveal_strlit("Incident");
            assert("Observation"@ != "Incident"@) by { assert("Observation"@.len() != "Incident"@.len()); }
            reveal_strlit("Event");
            assert("Observation"@ != "Event"@) by { assert("Observation"@.len() != "Event"@.len()); }
        },
        ResourceType::Evidence => {
            reveal_strlit("Evidence");
            reveal_strlit("Case");
            assert("Evidence"@ != "Case"@) by { assert("Evidence"@.len() != "Case"@.len()); }
            reveal_strlit("Incident");
            assert("Evidence"@ != "Incident"@) by { assert("Evidence"@[0] != "Incident"@[0]); }
            reveal_strlit("Event");
            assert("Evidence"@ != "Event"@) by { assert("Evidence"@.len() != "Event"@.len()); }
            reveal_strlit("Observation");
            assert("Evidence"@ != "Observation"@) by { assert("Evidence"@.len() != "Observation"@.len()); }
        },
        ResourceType::Authority => {
            reveal_strlit("Authority");
            reveal_strlit("Case");
            assert("Authority"@ != "Case"@) by { assert("Authority"@.len() != "Case"@.len()); }
            reveal_strlit("Incident");
            assert("Authority"@ != "Incident"@) by { assert("Authority"@.len() != "Incident"@.len()); }
            reveal_strlit("Event");
            assert("Authority"@ != "Event"@) by { assert("Authority"@.len() != "Event"@.len()); }
            reveal_strlit("Observation");
            assert("Authority"@ != "Observation"@) by { assert("Authority"@.len() != "Observation"@.len()); }
            reveal_strlit("Evidence");
            assert("Authority"@ != "Evidence"@) by { assert("Authority"@.len() != "Evidence"@.len()); }
        },
        ResourceType::Jurisdiction => {
            reveal_strlit("Jurisdiction");
            reveal_strlit("Case");
            assert("Jurisdiction"@ != "Case"@) by { assert("Jurisdiction"@.len() != "Case"@.len()); }
            reveal_strlit("Incident");
            assert("Jurisdiction"@ != "Incident"@) by { assert("Jurisdiction"@.len() != "Incident"@.len()); }
            reveal_strlit("Event");
            assert("Jurisdiction"@ != "Event"@) by { assert("Jurisdiction"@.len() != "Event"@.len()); }
            reveal_strlit("Observation");
            assert("Jurisdiction"@ != "Observation"@) by { assert("Jurisdiction"@.len() != "Observation"@.len()); }
            reveal_strlit("Evidence");
            assert("Jurisdiction"@ != "Evidence"@) by { assert("Jurisdiction"@.len() != "Evidence"@.len()); }
            reveal_strlit("Authority");
            assert("Jurisdiction"@ != "Authority"@) by { assert("Jurisdiction"@.len() != "Authority"@.len()); }
        },
        ResourceType::Party => {
            reveal_strlit("Party");
            reveal_strlit("Case");
            assert("Party"@ != "Case"@) by { assert("Party"@.len() != "Case"@.len()); }
            reveal_strlit("Incident");
            assert("Party"@ != "Incident"@) by { assert("Party"@.len() != "Incident"@.len()); }
            reveal_strlit("Event");
            assert("Party"@ != "Event"@) by { assert("Party"@[0] != "Event"@[0]); }
            reveal_strlit("Observation");
            assert("Party"@ != "Observation"@) by { assert("Party"@.len() != "Observation"@.len()); }
            reveal_strlit("Evidence");
            assert("Party"@ != "Evidence"@) by { assert("Party"@.len() != "Evidence"@.len()); }
            reveal_strlit("Authority");
            assert("Party"@ != "Authority"@) by { assert("Party"@.len() != "Authority"@.len()); }
            reveal_strlit("Jurisdiction");
            assert("Party"@ != "Jurisdiction"@) by { assert("Party"@.len() != "Jurisdiction"@.len()); }
        },
        ResourceType::PartyRelationship => {
            reveal_strlit("PartyRelationship");
            reveal_strlit("Case");
            assert("PartyRelationship"@ != "Case"@) by { assert("PartyRelationship"@.len() != "Case"@.len()); }
            reveal_strlit("Incident");
            assert("PartyRelationship"@ != "Incident"@) by { assert("PartyRelationship"@.len() != "Incident"@.len()); }
            reveal_strlit("Event");
            assert("PartyRelationship"@ != "Event"@) by { assert("PartyRelationship"@.len() != "Event"@.len()); }
            reveal_strlit("Observation");
            assert("PartyRelationship"@ != "Observation"@) by { assert("PartyRelationship"@.len() != "Observation"@.len()); }
            reveal_strlit("Evidence");
            assert("PartyRelationship"@ != "Evidence"@) by { assert("PartyRelationship"@.len() != "Evidence"@.len()); }
            reveal_strlit("Authority");
            assert("PartyRelationship"@ != "Authority"@) by { assert("PartyRelationship"@.len() != "Authority"@.len()); }
            reveal_strlit("Jurisdiction");
            assert("PartyRelationship"@ != "Jurisdiction"@) by { assert("PartyRelationship"@.len() != "Jurisdiction"@.len()); }
            reveal_strlit("Party");
            assert("PartyRelationship"@ != "Party"@) by { assert("PartyRelationship"@.len() != "Party"@.len()); }
        },
        ResourceType::Document => {
            reveal_strlit("Document");
            reveal_strlit("Case");
            assert("Document"@ != "Case"@) by { assert("Document"@.len() != "Case"@.len()); }
            reveal_strlit("Incident");
            assert("Document"@ != "Incident"@) by { assert("Document"@[0] != "Incident"@[0]); }
            reveal_strlit("Event");
            assert("Document"@ != "Event"@) by { assert("Document"@.len() != "Event"@.len()); }
            reveal_strlit("Observation");
            assert("Document"@ != "Observation"@) by { assert("Document"@.len() != "Observation"@.len()); }
            reveal_strlit("Evidence");
            assert("Document"@ != "Evidence"@) by { assert("Document"@[0] != "Evidence"@[0]); }
            reveal_strlit("Authority");
            assert("Document"@ != "Authority"@) by { assert("Document"@.len() != "Authority"@.len()); }
            reveal_strlit("Jurisdiction");
            assert("Document"@ != "Jurisdiction"@) by { assert("Document"@.len() != "Jurisdiction"@.len()); }
            reveal_strlit("Party");
            assert("Document"@ != "Party"@) by { assert("Document"@.len() != "Party"@.len()); }
            reveal_strlit("PartyRelationship");
            assert("Document"@ != "PartyRelationship"@) by { assert("Document"@.len() != "PartyRelationship"@.len()); }
        },
        ResourceType::Action => {
            reveal_strlit("Action");
            reveal_strlit("Case");
            assert("Action"@ != "Case"@) by { assert("Action"@.len() != "Case"@.len()); }
            reveal_strlit("Incident");
            assert("Action"@ != "Incident"@) by { assert("Action"@.len() != "Incident"@.len()); }
            reveal_strlit("Event");
            assert("Action"@ != "Event"@) by { assert("Action"@.len() != "Event"@.len()); }
            reveal_strlit("Observation");
            assert("Action"@ != "Observation"@) by { assert("Action"@.len() != "Observation"@.len()); }
            reveal_strlit("Evidence");
            assert("Action"@ != "Evidence"@) by { assert("Action"@.len() != "Evidence"@.len()); }
            reveal_strlit("Authority");
            assert("Action"@ != "Authority"@) by { assert("Action"@.len() != "Authority"@.len()); }
            reveal_strlit("Jurisdiction");
            assert("Action"@ != "Jurisdiction"@) by { assert("Action"@.len() != "Jurisdiction"@.len()); }
            reveal_strlit("Party");
            assert("Action"@ != "Party"@) by { assert("Action"@.len() != "Party"@.len()); }
            reveal_strlit("PartyRelationship");
            assert("Action"@ != "PartyRelationship"@) by { assert("Action"@.len() != "PartyRelationship"@.len()); }
            reveal_strlit("Document");
            assert("Action"@ != "Document"@) by { assert("Action"@.len() != "Document"@.len()); }
        },
        ResourceType::Deadline => {
            reveal_strlit("Deadline");
            reveal_strlit("Case");
            assert("Deadline"@ != "Case"@) by { assert("Deadline"@.len() != "Case"@.len()); }
            reveal_strlit("Incident");
            assert("Deadline"@ != "Incident"@) by { assert("Deadline"@[0] != "Incident"@[0]); }
            reveal_strlit("Event");
            assert("Deadline"@ != "Event"@) by { assert("Deadline"@.len() != "Event"@.len()); }
            reveal_strlit("Observation");
            assert("Deadline"@ != "Observation"@) by { assert("Deadline"@.len() != "Observation"@.len()); }
            reveal_strlit("Evidence");
            assert("Deadline"@ != "Evidence"@) by { assert("Deadline"@[0] != "Evidence"@[0]); }
            reveal_strlit("Authority");
            assert("Deadline"@ != "Authority"@) by { assert("Deadline"@.len() != "Authority"@.len()); }
            reveal_strlit("Jurisdiction");
            assert("Deadline"@ != "Jurisdiction"@) by { assert("Deadline"@.len() != "Jurisdiction"@.len()); }
            reveal_strlit("Party");
            assert("Deadline"@ != "Party"@) by { assert("Deadline"@.len() != "Party"@.len()); }
            reveal_strlit("PartyRelationship");
            assert("Deadline"@ != "PartyRelationship"@) by { assert("Deadline"@.len() != "PartyRelationship"@.len()); }
            reveal_strlit("Document");
            assert("Deadline"@ != "Document"@) by { assert("Deadline"@[1] != "Document"@[1]); }
            reveal_strlit("Action");
            assert("Deadline"@ != "Action"@) by { assert("Deadline"@.len() != "Action"@.len()); }
        },
        ResourceType::Response => {
            reveal_strlit("Response");
            reveal_strlit("Case");
            assert("Response"@ != "Case"@) by { assert("Response"@.len() != "Case"@.len()); }
            reveal_strlit("Incident");
            assert("Response"@ != "Incident"@) by { assert("Response"@[0] != "Incident"@[0]); }
            reveal_strlit("Event");
            assert("Response"@ != "Event"@) by { assert("Response"@.len() != "Event"@.len()); }
            reveal_strlit("Observation");
            assert("Response"@ != "Observation"@) by { assert("Response"@.len() != "Observation"@.len()); }
            reveal_strlit("Evidence");
            assert("Response"@ != "Evidence"@) by { assert("Response"@[0] != "Evidence"@[0]); }
            reveal_strlit("Authority");
            assert("Response"@ != "Authority"@) by { assert("Response"@.len() != "Authority"@.len()); }
            reveal_strlit("Jurisdiction");
            assert("Response"@ != "Jurisdiction"@) by { assert("Response"@.len() != "Jurisdiction"@.len()); }
            reveal_strlit("Party");
            assert("Response"@ != "Party"@) by { assert("Response"@.len() != "Party"@.len()); }
            reveal_strlit("PartyRelationship");
            assert("Response"@ != "PartyRelationship"@) by { assert("Response"@.len() != "PartyRelationship"@.len()); }
            reveal_strlit("Document");
            assert("Response"@ != "Document"@) by { assert("Response"@[0] != "Document"@[0]); }
            reveal_strlit("Action");
            assert("Response"@ != "Action"@) by { assert("Response"@.len() != "Action"@.len()); }
            reveal_strlit("Deadline");
            assert("Response"@ != "Deadline"@) by { assert("Response"@[0] != "Deadline"@[0]); }
        },
        ResourceType::Escalation => {
            reveal_strlit("Escalation");
            reveal_strlit("Case");
            assert("Escalation"@ != "Case"@) by { assert("Escalation"@.len() != "Case"@.len()); }
            reveal_strlit("Incident");
            assert("Escalation"@ != "Incident"@) by { assert("Escalation"@.len() != "Incident"@.len()); }
            reveal_strlit("Event");
            assert("Escalation"@ != "Event"@) by { assert("Escalation"@.len() != "Event"@.len()); }
            reveal_strlit("Observation");
            assert("Escalation"@ != "Observation"@) by { assert("Escalation"@.len() != "Observation"@.len()); }
            reveal_strlit("Evidence");
            assert("Escalation"@ != "Evidence"@) by { assert("Escalation"@.len() != "Evidence"@.len()); }
            reveal_strlit("Authority");
            assert("Escalation"@ != "Authority"@) by { assert("Escalation"@.len() != "Authority"@.len()); }
            reveal_strlit("Jurisdiction");
            assert("Escalation"@ != "Jurisdiction"@) by { assert("Escalation"@.len() != "Jurisdiction"@.len()); }
            reveal_strlit("Party");
            assert("Escalation"@ != "Party"@) by { assert("Escalation"@.len() != "Party"@.len()); }
            reveal_strlit("PartyRelationship");
            assert("Escalation"@ != "PartyRelationship"@) by { assert("Escalation"@.len() != "PartyRelationship"@.len()); }
            reveal_strlit("Document");
            assert("Escalation"@ != "Document"@) by { assert("Escalation"@.len() != "Document"@.len()); }
            reveal_strlit("Action");
            assert("Escalation"@ != "Action"@) by { assert("Escalation"@.len() != "Action"@.len()); }
            reveal_strlit("Deadline");
            assert("Escalation"@ != "Deadline"@) by { assert("Escalation"@.len() != "Deadline"@.len()); }
            reveal_strlit("Response");
            assert("Escalation"@ != "Response"@) by { assert("Escalation"@.len() != "Response"@.len()); }
        },
        ResourceType::Remedy => {
            reveal_strlit("Remedy");
            reveal_strlit("Case");
            assert("Remedy"@ != "Case"@) by { assert("Remedy"@.len() != "Case"@.len()); }
            reveal_strlit("Incident");
            assert("Remedy"@ != "Incident"@) by { assert("Remedy"@.len() != "Incident"@.len()); }
            reveal_strlit("Event");
            assert("Remedy"@ != "Event"@) by { assert("Remedy"@.len() != "Event"@.len()); }
            reveal_strlit("Observation");
            assert("Remedy"@ != "Observation"@) by { assert("Remedy"@.len() != "Observation"@.len()); }
            reveal_strlit("Evidence");
            assert("Remedy"@ != "Evidence"@) by { assert("Remedy"@.len() != "Evidence"@.len()); }
            reveal_strlit("Authority");
            assert("Remedy"@ != "Authority"@) by { assert("Remedy"@.len() != "Authority"@.len()); }
            reveal_strlit("Jurisdiction");
            assert("Remedy"@ != "Jurisdiction"@) by { assert("Remedy"@.len() != "Jurisdiction"@.len()); }
            reveal_strlit("Party");
            assert("Remedy"@ != "Party"@) by { assert("Remedy"@.len() != "Party"@.len()); }
            reveal_strlit("PartyRelationship");
            assert("Remedy"@ != "PartyRelationship"@) by { assert("Remedy"@.len() != "PartyRelationship"@.len()); }
            reveal_strlit("Document");
            assert("Remedy"@ != "Document"@) by { assert("Remedy"@.len() != "Document"@.len()); }
            reveal_strlit("Action");
            assert("Remedy"@ != "Action"@) by { assert("Remedy"@[0] != "Action"@[0]); }
            reveal_strlit("Deadline");
            assert("Remedy"@ != "Deadline"@) by { assert("Remedy"@.len() != "Deadline"@.len()); }
            reveal_strlit("Response");
            assert("Remedy"@ != "Response"@) by { assert("Remedy"@.len() != "Response"@.len()); }
            reveal_strlit("Escalation");
            assert("Remedy"@ != "Escalation"@) by { assert("Remedy"@.len() != "Escalation"@.len()); }
        },
        ResourceType::Resolution => {
            reveal_strlit("Resolution");
            reveal_strlit("Case");
            assert("Resolution"@ != "Case"@) by { assert("Resolution"@.len() != "Case"@.len()); }
            reveal_strlit("Incident");
            assert("Resolution"@ != "Incident"@) by { assert("Resolution"@.len() != "Incident"@.len()); }
            reveal_strlit("Event");
            assert("Resolution"@ != "Event"@) by { assert("Resolution"@.len() != "Event"@.len()); }
            reveal_strlit("Observation");
            assert("Resolution"@ != "Observation"@) by { assert("Resolution"@.len() != "Observation"@.len()); }
            reveal_strlit("Evidence");
            assert("Resolution"@ != "Evidence"@) by { assert("Resolution"@.len() != "Evidence"@.len()); }
            reveal_strlit("Authority");
            assert("Resolution"@ != "Authority"@) by { assert("Resolution"@.len() != "Authority"@.len()); }
            reveal_strlit("Jurisdiction");
            assert("Resolution"@ != "Jurisdiction"@) by { assert("Resolution"@.len() != "Jurisdiction"@.len()); }
            reveal_strlit("Party");
            assert("Resolution"@ != "Party"@) by { assert("Resolution"@.len() != "Party"@.len()); }
            reveal_strlit("PartyRelationship");
            assert("Resolution"@ != "PartyRelationship"@) by { assert("Resolution"@.len() != "PartyRelationship"@.len()); }
            reveal_strlit("Document");
            assert("Resolution"@ != "Document"@) by { assert("Resolution"@.len() != "Document"@.len()); }
            reveal_strlit("Action");
            assert("Resolution"@ != "Action"@) by { assert("Resolution"@.len() != "Action"@.len()); }
            reveal_strlit("Deadline");
            assert("Resolution"@ != "Deadline"@) by { assert("Resolution"@.len() != "Deadline"@.len()); }
            reveal_strlit("Response");
            assert("Resolution"@ != "Response"@) by { assert("Resolution"@.len() != "Response"@.len()); }
            reveal_strlit("Escalation");
            assert("Resolution"@ != "Escalation"@) by { assert("Resolution"@[0] != "Escalation"@[0]); }
            reveal_strlit("Remedy");
            assert("Resolution"@ != "Remedy"@) by { assert("Resolution"@.len() != "Remedy"@.len()); }
        },
        ResourceType::Procedure => {
            reveal_strlit("Procedure");
            reveal_strlit("Case");
            assert("Procedure"@ != "Case"@) by { assert("Procedure"@.len() != "Case"@.len()); }
            reveal_strlit("Incident");
            assert("Procedure"@ != "Incident"@) by { assert("Procedure"@.len() != "Incident"@.len()); }
            reveal_strlit("Event");
            assert("Procedure"@ != "Event"@) by { assert("Procedure"@.len() != "Event"@.len()); }
            reveal_strlit("Observation");
            assert("Procedure"@ != "Observation"@) by { assert("Procedure"@.len() != "Observation"@.len()); }
            reveal_strlit("Evidence");
            assert("Procedure"@ != "Evidence"@) by { assert("Procedure"@.len() != "Evidence"@.len()); }
            reveal_strlit("Authority");
            assert("Procedure"@ != "Authority"@) by { assert("Procedure"@[0] != "Authority"@[0]); }
            reveal_strlit("Jurisdiction");
            assert("Procedure"@ != "Jurisdiction"@) by { assert("Procedure"@.len() != "Jurisdiction"@.len()); }
            reveal_strlit("Party");
            assert("Procedure"@ != "Party"@) by { assert("Procedure"@.len() != "Party"@.len()); }
            reveal_strlit("PartyRelationship");
            assert("Procedure"@ != "PartyRelationship"@) by { assert("Procedure"@.len() != "PartyRelationship"@.len()); }
            reveal_strlit("Document");
            assert("Procedure"@ != "Document"@) by { assert("Procedure"@.len() != "Document"@.len()); }
            reveal_strlit("Action");
            assert("Procedure"@ != "Action"@) by { assert("Procedure"@.len() != "Action"@.len()); }
            reveal_strlit("Deadline");
            assert("Procedure"@ != "Deadline"@) by { assert("Procedure"@.len() != "Deadline"@.len()); }
            reveal_strlit("Response");
            assert("Procedure"@ != "Response"@) by { assert("Procedure"@.len() != "Response"@.len()); }
            reveal_strlit("Escalation");
            assert("Procedure"@ != "Escalation"@) by { assert("Procedure"@.len() != "Escalation"@.len()); }
            reveal_strlit("Remedy");
            assert("Procedure"@ != "Remedy"@) by { assert("Procedure"@.len() != "Remedy"@.len()); }
            reveal_strlit("Resolution");
            assert("Procedure"@ != "Resolution"@) by { assert("Procedure"@.len() != "Resolution"@.len()); }
        },
        ResourceType::ComplianceRequirement => {
            reveal_strlit("ComplianceRequirement");
            reveal_strlit("Case");
            assert("ComplianceRequirement"@ != "Case"@) by { assert("ComplianceRequirement"@.len() != "Case"@.len()); }
            reveal_strlit("Incident");
            assert("ComplianceRequirement"@ != "Incident"@) by { assert("ComplianceRequirement"@.len() != "Incident"@.len()); }
            reveal_strlit("Event");
            assert("ComplianceRequirement"@ != "Event"@) by { assert("ComplianceRequirement"@.len() != "Event"@.len()); }
            reveal_strlit("Observation");
            assert("ComplianceRequirement"@ != "Observation"@) by { assert("ComplianceRequirement"@.len() != "Observation"@.len()); }
            reveal_strlit("Evidence");
            assert("ComplianceRequirement"@ != "Evidence"@) by { assert("ComplianceRequirement"@.len() != "Evidence"@.len()); }
            reveal_strlit("Authority");
            assert("ComplianceRequirement"@ != "Authority"@) by { assert("ComplianceRequirement"@.len() != "Authority"@.len()); }
            reveal_strlit("Jurisdiction");
            assert("ComplianceRequirement"@ != "Jurisdiction"@) by { assert("ComplianceRequirement"@.len() != "Jurisdiction"@.len()); }
            reveal_strlit("Party");
            assert("ComplianceRequirement"@ != "Party"@) by { assert("ComplianceRequirement"@.len() != "Party"@.len()); }
            reveal_strlit("PartyRelationship");
            assert("ComplianceRequirement"@ != "PartyRelationship"@) by { assert("ComplianceRequirement"@.len() != "PartyRelationship"@.len()); }
            reveal_strlit("Document");
            assert("ComplianceRequirement"@ != "Document"@) by { assert("ComplianceRequirement"@.len() != "Document"@.len()); }
            reveal_strlit("Action");
            assert("ComplianceRequirement"@ != "Action"@) by { assert("ComplianceRequirement"@.len() != "Action"@.len()); }
            reveal_strlit("Deadline");
            assert("ComplianceRequirement"@ != "Deadline"@) by { assert("ComplianceRequirement"@.len() != "Deadline"@.len()); }
            reveal_strlit("Response");
            assert("ComplianceRequirement"@ != "Response"@) by { assert("ComplianceRequirement"@.len() != "Response"@.len()); }
            reveal_strlit("Escalation");
            assert("ComplianceRequirement"@ != "Escalation"@) by { assert("ComplianceRequirement"@.len() != "Escalation"@.len()); }
            reveal_strlit("Remedy");
            assert("ComplianceRequirement"@ != "Remedy"@) by { assert("ComplianceRequirement"@.len() != "Remedy"@.len()); }
            reveal_strlit("Resolution");
            assert("ComplianceRequirement"@ != "Resolution"@) by { assert("ComplianceRequirement"@.len() != "Resolution"@.len()); }
            reveal_strlit("Procedure");
            assert("ComplianceRequirement"@ != "Procedure"@) by { assert("ComplianceRequirement"@.len() != "Procedure"@.len()); }
        },
        ResourceType::LegalSource => {
            reveal_strlit("LegalSource");
            reveal_strlit("Case");
            assert("LegalSource"@ != "Case"@) by { assert("LegalSource"@.len() != "Case"@.len()); }
            reveal_strlit("Incident");
            assert("LegalSource"@ != "Incident"@) by { assert("LegalSource"@.len() != "Incident"@.len()); }
            reveal_strlit("Event");
            assert("LegalSource"@ != "Event"@) by { assert("LegalSource"@.len() != "Event"@.len()); }
            reveal_strlit("Observation");
            assert("LegalSource"@ != "Observation"@) by { assert("LegalSource"@[0] != "Observation"@[0]); }
            reveal_strlit("Evidence");
            assert("LegalSource"@ != "Evidence"@) by { assert("LegalSource"@.len() != "Evidence"@.len()); }
            reveal_strlit("Authority");
            assert("LegalSource"@ != "Authority"@) by { assert("LegalSource"@.len() != "Authority"@.len()); }
            reveal_strlit("Jurisdiction");
            assert("LegalSource"@ != "Jurisdiction"@) by { assert("LegalSource"@.len() != "Jurisdiction"@.len()); }
            reveal_strlit("Party");
            assert("LegalSource"@ != "Party"@) by { assert("LegalSource"@.len() != "Party"@.len()); }
            reveal_strlit("PartyRelationship");
            assert("LegalSource"@ != "PartyRelationship"@) by { assert("LegalSource"@.len() != "PartyRelationship"@.len()); }
            reveal_strlit("Document");
            assert("LegalSource"@ != "Document"@) by { assert("LegalSource"@.len() != "Document"@.len()); }
            reveal_strlit("Action");
            assert("LegalSource"@ != "Action"@) by { assert("LegalSource"@.len() != "Action"@.len()); }
            reveal_strlit("Deadline");
            assert("LegalSource"@ != "Deadline"@) by { assert("LegalSource"@.len() != "Deadline"@.len()); }
            reveal_strlit("Response");
            assert("LegalSource"@ != "Response"@) by { assert("LegalSource"@.len() != "Response"@.len()); }
            reveal_strlit("Escalation");
            assert("LegalSource"@ != "Escalation"@) by { assert("LegalSource"@.len() != "Escalation"@.len()); }
            reveal_strlit("Remedy");
            assert("LegalSource"@ != "Remedy"@) by { assert("LegalSource"@.len() != "Remedy"@.len()); }
            reveal_strlit("Resolution");
            assert("LegalSource"@ != "Resolution"@) by { assert("LegalSource"@.len() != "Resolution"@.len()); }
            reveal_strlit("Procedure");
            assert("LegalSource"@ != "Procedure"@) by { assert("LegalSource"@.len() != "Procedure"@.len()); }
            reveal_strlit("ComplianceRequirement");
            assert("LegalSource"@ != "ComplianceRequirement"@) by { assert("LegalSource"@.len() != "ComplianceRequirement"@.len()); }
        },
        ResourceType::Timeline => {
            reveal_strlit("Timeline");
            reveal_strlit("Case");
            assert("Timeline"@ != "Case"@) by { assert("Timeline"@.len() != "Case"@.len()); }
            reveal_strlit("Incident");
            assert("Timeline"@ != "Incident"@) by { assert("Timeline"@[0] != "Incident"@[0]); }
            reveal_strlit("Event");
            assert("Timeline"@ != "Event"@) by { assert("Timeline"@.len() != "Event"@.len()); }
            reveal_strlit("Observation");
            assert("Timeline"@ != "Observation"@) by { assert("Timeline"@.len() != "Observation"@.len()); }
            reveal_strlit("Evidence");
            assert("Timeline"@ != "Evidence"@) by { assert("Timeline"@[0] != "Evidence"@[0]); }
            reveal_strlit("Authority");
            assert("Timeline"@ != "Authority"@) by { assert("Timeline"@.len() != "Authority"@.len()); }
            reveal_strlit("Jurisdiction");
            assert("Timeline"@ != "Jurisdiction"@) by { assert("Timeline"@.len() != "Jurisdiction"@.len()); }
            reveal_strlit("Party");
            assert("Timeline"@ != "Party"@) by { assert("Timeline"@.len() != "Party"@.len()); }
            reveal_strlit("PartyRelationship");
            assert("Timeline"@ != "PartyRelationship"@) by { assert("Timeline"@.len() != "PartyRelationship"@.len()); }
            reveal_strlit("Document");
            assert("Timeline"@ != "Document"@) by { assert("Timeline"@[0] != "Document"@[0]); }
            reveal_strlit("Action");
            assert("Timeline"@ != "Action"@) by { assert("Timeline"@.len() != "Action"@.len()); }
            reveal_strlit("Deadline");
            assert("Timeline"@ != "Deadline"@) by { assert("Timeline"@[0] != "Deadline"@[0]); }
            reveal_strlit("Response");
            assert("Timeline"@ != "Response"@) by { assert("Timeline"@[0] != "Response"@[0]); }
            reveal_strlit("Escalation");
            assert("Timeline"@ != "Escalation"@) by { assert("Timeline"@.len() != "Escalation"@.len()); }
            reveal_strlit("Remedy");
            assert("Timeline"@ != "Remedy"@) by { assert("Timeline"@.len() != "Remedy"@.len()); }
            reveal_strlit("Resolution");
            assert("Timeline"@ != "Resolution"@) by { assert("Timeline"@.len() != "Resolution"@.len()); }
            reveal_strlit("Procedure");
            assert("Timeline"@ != "Procedure"@) by { assert("Timeline"@.len() != "Procedure"@.len()); }
            reveal_strlit("ComplianceRequirement");
            assert("Timeline"@ != "ComplianceRequirement"@) by { assert("Timeline"@.len() != "ComplianceRequirement"@.len()); }
            reveal_strlit("LegalSource");
            assert("Timeline"@ != "LegalSource"@) by { assert("Timeline"@.len() != "LegalSource"@.len()); }
        },
        ResourceType::Audit => {
            reveal_strlit("Audit");
            reveal_strlit("Case");
            assert("Audit"@ != "Case"@) by { assert("Audit"@.len() != "Case"@.len()); }
            reveal_strlit("Incident");
            assert("Audit"@ != "Incident"@) by { assert("Audit"@.len() != "Incident"@.len()); }
            reveal_strlit("Event");
            assert("Audit"@ != "Event"@) by { assert("Audit"@[0] != "Event"@[0]); }
            reveal_strlit("Observation");
            assert("Audit"@ != "Observation"@) by { assert("Audit"@.len() != "Observation"@.len()); }
            reveal_strlit("Evidence");
            assert("Audit"@ != "Evidence"@) by { assert("Audit"@.len() != "Evidence"@.len()); }
            reveal_strlit("Authority");
            assert("Audit"@ != "Authority"@) by { assert("Audit"@.len() != "Authority"@.len()); }
            reveal_strlit("Jurisdiction");
            assert("Audit"@ != "Jurisdiction"@) by { assert("Audit"@.len() != "Jurisdiction"@.len()); }
            reveal_strlit("Party");
            assert("Audit"@ != "Party"@) by { assert("Audit"@[0] != "Party"@[0]); }
            reveal_strlit("PartyRelationship");
            assert("Audit"@ != "PartyRelationship"@) by { assert("Audit"@.len() != "PartyRelationship"@.len()); }
            reveal_strlit("Document");
            assert("Audit"@ != "Document"@) by { assert("Audit"@.len() != "Document"@.len()); }
            reveal_strlit("Action");
            assert("Audit"@ != "Action"@) by { assert("Audit"@.len() != "Action"@.len()); }
            reveal_strlit("Deadline");
            assert("Audit"@ != "Deadline"@) by { assert("Audit"@.len() != "Deadline"@.len()); }
            reveal_strlit("Response");
            assert("Audit"@ != "Response"@) by { assert("Audit"@.len() != "Response"@.len()); }
            reveal_strlit("Escalation");
            assert("Audit"@ != "Escalation"@) by { assert("Audit"@.len() != "Escalation"@.len()); }
            reveal_strlit("Remedy");
            assert("Audit"@ != "Remedy"@) by { assert("Audit"@.len() != "Remedy"@.len()); }
            reveal_strlit("Resolution");
            assert("Audit"@ != "Resolution"@) by { assert("Audit"@.len() != "Resolution"@.len()); }
            reveal_strlit("Procedure");
            assert("Audit"@ != "Procedure"@) by { assert("Audit"@.len() != "Procedure"@.len()); }
            reveal_strlit("ComplianceRequirement");
            assert("Audit"@ != "ComplianceRequirement"@) by { assert("Audit"@.len() != "ComplianceRequirement"@.len()); }
            reveal_strlit("LegalSource");
            assert("Audit"@ != "LegalSource"@) by { assert("Audit"@.len() != "LegalSource"@.len()); }
            reveal_strlit("Timeline");
            assert("Audit"@ != "Timeline"@) by { assert("Audit"@.len() != "Timeline"@.len()); }
        },
        ResourceType::Provenance => {
            reveal_strlit("Provenance");
            reveal_strlit("Case");
            assert("Provenance"@ != "Case"@) by { assert("Provenance"@.len() != "Case"@.len()); }
            reveal_strlit("Incident");
            assert("Provenance"@ != "Incident"@) by { assert("Provenance"@.len() != "Incident"@.len()); }
            reveal_strlit("Event");
            assert("Provenance"@ != "Event"@) by { assert("Provenance"@.len() != "Event"@.len()); }
            reveal_strlit("Observation");
            assert("Provenance"@ != "Observation"@) by { assert("Provenance"@.len() != "Observation"@.len()); }
            reveal_strlit("Evidence");
            assert("Provenance"@ != "Evidence"@) by { assert("Provenance"@.len() != "Evidence"@.len()); }
            reveal_strlit("Authority");
            assert("Provenance"@ != "Authority"@) by { assert("Provenance"@.len() != "Authority"@.len()); }
            reveal_strlit("Jurisdiction");
            assert("Provenance"@ != "Jurisdiction"@) by { assert("Provenance"@.len() != "Jurisdiction"@.len()); }
            reveal_strlit("Party");
            assert("Provenance"@ != "Party"@) by { assert("Provenance"@.len() != "Party"@.len()); }
            reveal_strlit("PartyRelationship");
            assert("Provenance"@ != "PartyRelationship"@) by { assert("Provenance"@.len() != "PartyRelationship"@.len()); }
            reveal_strlit("Document");
            assert("Provenance"@ != "Document"@) by { assert("Provenance"@.len() != "Document"@.len()); }
            reveal_strlit("Action");
            assert("Provenance"@ != "Action"@) by { assert("Provenance"@.len() != "Action"@.len()); }
            reveal_strlit("Deadline");
            assert("Provenance"@ != "Deadline"@) by { assert("Provenance"@.len() != "Deadline"@.len()); }
            reveal_strlit("Response");
            assert("Provenance"@ != "Response"@) by { assert("Provenance"@.len() != "Response"@.len()); }
            reveal_strlit("Escalation");
            assert("Provenance"@ != "Escalation"@) by { assert("Provenance"@[0] != "Escalation"@[0]); }
            reveal_strlit("Remedy");
            assert("Provenance"@ != "Remedy"@) by { assert("Provenance"@.len() != "Remedy"@.len()); }
            reveal_strlit("Resolution");
            assert("Provenance"@ != "Resolution"@) by { assert("Provenance"@[0] != "Resolution"@[0]); }
            reveal_strlit("Procedure");
            assert("Provenance"@ != "Procedure"@) by { assert("Provenance"@.len() != "Procedure"@.len()); }
            reveal_strlit("ComplianceRequirement");
            assert("Provenance"@ != "ComplianceRequirement"@) by { assert("Provenance"@.len() != "ComplianceRequirement"@.len()); }
            reveal_strlit("LegalSource");
            assert("Provenance"@ != "LegalSource"@) by { assert("Provenance"@.len() != "LegalSource"@.len()); }
            reveal_strlit("Timeline");
            assert("Provenance"@ != "Timeline"@) by { assert("Provenance"@.len() != "Timeline"@.len()); }
            reveal_strlit("Audit");
            assert("Provenance"@ != "Audit"@) by { assert("Provenance"@.len() != "Audit"@.len()); }
        },
        ResourceType::Idempotency => {
            reveal_strlit("Idempotency");
            reveal_strlit("Case");
            assert("Idempotency"@ != "Case"@) by { assert("Idempotency"@.len() != "Case"@.len()); }
            reveal_strlit("Incident");
            assert("Idempotency"@ != "Incident"@) by { assert("Idempotency"@.len() != "Incident"@.len()); }
            reveal_strlit("Event");
            assert("Idempotency"@ != "Event"@) by { assert("Idempotency"@.len() != "Event"@.len()); }
            reveal_strlit("Observation");
            assert("Idempotency"@ != "Observation"@) by { assert("Idempotency"@[0] != "Observation"@[0]); }
            reveal_strlit("Evidence");
            assert("Idempotency"@ != "Evidence"@) by { assert("Idempotency"@.len() != "Evidence"@.len()); }
            reveal_strlit("Authority");
            assert("Idempotency"@ != "Authority"@) by { assert("Idempotency"@.len() != "Authority"@.len()); }
            reveal_strlit("Jurisdiction");
            assert("Idempotency"@ != "Jurisdiction"@) by { assert("Idempotency"@.len() != "Jurisdiction"@.len()); }
            reveal_strlit("Party");
            assert("Idempotency"@ != "Party"@) by { assert("Idempotency"@.len() != "Party"@.len()); }
            reveal_strlit("PartyRelationship");
            assert("Idempotency"@ != "PartyRelationship"@) by { assert("Idempotency"@.len() != "PartyRelationship"@.len()); }
            reveal_strlit("Document");
            assert("Idempotency"@ != "Document"@) by { assert("Idempotency"@.len() != "Document"@.len()); }
            reveal_strlit("Action");
            assert("Idempotency"@ != "Action"@) by { assert("Idempotency"@.len() != "Action"@.len()); }
            reveal_strlit("Deadline");
            assert("Idempotency"@ != "Deadline"@) by { assert("Idempotency"@.len() != "Deadline"@.len()); }
            reveal_strlit("Response");
            assert("Idempotency"@ != "Response"@) by { assert("Idempotency"@.len() != "Response"@.len()); }
            reveal_strlit("Escalation");
            assert("Idempotency"@ != "Escalation"@) by { assert("Idempotency"@.len() != "Escalation"@.len()); }
            reveal_strlit("Remedy");
            assert("Idempotency"@ != "Remedy"@) by { assert("Idempotency"@.len() != "Remedy"@.len()); }
            reveal_strlit("Resolution");
            assert("Idempotency"@ != "Resolution"@) by { assert("Idempotency"@.len() != "Resolution"@.len()); }
            reveal_strlit("Procedure");
            assert("Idempotency"@ != "Procedure"@) by { assert("Idempotency"@.len() != "Procedure"@.len()); }
            reveal_strlit("ComplianceRequirement");
            assert("Idempotency"@ != "ComplianceRequirement"@) by { assert("Idempotency"@.len() != "ComplianceRequirement"@.len()); }
            reveal_strlit("LegalSource");
            assert("Idempotency"@ != "LegalSource"@) by { assert("Idempotency"@[0] != "LegalSource"@[0]); }
            reveal_strlit("Timeline");
            assert("Idempotency"@ != "Timeline"@) by { assert("Idempotency"@.len() != "Timeline"@.len()); }
            reveal_strlit("Audit");
            assert("Idempotency"@ != "Audit"@) by { assert("Idempotency"@.len() != "Audit"@.len()); }
            reveal_strlit("Provenance");
            assert("Idempotency"@ != "Provenance"@) by { assert("Idempotency"@.len() != "Provenance"@.len()); }
        },
        ResourceType::Other => {
            reveal_strlit("Other");
            reveal_strlit("Case");
            assert("Other"@ != "Case"@) by { assert("Other"@.len() != "Case"@.len()); }
            reveal_strlit("Incident");
            assert("Other"@ != "Incident"@) by { assert("Other"@.len() != "Incident"@.len()); }
            reveal_strlit("Event");
            assert("Other"@ != "Event"@) by { assert("Other"@[0] != "Event"@[0]); }
            reveal_strlit("Observation");
            assert("Other"@ != "Observation"@) by { assert("Other"@.len() != "Observation"@.len()); }
            reveal_strlit("Evidence");
            assert("Other"@ != "Evidence"@) by { assert("Other"@.len() != "Evidence"@.len()); }
            reveal_strlit("Authority");
            assert("Other"@ != "Authority"@) by { assert("Other"@.len() != "Authority"@.len()); }
            reveal_strlit("Jurisdiction");
            assert("Other"@ != "Jurisdiction"@) by { assert("Other"@.len() != "Jurisdiction"@.len()); }
            reveal_strlit("Party");
            assert("Other"@ != "Party"@) by { assert("Other"@[0] != "Party"@[0]); }
            reveal_strlit("PartyRelationship");
            assert("Other"@ != "PartyRelationship"@) by { assert("Other"@.len() != "PartyRelationship"@.len()); }
            reveal_strlit("Document");
            assert("Other"@ != "Document"@) by { assert("Other"@.len() != "Document"@.len()); }
            reveal_strlit("Action");
            assert("Other"@ != "Action"@) by { assert("Other"@.len() != "Action"@.len()); }
            reveal_strlit("Deadline");
            assert("Other"@ != "Deadline"@) by { assert("Other"@.len() != "Deadline"@.len()); }
            reveal_strlit("Response");
            assert("Other"@ != "Response"@) by { assert("Other"@.len() != "Response"@.len()); }
            reveal_strlit("Escalation");
            assert("Other"@ != "Escalation"@) by { assert("Other"@.len() != "Escalation"@.len()); }
            reveal_strlit("Remedy");
            assert("Other"@ != "Remedy"@) by { assert("Other"@.len() != "Remedy"@.len()); }
            reveal_strlit("Resolution");
            assert("Other"@ != "Resolution"@) by { assert("Other"@.len() != "Resolution"@.len()); }
            reveal_strlit("Procedure");
            assert("Other"@ != "Procedure"@) by { assert("Other"@.len() != "Procedure"@.len()); }
            reveal_strlit("ComplianceRequirement");
            assert("Other"@ != "ComplianceRequirement"@) by { assert("Other"@.len() != "ComplianceRequirement"@.len()); }
            reveal_strlit("LegalSource");
            assert("Other"@ != "LegalSource"@) by { assert("Other"@.len() != "LegalSource"@.len()); }
            reveal_strlit("Timeline");
            assert("Other"@ != "Timeline"@) by { assert("Other"@.len() != "Timeline"@.len()); }
            reveal_strlit("Audit");
            assert("Other"@ != "Audit"@) by { assert("Other"@[0] != "Audit"@[0]); }
            reveal_strlit("Provenance");
            assert("Other"@ != "Provenance"@) by { assert("Other"@.len() != "Provenance"@.len()); }
            reveal_strlit("Idempotency");
            assert("Other"@ != "Idempotency"@) by { assert("Other"@.len() != "Idempotency"@.len()); }
        },
    }
}

impl ResourceType {
    /// The variant's name.
    pub fn label(self) -> (r: &'static str)
        ensures
            r == type_label(self),
    {
        match self {
            ResourceType::Case => "Case",
            ResourceType::Incident => "Incident",
            ResourceType::Event => "Event",
            ResourceType::Observation => "Observation",
            ResourceType::Evidence => "Evidence",
            ResourceType::Authority => "Authority",
            ResourceType::Jurisdiction => "Jurisdiction",
            ResourceType::Party => "Party",
            ResourceType::PartyRelationship => "PartyRelationship",
            ResourceType::Document => "Document",
            ResourceType::Action => "Action",
            ResourceType::Deadline => "Deadline",
            ResourceType::Response => "Response",
            ResourceType::Escalation => "Escalation",
            ResourceType::Remedy => "Remedy",
            ResourceType::Resolution => "Resolution",
            ResourceType::Procedure => "Procedure",
            ResourceType::ComplianceRequirement => "ComplianceRequirement",
            ResourceType::LegalSource => "LegalSource",
            ResourceType::Timeline => "Timeline",
            ResourceType::Audit => "Audit",
            ResourceType::Provenance => "Provenance",
            ResourceType::Idempotency => "Idempotency",
            ResourceType::Other => "Other",
        }
    }
}

/// Explicit cross-resource reference: a resource type and a non-empty id.
#[derive(Debug, Clone, PartialEq, Eq, Hash)]
pub struct ResourceRef {
    pub resource_type: ResourceType,
    pub id: Id,
}

/// Abstract value of a reference.
pub struct ResourceRefView {
    pub resource_type: ResourceType,
    pub id: Seq<char>,
}

impl View for ResourceRef {
    type V = ResourceRefView;

    open spec fn view(&self) -> ResourceRefView {
        ResourceRefView { resource_type: self.resource_type, id: self.id@ }
    }
}

/// Abstract value of an optional reference.
pub open spec fn opt_ref_view(r: Option<ResourceRef>) -> Option<ResourceRefView> {
    match r {
        Some(x) => Some(x@),
        None => None,
    }
}

/// Abstract value of a list of references.
pub open spec fn refs_view(v: Seq<ResourceRef>) -> Seq<ResourceRefView> {
    v.map_values(|r: ResourceRef| r@)
}

/// Abstract value of an optional text.
pub open spec fn opt_text_view(s: Option<String>) -> Option<Seq<char>> {
    match s {
        Some(x) => Some(x@),
        None => None,
    }
}

/// Abstract value of a list of texts.
pub open spec fn texts_view(v: Seq<String>) -> Seq<Seq<char>> {
    v.map_values(|s: String| s@)
}

/// `true` when some text of the list is empty.
pub open spec fn has_empty_text(v: Seq<String>) -> bool {
    exists|i: int| 0 <= i < v.len() && (#[trigger] v[i])@.len() == 0
}

impl ResourceRef {
    pub open spec fn construction(resource_type: ResourceType, id: Id) -> Result<ResourceRef, &'static str> {
        if id@.len() == 0 {
            Err("resource reference id is required")
        } else {
            Ok(ResourceRef { resource_type, id })
        }
    }

    /// Builds a reference; the id must not be empty.
    pub fn new(resource_type: ResourceType, id: Id) -> (r: Result<Self, &'static str>)
        ensures
            r == Self::construction(resource_type, id),
    {
        if id.as_str().is_empty() {
            return Err("resource reference id is required");
        }
        Ok(ResourceRef { resource_type, id })
    }

    /// Same resource type and same id.
    pub fn same(&self, other: &ResourceRef) -> (b: bool)
        ensures
            b == (self@ == other@),
    {
        self.resource_type == other.resource_type && str_eq(self.id.as_str(), other.id.as_str())
    }

    /// A copy with the same type and id.
    pub fn duplicate(&self) -> (r: ResourceRef)
        ensures
            r == *self,
    {
        ResourceRef { resource_type: self.resource_type, id: self.id.clone() }
    }
}

pub fn opt_ref_eq(a: &Option<ResourceRef>, b: &Option<ResourceRef>) -> (r: bool)
    ensures
        r == (opt_ref_view(*a) == opt_ref_view(*b)),
{
    match (a, b) {
        (Some(x), Some(y)) => x.same(y),
        (None, None) => true,
        _ => false,
    }
}

pub fn opt_ref_dup(a: &Option<ResourceRef>) -> (r: Option<ResourceRef>)
    ensures
        r == *a,
{
    match a {
        Some(x) => Some(x.duplicate()),
        None => None,
    }
}

pub fn opt_text_eq(a: &Option<String>, b: &Option<String>) -> (r: bool)
    ensures
        r == (opt_text_view(*a) == opt_text_view(*b)),
{
    match (a, b) {
        (Some(x), Some(y)) => str_eq(x.as_str(), y.as_str()),
        (None, None) => true,
        _ => false,
    }
}

pub fn opt_text_dup(a: &Option<String>) -> (r: Option<String>)
    ensures
        r == *a,
{
    match a {
        Some(x) => Some(x.clone()),
        None => None,
    }
}

pub fn refs_eq(a: &Vec<ResourceRef>, b: &Vec<ResourceRef>) -> (r: bool)
    ensures
        r == (refs_view(a@) == refs_view(b@)),
{
    if a.len() != b.len() {
        proof {
            assert(refs_view(a@).len() != refs_view(b@).len());
        }
        return false;
    }
    let mut i: usize = 0;
    while i < a.len()
        invariant
            a.len() == b.len(),
            i <= a.len(),
            forall|j: int| 0 <= j < i ==> (#[trigger] a@[j])@ == b@[j]@,
        decreases a.len() - i,
    {
        if !a[i].same(&b[i]) {
            proof {
                assert(refs_view(a@)[i as int] != refs_view(b@)[i as int]);
            }
            return false;
        }
        i = i + 1;
    }
    assert(refs_view(a@) =~= refs_view(b@));
    true
}

pub fn refs_dup(a: &Vec<ResourceRef>) -> (r: Vec<ResourceRef>)
    ensures
        r@ == a@,
{
    let mut r: Vec<ResourceRef> = Vec::new();
    let mut i: usize = 0;
    while i < a.len()
        invariant
            i <= a.len(),
            r@ =~= a@.take(i as int),
        decreases a.len() - i,
    {
        r.push(a[i].duplicate());
        assert(a@.take(i + 1) =~= a@.take(i as int).push(a@[i as int]));
        i = i + 1;
    }
    assert(a@.take(a.len() as int) =~= a@);
    r
}

/// `true` when the list holds a reference equal to `x`.
pub fn refs_contain(v: &Vec<ResourceRef>, x: &ResourceRef) -> (r: bool)
    ensures
        r == refs_view(v@).contains(x@),
{
    let mut i: usize = 0;
    while i < v.len()
        invariant
            i <= v.len(),
            forall|j: int| 0 <= j < i ==> (#[trigger] v@[j])@ != x@,
        decreases v.len() - i,
    {
        if v[i].same(x) {
            assert(refs_view(v@)[i as int] == x@);
            return true;
        }
        i = i + 1;
    }
    proof {
        if refs_view(v@).contains(x@) {
            let j = refs_view(v@).index_of(x@);
            assert(refs_view(v@)[j] == v@[j]@);
        }
    }
    false
}

/// `true` when some text of the list is empty.
pub fn any_text_empty(v: &Vec<String>) -> (r: bool)
    ensures
        r == has_empty_text(v@),
{
    let mut i: usize = 0;
    while i < v.len()
        invariant
            i <= v.len(),
            forall|j: int| 0 <= j < i ==> (#[trigger] v@[j])@.len() != 0,
        decreases v.len() - i,
    {
        if v[i].as_str().is_empty() {
            return true;
        }
        i = i + 1;
    }
    false
}

/// `true` when the list holds a text equal to `x`.
pub fn texts_contain(v: &Vec<String>, x: &str) -> (r: bool)
    ensures
        r == texts_view(v@).contains(x@),
{
    let mut i: usize = 0;
    while i < v.len()
        invariant
            i <= v.len(),
            forall|j: int| 0 <= j < i ==> (#[trigger] v@[j])@ != x@,
        decreases v.len() - i,
    {
        if str_eq(v[i].as_str(), x) {
            assert(texts_view(v@)[i as int] == x@);
            return true;
        }
        i = i + 1;
    }
    proof {
        if texts_view(v@).contains(x@) {
            let j = texts_view(v@).index_of(x@);
            assert(texts_view(v@)[j] == v@[j]@);
        }
    }
    false
}

pub fn texts_dup(a: &Vec<String>) -> (r: Vec<String>)
    ensures
        r@ == a@,
{
    let mut r: Vec<String> = Vec::new();
    let mut i: usize = 0;
    while i < a.len()
        invariant
            i <= a.len(),
            r@ =~= a@.take(i as int),
        decreases a.len() - i,
    {
        r.push(a[i].clone());
        assert(a@.take(i + 1) =~= a@.take(i as int).push(a@[i as int]));
        i = i + 1;
    }
    assert(a@.take(a.len() as int) =~= a@);
    r
}

} // verus!
