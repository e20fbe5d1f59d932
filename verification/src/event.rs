//! Domain events: the envelope every recorded change travels in.
use vstd::prelude::*;
use crate::json::JsonValue;
use crate::resource::{Id, ResourceRef, ResourceType, opt_text_dup, texts_dup};
use crate::text::str_eq;

verus! {

/// A recorded domain event with its routing and causality metadata.
#[derive(Debug, Clone, PartialEq, Eq)]
pub struct EventEnvelope {
    pub event_id: Id,
    pub event_type: String,
    pub aggregate_type: String,
    pub aggregate_id: Id,
    pub occurred_at: String,
    pub actor_type: String,
    pub actor_id: Id,
    pub schema_version: u32,
    pub payload: JsonValue,
    pub source_refs: Vec<Id>,
    pub correlation_id: Id,
    pub causation_id: Option<Id>,
}

/// The first rule that `e` breaks, in the order they are checked.
pub open spec fn event_fault(e: EventEnvelope) -> Option<&'static str> {
    if e.event_id@.len() == 0 {
        Some("event id is required")
    } else if e.event_type@.len() == 0 {
        Some("event type is required")
    } else if e.aggregate_type@.len() == 0 {
        Some("aggregate type is required")
    } else if e.aggregate_id@.len() == 0 {
        Some("aggregate id is required")
    } else if e.occurred_at@.len() == 0 {
        Some("event time is required")
    } else if e.actor_type@.len() == 0 {
        Some("actor type is required")
    } else if e.actor_id@.len() == 0 {
        Some("actor id is required")
    } else if e.schema_version == 0 {
        Some("schema version must be positive")
    } else if e.correlation_id@.len() == 0 {
        Some("correlation id is required")
    } else {
        None
    }
}

/// The outcome of validating `e`.
pub open spec fn event_check(e: EventEnvelope) -> Result<(), &'static str> {
    match event_fault(e) {
        Some(m) => Err(m),
        None => Ok(()),
    }
}

/// The resource type that an aggregate type names; unknown names map to
/// `Other`.
pub open spec fn aggregate_type_of(name: Seq<char>) -> ResourceType {
    if name == "case"@ {
        ResourceType::Case
    } else if name == "incident"@ {
        ResourceType::Incident
    } else if name == "event"@ {
        ResourceType::Event
    } else if name == "evidence"@ {
        ResourceType::Evidence
    } else if name == "authority"@ {
        ResourceType::Authority
    } else if name == "jurisdiction"@ {
        ResourceType::Jurisdiction
    } else if name == "party"@ {
        ResourceType::Party
    } else if name == "document"@ {
        ResourceType::Document
    } else if name == "action"@ {
        ResourceType::Action
    } else if name == "deadline"@ {
        ResourceType::Deadline
    } else if name == "response"@ {
        ResourceType::Response
    } else if name == "escalation"@ {
        ResourceType::Escalation
    } else if name == "remedy"@ {
        ResourceType::Remedy
    } else if name == "resolution"@ {
        ResourceType::Resolution
    } else if name == "procedure"@ {
        ResourceType::Procedure
    } else if name == "compliance_requirement"@ {
        ResourceType::ComplianceRequirement
    } else if name == "legal_source"@ {
        ResourceType::LegalSource
    } else if name == "timeline"@ {
        ResourceType::Timeline
    } else {
        ResourceType::Other
    }
}

/// Resource type named by an aggregate type.
pub fn aggregate_resource_type(name: &str) -> (r: ResourceType)
    ensures
        r == aggregate_type_of(name@),
{
    if str_eq(name, "case") {
        ResourceType::Case
    } else if str_eq(name, "incident") {
        ResourceType::Incident
    } else if str_eq(name, "event") {
        ResourceType::Event
    } else if str_eq(name, "evidence") {
        ResourceType::Evidence
    } else if str_eq(name, "authority") {
        ResourceType::Authority
    } else if str_eq(name, "jurisdiction") {
        ResourceType::Jurisdiction
    } else if str_eq(name, "party") {
        ResourceType::Party
    } else if str_eq(name, "document") {
        ResourceType::Document
    } else if str_eq(name, "action") {
        ResourceType::Action
    } else if str_eq(name, "deadline") {
        ResourceType::Deadline
    } else if str_eq(name, "response") {
        ResourceType::Response
    } else if str_eq(name, "escalation") {
        ResourceType::Escalation
    } else if str_eq(name, "remedy") {
        ResourceType::Remedy
    } else if str_eq(name, "resolution") {
        ResourceType::Resolution
    } else if str_eq(name, "procedure") {
        ResourceType::Procedure
    } else if str_eq(name, "compliance_requirement") {
        ResourceType::ComplianceRequirement
    } else if str_eq(name, "legal_source") {
        ResourceType::LegalSource
    } else if str_eq(name, "timeline") {
        ResourceType::Timeline
    } else {
        ResourceType::Other
    }
}

/// `a` and `b` carry the same event: every field equal, the payload and
/// the source list by value.
pub open spec fn same_event(a: EventEnvelope, b: EventEnvelope) -> bool {
    &&& a.event_id == b.event_id
    &&& a.event_type == b.event_type
    &&& a.aggregate_type == b.aggregate_type
    &&& a.aggregate_id == b.aggregate_id
    &&& a.occurred_at == b.occurred_at
    &&& a.actor_type == b.actor_type
    &&& a.actor_id == b.actor_id
    &&& a.schema_version == b.schema_version
    &&& a.payload@ == b.payload@
    &&& a.source_refs@ == b.source_refs@
    &&& a.correlation_id == b.correlation_id
    &&& a.causation_id == b.causation_id
}

impl EventEnvelope {
    /// A copy of the event.
    pub fn duplicate(&self) -> (r: EventEnvelope)
        ensures
            same_event(r, *self),
    {
        EventEnvelope {
            event_id: self.event_id.clone(),
            event_type: self.event_type.clone(),
            aggregate_type: self.aggregate_type.clone(),
            aggregate_id: self.aggregate_id.clone(),
            occurred_at: self.occurred_at.clone(),
            actor_type: self.actor_type.clone(),
            actor_id: self.actor_id.clone(),
            schema_version: self.schema_version,
            payload: self.payload.duplicate(),
            source_refs: texts_dup(&self.source_refs),
            correlation_id: self.correlation_id.clone(),
            causation_id: opt_text_dup(&self.causation_id),
        }
    }

    /// Checks that every required field is present and the schema version is
    /// positive; reports the first missing one.
    pub fn validate(&self) -> (r: Result<(), &'static str>)
        ensures
            r == event_check(*self),
    {
        if self.event_id.as_str().is_empty() {
            return Err("event id is required");
        }
        if self.event_type.as_str().is_empty() {
            return Err("event type is required");
        }
        if self.aggregate_type.as_str().is_empty() {
            return Err("aggregate type is required");
        }
        if self.aggregate_id.as_str().is_empty() {
            return Err("aggregate id is required");
        }
        if self.occurred_at.as_str().is_empty() {
            return Err("event time is required");
        }
        if self.actor_type.as_str().is_empty() {
            return Err("actor type is required");
        }
        if self.actor_id.as_str().is_empty() {
            return Err("actor id is required");
        }
        if self.schema_version == 0 {
            return Err("schema version must be positive");
        }
        if self.correlation_id.as_str().is_empty() {
            return Err("correlation id is required");
        }
        Ok(())
    }

    /// The event's aggregate as an explicit reference.
    pub fn aggregate_ref(&self) -> (r: Result<ResourceRef, &'static str>)
        ensures
            r == ResourceRef::construction(aggregate_type_of(self.aggregate_type@), self.aggregate_id),
    {
        let resource_type = aggregate_resource_type(self.aggregate_type.as_str());
        ResourceRef::new(resource_type, self.aggregate_id.clone())
    }
}

} // verus!
