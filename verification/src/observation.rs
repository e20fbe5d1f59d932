//! Observations: bounded assertions about a subject at a stated time, with
//! their origin and epistemic status kept apart, and the records that
//! creating, correcting, superseding or contradicting one writes.
use vstd::prelude::*;
use crate::intelligence::{EpistemicStatus, IntelligenceDataClass};
use crate::json::{
    JsonMember, JsonValue, is_ref_json, is_text, json_data, lemma_object_view, lemma_ref_json_view, member, ref_json, text,
    text_member, type_wire, type_wire_name,
};
use crate::persistence::{ResourceWrite, ResourceWriteMode};
use crate::resource::{Id, ResourceRef, ResourceType, ResourceRefView};
use crate::text::{concat, is_blank, str_eq, str_is_blank, text_of};
use crate::authorization::{AuthorizationDecision, AuthorizationResult};
use crate::persistence::UnitOfWorkError;
use crate::resource::opt_text_view;

verus! {

/// How an assertion entered the system; independent of its epistemic status.
#[derive(Debug, Clone, Copy, PartialEq, Eq, Structural)]
pub enum ObservationOrigin {
    DirectObservation,
    UserReport,
    Measurement,
    SourceAssertion,
    SystemDetection,
    AiDerivation,
}

/// The generic semantic class of an observation.
#[derive(Debug, Clone, Copy, PartialEq, Eq, Structural)]
pub enum ObservationType {
    Condition,
    Measurement,
    Location,
    Statement,
    Status,
    SensorDetection,
    DocumentAssertion,
    SystemDetection,
}

/// A bounded assertion about a subject at a stated time. It is no event,
/// evidence record or legal conclusion; evidence and provenance are referenced.
#[derive(Debug, Clone, PartialEq, Eq)]
pub struct Observation {
    pub observation_id: Id,
    pub schema_version: u32,
    pub subject_ref: ResourceRef,
    pub observation_type: ObservationType,
    pub observation_origin: ObservationOrigin,
    pub observed_at: String,
    pub recorded_at: String,
    pub assertion: JsonValue,
    pub epistemic_status: EpistemicStatus,
    pub source_refs: Vec<ResourceRef>,
    pub evidence_refs: Vec<ResourceRef>,
    pub provenance_ref: Option<ResourceRef>,
    pub context_refs: Vec<ResourceRef>,
    pub data_class: IntelligenceDataClass,
}

impl Observation {
    pub open spec fn validity(&self) -> Result<(), &'static str> {
        if self.observation_id@.len() == 0 {
            Err("observation id is required")
        } else if self.schema_version == 0 {
            Err("schema version must be positive")
        } else if self.subject_ref.id@.len() == 0 {
            Err("observation subject id is required")
        } else if self.observed_at@.len() == 0 {
            Err("observation time is required")
        } else if self.recorded_at@.len() == 0 {
            Err("observation recorded time is required")
        } else if self.assertion is Null {
            Err("observation assertion is required")
        } else {
            Ok(())
        }
    }

    pub fn validate(&self) -> (r: Result<(), &'static str>)
        ensures
            r == self.validity(),
    {
        if self.observation_id.as_str().is_empty() {
            return Err("observation id is required");
        }
        if self.schema_version == 0 {
            return Err("schema version must be positive");
        }
        if self.subject_ref.id.as_str().is_empty() {
            return Err("observation subject id is required");
        }
        if self.observed_at.as_str().is_empty() {
            return Err("observation time is required");
        }
        if self.recorded_at.as_str().is_empty() {
            return Err("observation recorded time is required");
        }
        match &self.assertion {
            JsonValue::Null => return Err("observation assertion is required"),
            _ => {},
        }
        Ok(())
    }

    /// The status exactly as the trusted caller supplied it; no provider can
    /// promote it through this type.
    pub fn epistemic_status(&self) -> (s: EpistemicStatus)
        ensures
            s == self.epistemic_status,
    {
        self.epistemic_status
    }
}

// ----- wire names -----

pub open spec fn origin_wire(o: ObservationOrigin) -> &'static str {
    match o {
        ObservationOrigin::DirectObservation => "DIRECT_OBSERVATION",
        ObservationOrigin::UserReport => "USER_REPORT",
        ObservationOrigin::Measurement => "MEASUREMENT",
        ObservationOrigin::SourceAssertion => "SOURCE_ASSERTION",
        ObservationOrigin::SystemDetection => "SYSTEM_DETECTION",
        ObservationOrigin::AiDerivation => "AI_DERIVATION",
    }
}

pub fn origin_name(o: ObservationOrigin) -> (r: &'static str)
    ensures
        r == origin_wire(o),
{
    match o {
        ObservationOrigin::DirectObservation => "DIRECT_OBSERVATION",
        ObservationOrigin::UserReport => "USER_REPORT",
        ObservationOrigin::Measurement => "MEASUREMENT",
        ObservationOrigin::SourceAssertion => "SOURCE_ASSERTION",
        ObservationOrigin::SystemDetection => "SYSTEM_DETECTION",
        ObservationOrigin::AiDerivation => "AI_DERIVATION",
    }
}

pub open spec fn type_wire_of(t: ObservationType) -> &'static str {
    match t {
        ObservationType::Condition => "CONDITION",
        ObservationType::Measurement => "MEASUREMENT",
        ObservationType::Location => "LOCATION",
        ObservationType::Statement => "STATEMENT",
        ObservationType::Status => "STATUS",
        ObservationType::SensorDetection => "SENSOR_DETECTION",
        ObservationType::DocumentAssertion => "DOCUMENT_ASSERTION",
        ObservationType::SystemDetection => "SYSTEM_DETECTION",
    }
}

pub fn observation_type_name(t: ObservationType) -> (r: &'static str)
    ensures
        r == type_wire_of(t),
{
    match t {
        ObservationType::Condition => "CONDITION",
        ObservationType::Measurement => "MEASUREMENT",
        ObservationType::Location => "LOCATION",
        ObservationType::Statement => "STATEMENT",
        ObservationType::Status => "STATUS",
        ObservationType::SensorDetection => "SENSOR_DETECTION",
        ObservationType::DocumentAssertion => "DOCUMENT_ASSERTION",
        ObservationType::SystemDetection => "SYSTEM_DETECTION",
    }
}

pub open spec fn status_wire(s: EpistemicStatus) -> &'static str {
    match s {
        EpistemicStatus::Observed => "OBSERVED",
        EpistemicStatus::UserReported => "USER_REPORTED",
        EpistemicStatus::EvidenceSupported => "EVIDENCE_SUPPORTED",
        EpistemicStatus::SourceSupported => "SOURCE_SUPPORTED",
        EpistemicStatus::SystemDerived => "SYSTEM_DERIVED",
        EpistemicStatus::Inferred => "INFERRED",
        EpistemicStatus::Unverified => "UNVERIFIED",
        EpistemicStatus::Contested => "CONTESTED",
        EpistemicStatus::Unknown => "UNKNOWN",
    }
}

pub fn status_name(s: EpistemicStatus) -> (r: &'static str)
    ensures
        r == status_wire(s),
{
    match s {
        EpistemicStatus::Observed => "OBSERVED",
        EpistemicStatus::UserReported => "USER_REPORTED",
        EpistemicStatus::EvidenceSupported => "EVIDENCE_SUPPORTED",
        EpistemicStatus::SourceSupported => "SOURCE_SUPPORTED",
        EpistemicStatus::SystemDerived => "SYSTEM_DERIVED",
        EpistemicStatus::Inferred => "INFERRED",
        EpistemicStatus::Unverified => "UNVERIFIED",
        EpistemicStatus::Contested => "CONTESTED",
        EpistemicStatus::Unknown => "UNKNOWN",
    }
}

/// Wire name of a data class (screaming snake case).
pub open spec fn data_class_wire(c: IntelligenceDataClass) -> &'static str {
    match c {
        IntelligenceDataClass::Public => "PUBLIC",
        IntelligenceDataClass::Internal => "INTERNAL",
        IntelligenceDataClass::Confidential => "CONFIDENTIAL",
        IntelligenceDataClass::Restricted => "RESTRICTED",
    }
}

pub fn data_class_name(c: IntelligenceDataClass) -> (r: &'static str)
    ensures
        r == data_class_wire(c),
{
    match c {
        IntelligenceDataClass::Public => "PUBLIC",
        IntelligenceDataClass::Internal => "INTERNAL",
        IntelligenceDataClass::Confidential => "CONFIDENTIAL",
        IntelligenceDataClass::Restricted => "RESTRICTED",
    }
}

// ----- JSON forms -----

/// `v` is the array of the JSON forms of `refs`, in order.
pub open spec fn is_refs_json(v: JsonValue, refs: Seq<ResourceRef>) -> bool {
    &&& v matches JsonValue::Array(items)
    &&& items@.len() == refs.len()
    &&& forall|i: int| 0 <= i < refs.len() ==> is_ref_json(#[trigger] items@[i], refs[i])
}

pub fn refs_json(refs: &Vec<ResourceRef>) -> (v: JsonValue)
    ensures
        is_refs_json(v, refs@),
{
    let mut items: Vec<JsonValue> = Vec::new();
    let mut k: usize = 0;
    while k < refs.len()
        invariant
            k <= refs@.len(),
            items@.len() == k,
            forall|i: int| 0 <= i < k ==> is_ref_json(#[trigger] items@[i], refs@[i]),
        decreases refs@.len() - k,
    {
        items.push(ref_json(&refs[k]));
        k = k + 1;
    }
    JsonValue::Array(items)
}

/// `m` is member `name` holding the JSON form of `r`.
pub open spec fn ref_member(m: JsonMember, name: Seq<char>, r: ResourceRef) -> bool {
    m.name@ == name && is_ref_json(m.value, r)
}

/// `v` is the JSON form of an observation whose assertion was `assertion`.
pub open spec fn is_observation_json(v: JsonValue, o: Observation, assertion: JsonValue) -> bool {
    &&& v matches JsonValue::Object(ms)
    &&& ms@.len() == 14
    &&& text_member(ms@[0], "observation_id"@, o.observation_id@)
    &&& ms@[1].name@ == "schema_version"@ && ms@[1].value == JsonValue::UInt(o.schema_version as u64)
    &&& ref_member(ms@[2], "subject_ref"@, o.subject_ref)
    &&& text_member(ms@[3], "observation_type"@, type_wire_of(o.observation_type)@)
    &&& text_member(ms@[4], "observation_origin"@, origin_wire(o.observation_origin)@)
    &&& text_member(ms@[5], "observed_at"@, o.observed_at@)
    &&& text_member(ms@[6], "recorded_at"@, o.recorded_at@)
    &&& ms@[7].name@ == "assertion"@ && ms@[7].value == assertion
    &&& text_member(ms@[8], "epistemic_status"@, status_wire(o.epistemic_status)@)
    &&& ms@[9].name@ == "source_refs"@ && is_refs_json(ms@[9].value, o.source_refs@)
    &&& ms@[10].name@ == "evidence_refs"@ && is_refs_json(ms@[10].value, o.evidence_refs@)
    &&& ms@[11].name@ == "provenance_ref"@ && match o.provenance_ref {
        Some(p) => is_ref_json(ms@[11].value, p),
        None => ms@[11].value == JsonValue::Null,
    }
    &&& ms@[12].name@ == "context_refs"@ && is_refs_json(ms@[12].value, o.context_refs@)
    &&& text_member(ms@[13], "data_class"@, data_class_wire(o.data_class)@)
}

/// The JSON form of an observation; its assertion moves into it and the
/// rest of the observation is handed back unchanged.
pub fn observation_json(o: Observation) -> (r: (JsonValue, Observation))
    ensures
        is_observation_json(r.0, o, o.assertion),
        r.1 == (Observation { assertion: JsonValue::Null, ..o }),
{
    let ghost original = o;
    let mut o = o;
    let mut assertion = JsonValue::Null;
    std::mem::swap(&mut assertion, &mut o.assertion);
    let mut ms: Vec<JsonMember> = Vec::new();
    ms.push(member("observation_id", text(o.observation_id.as_str())));
    ms.push(member("schema_version", JsonValue::UInt(o.schema_version as u64)));
    ms.push(member("subject_ref", ref_json(&o.subject_ref)));
    ms.push(member("observation_type", text(observation_type_name(o.observation_type))));
    ms.push(member("observation_origin", text(origin_name(o.observation_origin))));
    ms.push(member("observed_at", text(o.observed_at.as_str())));
    ms.push(member("recorded_at", text(o.recorded_at.as_str())));
    ms.push(member("assertion", assertion));
    ms.push(member("epistemic_status", text(status_name(o.epistemic_status))));
    ms.push(member("source_refs", refs_json(&o.source_refs)));
    ms.push(member("evidence_refs", refs_json(&o.evidence_refs)));
    let provenance = match &o.provenance_ref {
        Some(p) => ref_json(p),
        None => JsonValue::Null,
    };
    ms.push(member("provenance_ref", provenance));
    ms.push(member("context_refs", refs_json(&o.context_refs)));
    ms.push(member("data_class", text(data_class_name(o.data_class))));
    (JsonValue::Object(ms), o)
}

// ----- the records of an observation command -----

/// A lifecycle change's link to the observation it concerns.
#[derive(Debug, Clone, PartialEq, Eq)]
pub struct PriorLink {
    pub prior_ref: ResourceRef,
    pub relation: String,
    pub reason: String,
}

/// What a command writes about an observation besides the observation:
/// who, when, under which authorization, and the prior link of a lifecycle
/// change.
pub struct RecordContext {
    pub event_id: Id,
    pub event_type: String,
    pub observation_ref: ResourceRef,
    pub recorded_at: String,
    pub actor_ref: ResourceRef,
    pub source_refs: Vec<ResourceRef>,
    pub correlation_id: Id,
    pub operation_id: Id,
    pub authorization_ref: ResourceRef,
    pub prior: Option<PriorLink>,
}

/// The event's inner payload: the observation and the authorization, and for
/// a lifecycle change the prior observation, the relation and the reason.
pub open spec fn is_event_payload(v: JsonValue, c: RecordContext) -> bool {
    match c.prior {
        None => {
            &&& v matches JsonValue::Object(ms)
            &&& ms@.len() == 2
            &&& ref_member(ms@[0], "observation_ref"@, c.observation_ref)
            &&& ref_member(ms@[1], "authorization_ref"@, c.authorization_ref)
        },
        Some(p) => {
            &&& v matches JsonValue::Object(ms)
            &&& ms@.len() == 5
            &&& ref_member(ms@[0], "observation_ref"@, c.observation_ref)
            &&& ref_member(ms@[1], "prior_observation_ref"@, p.prior_ref)
            &&& text_member(ms@[2], "relation"@, p.relation@)
            &&& text_member(ms@[3], "reason"@, p.reason@)
            &&& ref_member(ms@[4], "authorization_ref"@, c.authorization_ref)
        },
    }
}

pub open spec fn is_observation_event_json(v: JsonValue, c: RecordContext) -> bool {
    &&& v matches JsonValue::Object(ms)
    &&& ms@.len() == 12
    &&& text_member(ms@[0], "event_id"@, c.event_id@)
    &&& text_member(ms@[1], "event_type"@, c.event_type@)
    &&& text_member(ms@[2], "aggregate_type"@, "observation"@)
    &&& text_member(ms@[3], "aggregate_id"@, c.observation_ref.id@)
    &&& text_member(ms@[4], "occurred_at"@, c.recorded_at@)
    &&& text_member(ms@[5], "actor_type"@, type_wire(c.actor_ref.resource_type)@)
    &&& text_member(ms@[6], "actor_id"@, c.actor_ref.id@)
    &&& ms@[7].name@ == "schema_version"@ && ms@[7].value == JsonValue::UInt(1)
    &&& ms@[8].name@ == "payload"@ && is_event_payload(ms@[8].value, c)
    &&& ms@[9].name@ == "source_refs"@ && is_refs_json(ms@[9].value, c.source_refs@)
    &&& text_member(ms@[10], "correlation_id"@, c.correlation_id@)
    &&& ms@[11].name@ == "causation_id"@ && ms@[11].value == JsonValue::Null
}

pub open spec fn is_observation_audit_json(v: JsonValue, c: RecordContext) -> bool {
    &&& v matches JsonValue::Object(ms)
    &&& ms@.len() == (if c.prior is Some { 10int } else { 8int })
    &&& text_member(ms@[0], "audit_id"@, "audit-"@ + c.operation_id@)
    &&& text_member(ms@[1], "actor_id"@, c.actor_ref.id@)
    &&& text_member(ms@[2], "action"@, c.event_type@)
    &&& text_member(ms@[3], "aggregate_type"@, "observation"@)
    &&& text_member(ms@[4], "aggregate_id"@, c.observation_ref.id@)
    &&& text_member(ms@[5], "occurred_at"@, c.recorded_at@)
    &&& text_member(ms@[6], "operation_id"@, c.operation_id@)
    &&& ref_member(ms@[7], "authorization_ref"@, c.authorization_ref)
    &&& c.prior is Some ==> ref_member(ms@[8], "prior_observation_ref"@, c.prior->0.prior_ref) && text_member(
        ms@[9],
        "reason"@,
        c.prior->0.reason@,
    )
}

/// The inputs of the change: the observation, the prior observation of a
/// lifecycle change, and the authorization.
pub open spec fn input_refs_of(c: RecordContext) -> Seq<ResourceRef> {
    match c.prior {
        Some(p) => seq![c.observation_ref, p.prior_ref, c.authorization_ref],
        None => seq![c.observation_ref, c.authorization_ref],
    }
}

pub open spec fn is_observation_provenance_json(v: JsonValue, c: RecordContext) -> bool {
    &&& v matches JsonValue::Object(ms)
    &&& ms@.len() == 6
    &&& text_member(ms@[0], "provenance_id"@, "provenance-"@ + c.operation_id@)
    &&& ref_member(ms@[1], "actor_ref"@, c.actor_ref)
    &&& ms@[2].name@ == "source_refs"@ && is_refs_json(ms@[2].value, c.source_refs@)
    &&& ms@[3].name@ == "input_refs"@ && is_refs_json(ms@[3].value, input_refs_of(c))
    &&& text_member(ms@[4], "operation"@, c.event_type@)
    &&& text_member(ms@[5], "occurred_at"@, c.recorded_at@)
}

/// `ws` are the event, audit and provenance inserts of the change.
pub open spec fn observation_records(ws: Seq<ResourceWrite>, c: RecordContext) -> bool {
    &&& ws.len() == 3
    &&& ws[0].resource_ref@ == (ResourceRefView { resource_type: ResourceType::Event, id: c.event_id@ })
    &&& ws[1].resource_ref@ == (ResourceRefView { resource_type: ResourceType::Audit, id: "audit-"@ + c.operation_id@ })
    &&& ws[2].resource_ref@ == (ResourceRefView {
        resource_type: ResourceType::Provenance,
        id: "provenance-"@ + c.operation_id@,
    })
    &&& forall|k: int|
        0 <= k < 3 ==> (#[trigger] ws[k]).schema_version == 1 && ws[k].mode == ResourceWriteMode::Insert
            && ws[k].expected_revision is None
    &&& is_observation_event_json(ws[0].payload, c)
    &&& is_observation_audit_json(ws[1].payload, c)
    &&& is_observation_provenance_json(ws[2].payload, c)
}

/// `w` inserts `o` as a new observation record.
pub open spec fn observation_insert(w: ResourceWrite, o: Observation) -> bool {
    &&& w.resource_ref@ == (ResourceRefView { resource_type: ResourceType::Observation, id: o.observation_id@ })
    &&& w.schema_version == o.schema_version
    &&& w.mode == ResourceWriteMode::Insert
    &&& w.expected_revision is None
    &&& is_observation_json(w.payload, o, o.assertion)
}

/// The prior observation, relation and reason of a lifecycle change, by view.
pub open spec fn prior_view(p: Option<PriorLink>) -> Option<(ResourceRefView, Seq<char>, Seq<char>)> {
    match p {
        Some(l) => Some((l.prior_ref@, l.relation@, l.reason@)),
        None => None,
    }
}

/// `c` describes the change of observation `o` by `actor_ref` under
/// `authorization_ref`, with the given event, operation and prior link.
pub open spec fn change_context(
    c: RecordContext,
    o: Observation,
    event_id: Seq<char>,
    event_type: Seq<char>,
    actor_ref: ResourceRef,
    correlation_id: Seq<char>,
    operation_id: Seq<char>,
    authorization_ref: ResourceRef,
    prior: Option<(ResourceRefView, Seq<char>, Seq<char>)>,
) -> bool {
    &&& c.event_id@ == event_id
    &&& c.event_type@ == event_type
    &&& c.observation_ref@ == (ResourceRefView { resource_type: ResourceType::Observation, id: o.observation_id@ })
    &&& c.recorded_at == o.recorded_at
    &&& c.actor_ref == actor_ref
    &&& c.source_refs == o.source_refs
    &&& c.correlation_id@ == correlation_id
    &&& c.operation_id@ == operation_id
    &&& c.authorization_ref == authorization_ref
    &&& prior_view(c.prior) == prior
}

/// `after` is `before` followed by the insert of `o`, then the event, audit
/// record and provenance of a change that `change_context` describes.
pub open spec fn observation_change_writes(
    before: Seq<ResourceWrite>,
    after: Seq<ResourceWrite>,
    o: Observation,
    event_id: Seq<char>,
    event_type: Seq<char>,
    actor_ref: ResourceRef,
    correlation_id: Seq<char>,
    operation_id: Seq<char>,
    authorization_ref: ResourceRef,
    prior: Option<(ResourceRefView, Seq<char>, Seq<char>)>,
) -> bool {
    exists|w: ResourceWrite, ws: Seq<ResourceWrite>, c: RecordContext|
        after == before.push(w) + ws && #[trigger] observation_insert(w, o) && #[trigger] observation_records(ws, c)
            && change_context(c, o, event_id, event_type, actor_ref, correlation_id, operation_id, authorization_ref, prior)
}

fn insert_of(resource_type: ResourceType, id: String, payload: JsonValue) -> (w: ResourceWrite)
    ensures
        w.resource_ref == (ResourceRef { resource_type, id }),
        w.schema_version == 1,
        w.mode == ResourceWriteMode::Insert,
        w.expected_revision is None,
        w.payload == payload,
{
    ResourceWrite { resource_ref: ResourceRef { resource_type, id }, schema_version: 1, payload, mode: ResourceWriteMode::Insert, expected_revision: None }
}

/// The event, audit and provenance records of an observation change.
pub fn observation_record_writes(c: &RecordContext) -> (ws: Vec<ResourceWrite>)
    ensures
        observation_records(ws@, *c),
{
    let mut payload: Vec<JsonMember> = Vec::new();
    payload.push(member("observation_ref", ref_json(&c.observation_ref)));
    match &c.prior {
        Some(p) => {
            payload.push(member("prior_observation_ref", ref_json(&p.prior_ref)));
            payload.push(member("relation", text(p.relation.as_str())));
            payload.push(member("reason", text(p.reason.as_str())));
        },
        None => {},
    }
    payload.push(member("authorization_ref", ref_json(&c.authorization_ref)));

    let mut em: Vec<JsonMember> = Vec::new();
    em.push(member("event_id", text(c.event_id.as_str())));
    em.push(member("event_type", text(c.event_type.as_str())));
    em.push(member("aggregate_type", text("observation")));
    em.push(member("aggregate_id", text(c.observation_ref.id.as_str())));
    em.push(member("occurred_at", text(c.recorded_at.as_str())));
    em.push(member("actor_type", text(type_wire_name(c.actor_ref.resource_type))));
    em.push(member("actor_id", text(c.actor_ref.id.as_str())));
    em.push(member("schema_version", JsonValue::UInt(1)));
    em.push(member("payload", JsonValue::Object(payload)));
    em.push(member("source_refs", refs_json(&c.source_refs)));
    em.push(member("correlation_id", text(c.correlation_id.as_str())));
    em.push(member("causation_id", JsonValue::Null));

    let audit_id = concat("audit-", c.operation_id.as_str());
    let mut am: Vec<JsonMember> = Vec::new();
    am.push(member("audit_id", text(audit_id.as_str())));
    am.push(member("actor_id", text(c.actor_ref.id.as_str())));
    am.push(member("action", text(c.event_type.as_str())));
    am.push(member("aggregate_type", text("observation")));
    am.push(member("aggregate_id", text(c.observation_ref.id.as_str())));
    am.push(member("occurred_at", text(c.recorded_at.as_str())));
    am.push(member("operation_id", text(c.operation_id.as_str())));
    am.push(member("authorization_ref", ref_json(&c.authorization_ref)));
    match &c.prior {
        Some(p) => {
            am.push(member("prior_observation_ref", ref_json(&p.prior_ref)));
            am.push(member("reason", text(p.reason.as_str())));
        },
        None => {},
    }

    let mut inputs: Vec<ResourceRef> = Vec::new();
    inputs.push(c.observation_ref.duplicate());
    match &c.prior {
        Some(p) => inputs.push(p.prior_ref.duplicate()),
        None => {},
    }
    inputs.push(c.authorization_ref.duplicate());
    proof {
        assert(inputs@ =~= input_refs_of(*c));
    }
    let provenance_id = concat("provenance-", c.operation_id.as_str());
    let mut pm: Vec<JsonMember> = Vec::new();
    pm.push(member("provenance_id", text(provenance_id.as_str())));
    pm.push(member("actor_ref", ref_json(&c.actor_ref)));
    pm.push(member("source_refs", refs_json(&c.source_refs)));
    pm.push(member("input_refs", refs_json(&inputs)));
    pm.push(member("operation", text(c.event_type.as_str())));
    pm.push(member("occurred_at", text(c.recorded_at.as_str())));

    let mut ws: Vec<ResourceWrite> = Vec::new();
    ws.push(insert_of(ResourceType::Event, c.event_id.clone(), JsonValue::Object(em)));
    ws.push(insert_of(ResourceType::Audit, audit_id, JsonValue::Object(am)));
    ws.push(insert_of(ResourceType::Provenance, provenance_id, JsonValue::Object(pm)));
    ws
}

// ----- authorization of an observation command -----

/// Why an observation command's authorization is refused.
#[derive(Debug, Clone, Copy, PartialEq, Eq, Structural)]
pub enum ObservationAuthorizationFault {
    InvalidInput,
    Denied,
    Mismatch,
    Expired,
}

/// What checking a command's authorization answers, in order: the command's
/// own identities, an allowing decision, a complete result, the same actor,
/// action and observation (and data class, when `check_class`), and a result
/// evaluated by now that has not expired.
pub open spec fn observation_authorization(
    actor: ResourceRef,
    operation_id: Seq<char>,
    correlation_id: Seq<char>,
    now: u64,
    a: AuthorizationResult,
    action: Seq<char>,
    o: Observation,
    check_class: bool,
) -> Result<(), ObservationAuthorizationFault> {
    if operation_id.len() == 0 || correlation_id.len() == 0 || actor.id@.len() == 0 {
        Err(ObservationAuthorizationFault::InvalidInput)
    } else if o.observation_id@.len() == 0 {
        Err(ObservationAuthorizationFault::InvalidInput)
    } else if a.decision != AuthorizationDecision::Allow {
        Err(ObservationAuthorizationFault::Denied)
    } else if a.request_id@.len() == 0 || a.authorization_ref.id@.len() == 0 || is_blank(a.purpose@) {
        Err(ObservationAuthorizationFault::Mismatch)
    } else if a.subject_ref@ != actor@ || a.action@ != (ResourceRefView { resource_type: ResourceType::Action, id: action })
        || a.resource_ref@ != (ResourceRefView { resource_type: ResourceType::Observation, id: o.observation_id@ })
        || (check_class && opt_text_view(a.data_class) != Some(data_class_wire(o.data_class)@)) {
        Err(ObservationAuthorizationFault::Mismatch)
    } else if a.evaluated_at_epoch_seconds > now || (a.expires_at_epoch_seconds is Some && now
        > a.expires_at_epoch_seconds->0) {
        Err(ObservationAuthorizationFault::Expired)
    } else {
        Ok(())
    }
}

pub fn check_observation_authorization(
    actor: &ResourceRef,
    operation_id: &Id,
    correlation_id: &Id,
    now: u64,
    a: &AuthorizationResult,
    action: &str,
    o: &Observation,
    check_class: bool,
) -> (r: Result<(), ObservationAuthorizationFault>)
    ensures
        r == observation_authorization(*actor, operation_id@, correlation_id@, now, *a, action@, *o, check_class),
{
    if operation_id.as_str().is_empty() || correlation_id.as_str().is_empty() || actor.id.as_str().is_empty() {
        return Err(ObservationAuthorizationFault::InvalidInput);
    }
    if o.observation_id.as_str().is_empty() {
        return Err(ObservationAuthorizationFault::InvalidInput);
    }
    if a.decision != AuthorizationDecision::Allow {
        return Err(ObservationAuthorizationFault::Denied);
    }
    if a.request_id.as_str().is_empty() || a.authorization_ref.id.as_str().is_empty() || str_is_blank(a.purpose.as_str()) {
        return Err(ObservationAuthorizationFault::Mismatch);
    }
    let class_matches = if check_class {
        match &a.data_class {
            Some(c) => str_eq(c.as_str(), data_class_name(o.data_class)),
            None => false,
        }
    } else {
        true
    };
    if !a.subject_ref.same(actor) || a.action.resource_type != ResourceType::Action || !str_eq(a.action.id.as_str(), action)
        || a.resource_ref.resource_type != ResourceType::Observation || !str_eq(
        a.resource_ref.id.as_str(),
        o.observation_id.as_str(),
    ) || !class_matches {
        return Err(ObservationAuthorizationFault::Mismatch);
    }
    let expired = match a.expires_at_epoch_seconds {
        Some(e) => now > e,
        None => false,
    };
    if a.evaluated_at_epoch_seconds > now || expired {
        return Err(ObservationAuthorizationFault::Expired);
    }
    Ok(())
}

/// The insert of an observation: its JSON form at its own schema version,
/// which must be positive and fit a stored schema version.
pub fn observation_write(o: Observation) -> (r: Result<(ResourceWrite, Observation), UnitOfWorkError>)
    ensures
        (o.observation_id@.len() == 0 || o.schema_version == 0 || o.schema_version > 65535) ==> r
            == Err::<(ResourceWrite, Observation), UnitOfWorkError>(UnitOfWorkError::InvalidOperation),
        !(o.observation_id@.len() == 0 || o.schema_version == 0 || o.schema_version > 65535) ==> r is Ok && ({
            let w = r->Ok_0.0;
            &&& w.resource_ref@ == (ResourceRefView { resource_type: ResourceType::Observation, id: o.observation_id@ })
            &&& w.schema_version == o.schema_version
            &&& w.mode == ResourceWriteMode::Insert
            &&& w.expected_revision is None
            &&& is_observation_json(w.payload, o, o.assertion)
        }) && r->Ok_0.1 == (Observation { assertion: JsonValue::Null, ..o }),
{
    if o.observation_id.as_str().is_empty() || o.schema_version == 0 || o.schema_version > 65535 {
        return Err(UnitOfWorkError::InvalidOperation);
    }
    let schema = o.schema_version as u16;
    let id = o.observation_id.clone();
    let (payload, rest) = observation_json(o);
    let w = ResourceWrite {
        resource_ref: ResourceRef { resource_type: ResourceType::Observation, id },
        schema_version: schema,
        payload,
        mode: ResourceWriteMode::Insert,
        expected_revision: None,
    };
    Ok((w, rest))
}


/// Two forms of reference lists with the same views have the same abstract
/// value.
pub proof fn lemma_refs_json_view(v1: JsonValue, v2: JsonValue, rs1: Seq<ResourceRef>, rs2: Seq<ResourceRef>)
    requires
        is_refs_json(v1, rs1),
        is_refs_json(v2, rs2),
        rs1.len() == rs2.len(),
        forall|i: int| 0 <= i < rs1.len() ==> (#[trigger] rs1[i])@ == rs2[i]@,
    ensures
        v1@ == v2@,
{
    let (xs1, xs2) = (v1->Array_0@, v2->Array_0@);
    let (d1, d2) = (v1@->List_0, v2@->List_0);
    assert forall|i: int| 0 <= i < d1.len() implies #[trigger] d1[i] == d2[i] by {
        assert(is_ref_json(xs1[i], rs1[i]) && is_ref_json(xs2[i], rs2[i]));
        lemma_ref_json_view(xs1[i], xs2[i], rs1[i], rs2[i]);
        assert(d1[i] == json_data(xs1[i]) && d2[i] == json_data(xs2[i]));
    }
    assert(d1 =~= d2);
}

/// The forms of an observation are alike.
pub proof fn lemma_observation_json_view(v1: JsonValue, v2: JsonValue, o: Observation)
    requires
        is_observation_json(v1, o, o.assertion),
        is_observation_json(v2, o, o.assertion),
    ensures
        v1@ == v2@,
{
    let (ms1, ms2) = (v1->Object_0@, v2->Object_0@);
    assert forall|i: int| 0 <= i < ms1.len() implies (#[trigger] ms1[i]).name@ == ms2[i].name@
        && ms1[i].value@ == ms2[i].value@ by {
        if i == 2 {
            lemma_ref_json_view(ms1[i].value, ms2[i].value, o.subject_ref, o.subject_ref);
        } else if i == 9 {
            lemma_refs_json_view(ms1[i].value, ms2[i].value, o.source_refs@, o.source_refs@);
        } else if i == 10 {
            lemma_refs_json_view(ms1[i].value, ms2[i].value, o.evidence_refs@, o.evidence_refs@);
        } else if i == 12 {
            lemma_refs_json_view(ms1[i].value, ms2[i].value, o.context_refs@, o.context_refs@);
        } else if i == 11 {
            if o.provenance_ref is Some {
                lemma_ref_json_view(ms1[i].value, ms2[i].value, o.provenance_ref->0, o.provenance_ref->0);
            }
        }
    }
    lemma_object_view(v1, v2);
}

/// The views of two record contexts agree field by field.
pub open spec fn contexts_agree(c1: RecordContext, c2: RecordContext) -> bool {
    &&& c1.event_id@ == c2.event_id@
    &&& c1.event_type@ == c2.event_type@
    &&& c1.observation_ref@ == c2.observation_ref@
    &&& c1.recorded_at@ == c2.recorded_at@
    &&& c1.actor_ref@ == c2.actor_ref@
    &&& c1.source_refs == c2.source_refs
    &&& c1.correlation_id@ == c2.correlation_id@
    &&& c1.operation_id@ == c2.operation_id@
    &&& c1.authorization_ref@ == c2.authorization_ref@
    &&& prior_view(c1.prior) == prior_view(c2.prior)
}

/// The event, audit and provenance forms of agreeing contexts are alike.
pub proof fn lemma_record_json_views(ws1: Seq<ResourceWrite>, ws2: Seq<ResourceWrite>, c1: RecordContext, c2: RecordContext)
    requires
        observation_records(ws1, c1),
        observation_records(ws2, c2),
        contexts_agree(c1, c2),
    ensures
        forall|k: int| 0 <= k < 3 ==> (#[trigger] ws1[k]).payload@ == ws2[k].payload@,
{
    // the event
    let (e1, e2) = (ws1[0].payload, ws2[0].payload);
    let (ms1, ms2) = (e1->Object_0@, e2->Object_0@);
    assert forall|i: int| 0 <= i < ms1.len() implies (#[trigger] ms1[i]).name@ == ms2[i].name@
        && ms1[i].value@ == ms2[i].value@ by {
        if i == 8 {
            let (p1, p2) = (ms1[i].value, ms2[i].value);
            let (ns1, ns2) = (p1->Object_0@, p2->Object_0@);
            assert forall|j: int| 0 <= j < ns1.len() implies (#[trigger] ns1[j]).name@ == ns2[j].name@
                && ns1[j].value@ == ns2[j].value@ by {
                if c1.prior is Some {
                    let (l1, l2) = (c1.prior->0, c2.prior->0);
                    if j == 0 {
                        lemma_ref_json_view(ns1[j].value, ns2[j].value, c1.observation_ref, c2.observation_ref);
                    } else if j == 1 {
                        lemma_ref_json_view(ns1[j].value, ns2[j].value, l1.prior_ref, l2.prior_ref);
                    } else if j == 4 {
                        lemma_ref_json_view(ns1[j].value, ns2[j].value, c1.authorization_ref, c2.authorization_ref);
                    }
                } else {
                    if j == 0 {
                        lemma_ref_json_view(ns1[j].value, ns2[j].value, c1.observation_ref, c2.observation_ref);
                    } else if j == 1 {
                        lemma_ref_json_view(ns1[j].value, ns2[j].value, c1.authorization_ref, c2.authorization_ref);
                    }
                }
            }
            lemma_object_view(p1, p2);
        } else if i == 9 {
            lemma_refs_json_view(ms1[i].value, ms2[i].value, c1.source_refs@, c2.source_refs@);
        }
    }
    lemma_object_view(e1, e2);
    // the audit record
    let (a1, a2) = (ws1[1].payload, ws2[1].payload);
    let (as1, as2) = (a1->Object_0@, a2->Object_0@);
    assert forall|i: int| 0 <= i < as1.len() implies (#[trigger] as1[i]).name@ == as2[i].name@
        && as1[i].value@ == as2[i].value@ by {
        if i == 7 {
            lemma_ref_json_view(as1[i].value, as2[i].value, c1.authorization_ref, c2.authorization_ref);
        } else if i == 8 {
            lemma_ref_json_view(as1[i].value, as2[i].value, c1.prior->0.prior_ref, c2.prior->0.prior_ref);
        }
    }
    lemma_object_view(a1, a2);
    // the provenance
    let (q1, q2) = (ws1[2].payload, ws2[2].payload);
    let (qs1, qs2) = (q1->Object_0@, q2->Object_0@);
    assert forall|i: int| 0 <= i < qs1.len() implies (#[trigger] qs1[i]).name@ == qs2[i].name@
        && qs1[i].value@ == qs2[i].value@ by {
        if i == 1 {
            lemma_ref_json_view(qs1[i].value, qs2[i].value, c1.actor_ref, c2.actor_ref);
        } else if i == 2 {
            lemma_refs_json_view(qs1[i].value, qs2[i].value, c1.source_refs@, c2.source_refs@);
        } else if i == 3 {
            let (r1, r2) = (input_refs_of(c1), input_refs_of(c2));
            assert forall|k: int| 0 <= k < r1.len() implies (#[trigger] r1[k])@ == r2[k]@ by {}
            lemma_refs_json_view(qs1[i].value, qs2[i].value, r1, r2);
        }
    }
    lemma_object_view(q1, q2);
}

/// Two write sequences agree write by write: the same resources, schema
/// versions, payloads (by value), modes and expected revisions.
pub open spec fn writes_agree(a: Seq<ResourceWrite>, b: Seq<ResourceWrite>) -> bool {
    &&& a.len() == b.len()
    &&& forall|i: int|
        0 <= i < a.len() ==> (#[trigger] a[i]).resource_ref@ == b[i].resource_ref@ && a[i].schema_version
            == b[i].schema_version && a[i].payload@ == b[i].payload@ && a[i].mode == b[i].mode
            && a[i].expected_revision == b[i].expected_revision
}

/// The writes of an observation change are determined by what it records:
/// two write sequences that `observation_change_writes` admits for the same
/// arguments agree write by write. `persist_observation` and
/// `execute_create_observation` both ensure it for the same arguments, so
/// from one context state they write the same.
pub proof fn lemma_observation_change_writes_agree(
    before: Seq<ResourceWrite>,
    a1: Seq<ResourceWrite>,
    a2: Seq<ResourceWrite>,
    o: Observation,
    event_id: Seq<char>,
    event_type: Seq<char>,
    actor_ref: ResourceRef,
    correlation_id: Seq<char>,
    operation_id: Seq<char>,
    authorization_ref: ResourceRef,
    prior: Option<(ResourceRefView, Seq<char>, Seq<char>)>,
)
    requires
        observation_change_writes(before, a1, o, event_id, event_type, actor_ref, correlation_id, operation_id, authorization_ref, prior),
        observation_change_writes(before, a2, o, event_id, event_type, actor_ref, correlation_id, operation_id, authorization_ref, prior),
    ensures
        writes_agree(a1, a2),
{
    let (w1, ws1, c1) = choose|w: ResourceWrite, ws: Seq<ResourceWrite>, c: RecordContext|
        a1 == before.push(w) + ws && #[trigger] observation_insert(w, o) && #[trigger] observation_records(ws, c)
            && change_context(c, o, event_id, event_type, actor_ref, correlation_id, operation_id, authorization_ref, prior);
    let (w2, ws2, c2) = choose|w: ResourceWrite, ws: Seq<ResourceWrite>, c: RecordContext|
        a2 == before.push(w) + ws && #[trigger] observation_insert(w, o) && #[trigger] observation_records(ws, c)
            && change_context(c, o, event_id, event_type, actor_ref, correlation_id, operation_id, authorization_ref, prior);
    assert(contexts_agree(c1, c2));
    lemma_observation_json_view(w1.payload, w2.payload, o);
    lemma_record_json_views(ws1, ws2, c1, c2);
    let n = before.len() as int;
    assert forall|i: int| 0 <= i < a1.len() implies (#[trigger] a1[i]).resource_ref@ == a2[i].resource_ref@
        && a1[i].schema_version == a2[i].schema_version && a1[i].payload@ == a2[i].payload@ && a1[i].mode
        == a2[i].mode && a1[i].expected_revision == a2[i].expected_revision by {
        if i < n {
            assert(a1[i] == before[i] && a2[i] == before[i]);
        } else if i == n {
            assert(a1[i] == w1 && a2[i] == w2);
        } else {
            assert(a1[i] == ws1[i - n - 1] && a2[i] == ws2[i - n - 1]);
            assert(ws1[i - n - 1].schema_version == 1 && ws2[i - n - 1].schema_version == 1);
        }
    }
}

} // verus!
