//! Verified domain core for legal case and incident management: typed
//! references, lifecycles, registries, authorization enforcement and the
//! tool execution boundary.

pub mod text;
pub mod resource;
pub mod id_map;
pub mod case;
pub mod incident;
pub mod lifecycle;
pub mod provenance;

pub use resource::{Id, ResourceRef, ResourceType};
pub use case::{Case, CaseState};
pub use incident::{Incident, IncidentState};
pub use lifecycle::{LifecycleMeta, LifecycleTransition};
pub use provenance::{Provenance, ProvenanceRef};
pub mod authorization;
pub mod authorization_enforcement;
pub use authorization::{
    AccessAction, AccessRequest, AuthorizationConstraint, AuthorizationContext,
    AuthorizationDecision, AuthorizationEvaluator, AuthorizationPolicy, AuthorizationRequest,
    AuthorizationResult, AuthorizationRule, CaseAccessPolicy, InMemoryAuthorizationEvaluator,
    StaticAuthorizationEvaluator, evaluate_request,
};
pub use authorization_enforcement::{AuthorizationValidationError, validate_authorization};
pub mod action;
pub use action::{
    Action, ActionKind, ActionStatus, ApprovalDecision, ApprovalOrigin, ApprovalRecord,
    ExecutionGate, ExecutionGateError, ExecutionGateInput,
};
pub mod deadline;
pub mod audit;
pub mod authority;
pub mod compliance;
pub mod chain;
pub mod legal_source;
pub mod legal_source_registry;
pub mod jurisdiction;
pub mod knowledge_graph;
pub mod party;
pub mod procedure;
pub mod remedy;
pub mod resolution;
pub mod response;
pub mod capability_lease;
pub mod security;
pub mod tool_registry;
pub mod tool_data_access;
pub mod dependency;
pub mod capability_registry;
pub mod evidence;
pub mod document;
pub mod evidence_store;
pub mod evidence_query;
pub mod evidence_trust;
pub mod intelligence;
pub mod postgres;
pub mod observation;
pub mod observation_command;
pub mod observation_service;
pub mod observation_lifecycle;
pub mod json;
pub mod canonical;
pub mod tool_gateway;
pub mod command;
pub mod service;
pub mod service_canonical;
pub mod persistence;
pub use evidence::{sha256_hex, DerivedArtifact, EvidenceOriginal};
pub mod event;
pub use event::EventEnvelope;
pub mod chronology;
pub mod timeline;
pub use timeline::Timeline;
pub mod repository;
pub mod longitudinal;
pub mod query;
pub mod evidence_repository;
pub mod json_fields;
pub mod party_codec;
pub mod party_repository;
pub mod local_store;
pub mod invocation_key;
