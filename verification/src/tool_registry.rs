//! The registry of tools: identity, contract metadata, discovery and
//! lifecycle. It grants no authorization, approval, trust or execution.
use vstd::prelude::*;
use crate::dependency::{
    DepEdge, DepNode, DepRequirement, DepView, acyclic, lemma_acyclic_after_push,
    lemma_reachable_cycle_is_self_reach, reaches, reaches_cycle, reaches_itself, views,
};
use crate::resource::{Id, ResourceRef};
use crate::text::{is_blank, str_eq, str_is_blank, seq_lt, str_lt, lemma_seq_lt_irreflexive,
    lemma_seq_lt_transitive, lemma_seq_lt_trichotomy};

verus! {

/// Semantic version of a tool.
#[derive(Debug, Clone, Copy, PartialEq, Eq, Structural, PartialOrd, Ord, Hash)]
pub struct ToolVersion {
    pub major: u64,
    pub minor: u64,
    pub patch: u64,
}

/// Version order: by major, then minor, then patch.
pub open spec fn version_lt(a: ToolVersion, b: ToolVersion) -> bool {
    a.major < b.major || (a.major == b.major && (a.minor < b.minor || (a.minor == b.minor && a.patch
        < b.patch)))
}

/// Versions compare by major first, then minor, then patch: a lower major
/// is older whatever the rest; with the same major, a lower minor is older
/// whatever the patch; with the same major and minor, the lower patch. The
/// order is strict and total.
pub proof fn lemma_version_order(a: ToolVersion, b: ToolVersion)
    ensures
        a.major < b.major ==> version_lt(a, b),
        a.major == b.major && a.minor < b.minor ==> version_lt(a, b),
        a.major == b.major && a.minor == b.minor && a.patch < b.patch ==> version_lt(a, b),
        version_lt(a, b) ==> a.major <= b.major,
        !version_lt(a, a),
        version_lt(a, b) ==> !version_lt(b, a),
        version_lt(a, b) || version_lt(b, a) || a == b,
        version_lt(a, b) ==> a.major < b.major || (a.major == b.major && a.minor < b.minor) || (a.major == b.major
            && a.minor == b.minor && a.patch < b.patch),
{
}

/// A version that no version of its major is newer than has the highest
/// minor among them, and the highest patch among those of its minor.
pub proof fn lemma_newest_of_major(a: ToolVersion, b: ToolVersion)
    requires
        a.major == b.major,
        !version_lt(a, b),
    ensures
        b.minor < a.minor || (b.minor == a.minor && b.patch <= a.patch),
{
}

pub fn version_less(a: ToolVersion, b: ToolVersion) -> (r: bool)
    ensures
        r == version_lt(a, b),
{
    a.major < b.major || (a.major == b.major && (a.minor < b.minor || (a.minor == b.minor && a.patch
        < b.patch)))
}

impl ToolVersion {
    pub fn new(major: u64, minor: u64, patch: u64) -> (v: Self)
        ensures
            v == (ToolVersion { major, minor, patch }),
    {
        ToolVersion { major, minor, patch }
    }
}

#[derive(Debug, Clone, Copy, PartialEq, Eq, Structural)]
pub enum ToolLifecycle {
    Proposed,
    Designed,
    Contracted,
    Implemented,
    Tested,
    SecurityReviewed,
    OperationallyVerified,
    Active,
    Deprecated,
    Retired,
}

impl ToolLifecycle {
    pub fn selectable_for_execution(self) -> (b: bool)
        ensures
            b == (self == ToolLifecycle::Active),
    {
        match self {
            ToolLifecycle::Active => true,
            _ => false,
        }
    }
}

#[derive(Debug, Clone, Copy, PartialEq, Eq, Structural)]
pub enum ToolRiskClass {
    ReadOnly,
    UserData,
    Mutating,
    HighImpact,
}

/// Data sensitivity, from public to restricted.
#[derive(Debug, Clone, Copy, PartialEq, Eq, Structural, PartialOrd, Ord, Hash)]
pub enum ToolDataClass {
    Public,
    Internal,
    Confidential,
    Restricted,
}

/// Position of a data class in the sensitivity order.
pub open spec fn data_class_level(value: ToolDataClass) -> int {
    match value {
        ToolDataClass::Public => 0,
        ToolDataClass::Internal => 1,
        ToolDataClass::Confidential => 2,
        ToolDataClass::Restricted => 3,
    }
}

pub fn data_class_rank(value: ToolDataClass) -> (r: u8)
    ensures
        r == data_class_level(value),
{
    match value {
        ToolDataClass::Public => 0,
        ToolDataClass::Internal => 1,
        ToolDataClass::Confidential => 2,
        ToolDataClass::Restricted => 3,
    }
}

#[derive(Debug, Clone, Copy, PartialEq, Eq, Structural, PartialOrd, Ord, Hash)]
pub enum ToolExecutionMode {
    Sync,
    Async,
    Offline,
    Resumable,
}

#[derive(Debug, Clone, Copy, PartialEq, Eq, Structural)]
pub enum ToolVersionRequirement {
    Exact(ToolVersion),
    CompatibleMajor(u64),
}

/// Whether `version` satisfies `requirement`.
pub open spec fn satisfies(version: ToolVersion, requirement: ToolVersionRequirement) -> bool {
    match requirement {
        ToolVersionRequirement::Exact(v) => version == v,
        ToolVersionRequirement::CompatibleMajor(major) => version.major == major,
    }
}

pub fn version_matches(version: ToolVersion, requirement: &ToolVersionRequirement) -> (b: bool)
    ensures
        b == satisfies(version, *requirement),
{
    match requirement {
        ToolVersionRequirement::Exact(v) => version == *v,
        ToolVersionRequirement::CompatibleMajor(major) => version.major == *major,
    }
}

#[derive(Debug, Clone, PartialEq, Eq)]
pub struct ToolImplementation {
    pub implementation_id: Id,
    pub provider_id: Id,
    pub implementation_version: String,
    pub adapter_refs: Vec<ResourceRef>,
}

#[derive(Debug, Clone, PartialEq, Eq)]
pub struct ToolDependency {
    pub tool_id: Id,
    pub requirement: ToolVersionRequirement,
    pub optional: bool,
}

/// A registered tool version. Its data classes and execution modes are sets:
/// listed in ascending order without repeats.
#[derive(Debug, Clone, PartialEq, Eq)]
pub struct ToolRegistryEntry {
    pub tool_id: Id,
    pub version: ToolVersion,
    pub name: String,
    pub purpose: String,
    pub lifecycle: ToolLifecycle,
    pub risk_class: ToolRiskClass,
    pub data_classes: Vec<ToolDataClass>,
    pub capability_ref: ResourceRef,
    pub function_ref: Option<ResourceRef>,
    pub jurisdiction_scope: Vec<String>,
    pub permission_requirements: Vec<String>,
    /// Execution through the gateway must present a capability lease.
    pub capability_lease_required: bool,
    pub approval_required: bool,
    pub input_schema_ref: Option<ResourceRef>,
    pub output_schema_ref: Option<ResourceRef>,
    pub execution_modes: Vec<ToolExecutionMode>,
    pub dependencies: Vec<ToolDependency>,
    pub implementations: Vec<ToolImplementation>,
    pub provenance_requirements: Vec<String>,
    pub observability_refs: Vec<ResourceRef>,
    pub documentation_refs: Vec<ResourceRef>,
}

#[derive(Debug, Clone, PartialEq, Eq)]
pub struct ToolRegistryAuditRecord {
    pub change_id: Id,
    pub tool_id: Id,
    pub version: ToolVersion,
    pub change_type: String,
    pub actor_ref: Id,
    pub authorization_ref: Id,
    pub timestamp: String,
    pub previous_lifecycle: Option<ToolLifecycle>,
    pub new_lifecycle: Option<ToolLifecycle>,
}

#[derive(Debug, Clone, PartialEq, Eq)]
pub struct ToolRegistryCriteria {
    pub tool_id: Option<Id>,
    pub version: Option<ToolVersion>,
    pub capability_ref: Option<ResourceRef>,
    pub risk_class: Option<ToolRiskClass>,
    pub data_class: Option<ToolDataClass>,
    pub jurisdiction: Option<String>,
    pub execution_mode: Option<ToolExecutionMode>,
    pub lifecycle: Option<ToolLifecycle>,
}

impl Default for ToolRegistryCriteria {
    fn default() -> (r: Self)
        ensures
            r.tool_id is None && r.version is None && r.capability_ref is None && r.risk_class is None
                && r.data_class is None && r.jurisdiction is None && r.execution_mode is None
                && r.lifecycle is None,
    {
        ToolRegistryCriteria {
            tool_id: None,
            version: None,
            capability_ref: None,
            risk_class: None,
            data_class: None,
            jurisdiction: None,
            execution_mode: None,
            lifecycle: None,
        }
    }
}

#[derive(Debug, Clone, Copy, PartialEq, Eq, Structural)]
pub enum ToolRegistryError {
    EmptyId,
    EmptyName,
    EmptyPurpose,
    InvalidCapabilityReference,
    InvalidFunctionReference,
    InvalidSchemaReference,
    InvalidVersion,
    DuplicateIdentity,
    NotFound,
    UnsupportedVersion,
    Retired,
    InvalidLifecyclePromotion,
    HighImpactApprovalRequired,
    MissingRequiredDependency,
    DependencyCycle,
    DuplicateImplementation,
    ConflictingMetadata,
    AuditContextRequired,
    InvalidMetadata,
}

/// The tool lifecycle promotion order.
pub open spec fn promotion_step(from: ToolLifecycle, to: ToolLifecycle) -> bool {
    match (from, to) {
        (ToolLifecycle::Proposed, ToolLifecycle::Designed) => true,
        (ToolLifecycle::Designed, ToolLifecycle::Contracted) => true,
        (ToolLifecycle::Contracted, ToolLifecycle::Implemented) => true,
        (ToolLifecycle::Implemented, ToolLifecycle::Tested) => true,
        (ToolLifecycle::Tested, ToolLifecycle::SecurityReviewed) => true,
        (ToolLifecycle::SecurityReviewed, ToolLifecycle::OperationallyVerified) => true,
        (ToolLifecycle::OperationallyVerified, ToolLifecycle::Active) => true,
        (ToolLifecycle::Active, ToolLifecycle::Deprecated) => true,
        (ToolLifecycle::Deprecated, ToolLifecycle::Retired) => true,
        _ => false,
    }
}

fn promotion_allowed(from: ToolLifecycle, to: ToolLifecycle) -> (b: bool)
    ensures
        b == promotion_step(from, to),
{
    match (from, to) {
        (ToolLifecycle::Proposed, ToolLifecycle::Designed) => true,
        (ToolLifecycle::Designed, ToolLifecycle::Contracted) => true,
        (ToolLifecycle::Contracted, ToolLifecycle::Implemented) => true,
        (ToolLifecycle::Implemented, ToolLifecycle::Tested) => true,
        (ToolLifecycle::Tested, ToolLifecycle::SecurityReviewed) => true,
        (ToolLifecycle::SecurityReviewed, ToolLifecycle::OperationallyVerified) => true,
        (ToolLifecycle::OperationallyVerified, ToolLifecycle::Active) => true,
        (ToolLifecycle::Active, ToolLifecycle::Deprecated) => true,
        (ToolLifecycle::Deprecated, ToolLifecycle::Retired) => true,
        _ => false,
    }
}

/// Promotion only moves forward: a retired tool is never promoted again.
pub proof fn lemma_retired_is_final(to: ToolLifecycle)
    ensures
        !promotion_step(ToolLifecycle::Retired, to),
{
}

/// The version as a plain triple.
pub open spec fn triple(v: ToolVersion) -> (u64, u64, u64) {
    (v.major, v.minor, v.patch)
}

pub open spec fn requirement_of(r: ToolVersionRequirement) -> DepRequirement {
    match r {
        ToolVersionRequirement::Exact(v) => DepRequirement::Exact(v.major, v.minor, v.patch),
        ToolVersionRequirement::CompatibleMajor(m) => DepRequirement::CompatibleMajor(m),
    }
}

/// The entry as a node of the dependency graph.
pub open spec fn entry_node(e: ToolRegistryEntry) -> DepView {
    DepView {
        id: e.tool_id@,
        version: triple(e.version),
        deps: e.dependencies@.map_values(|d: ToolDependency| (d.tool_id@, requirement_of(d.requirement), d.optional)),
    }
}

pub open spec fn entry_nodes(entries: Seq<ToolRegistryEntry>) -> Seq<DepView> {
    entries.map_values(|e: ToolRegistryEntry| entry_node(e))
}

fn node_of(e: &ToolRegistryEntry) -> (n: DepNode)
    ensures
        n@ == entry_node(*e),
{
    let mut deps: Vec<DepEdge> = Vec::new();
    let mut i: usize = 0;
    while i < e.dependencies.len()
        invariant
            i <= e.dependencies@.len(),
            deps@.map_values(|d: DepEdge| (d.id@, d.requirement, d.optional)) =~= e.dependencies@.take(i as int).map_values(
                |d: ToolDependency| (d.tool_id@, requirement_of(d.requirement), d.optional),
            ),
        decreases e.dependencies@.len() - i,
    {
        let d = &e.dependencies[i];
        let requirement = match d.requirement {
            ToolVersionRequirement::Exact(v) => DepRequirement::Exact(v.major, v.minor, v.patch),
            ToolVersionRequirement::CompatibleMajor(m) => DepRequirement::CompatibleMajor(m),
        };
        let ghost before = deps@;
        let edge = DepEdge { id: d.tool_id.clone(), requirement, optional: d.optional };
        assert(requirement == requirement_of(d.requirement));
        deps.push(edge);
        proof {
            assert(deps@ == before.push(edge));
            assert(deps@.map_values(|x: DepEdge| (x.id@, x.requirement, x.optional)) =~= before.map_values(
                |x: DepEdge| (x.id@, x.requirement, x.optional),
            ).push((edge.id@, edge.requirement, edge.optional)));
            assert(e.dependencies@.take(i + 1) =~= e.dependencies@.take(i as int).push(e.dependencies@[i as int]));
            assert(e.dependencies@.take(i + 1).map_values(
                |x: ToolDependency| (x.tool_id@, requirement_of(x.requirement), x.optional),
            ) =~= e.dependencies@.take(i as int).map_values(
                |x: ToolDependency| (x.tool_id@, requirement_of(x.requirement), x.optional),
            ).push((d.tool_id@, requirement_of(d.requirement), d.optional)));
        }
        i = i + 1;
    }
    proof {
        assert(e.dependencies@.take(e.dependencies@.len() as int) =~= e.dependencies@);
    }
    DepNode { id: e.tool_id.clone(), version: (e.version.major, e.version.minor, e.version.patch), deps }
}

/// The first problem among the implementations from the `i`-th on.
pub open spec fn implementations_fault(impls: Seq<ToolImplementation>, i: int) -> Option<ToolRegistryError>
    decreases impls.len() - i,
{
    if i < 0 || i >= impls.len() {
        None
    } else if is_blank(impls[i].implementation_id@) || is_blank(impls[i].provider_id@) {
        Some(ToolRegistryError::InvalidMetadata)
    } else if exists|j: int| 0 <= j < i && (#[trigger] impls[j]).implementation_id@ == impls[i].implementation_id@ {
        Some(ToolRegistryError::DuplicateImplementation)
    } else {
        implementations_fault(impls, i + 1)
    }
}

/// A present reference with a blank id.
pub open spec fn blank_ref(r: Option<ResourceRef>) -> bool {
    r matches Some(x) && is_blank(x.id@)
}

/// The entry depends on exactly itself.
pub open spec fn depends_on_itself(e: ToolRegistryEntry) -> bool {
    exists|d: int|
        0 <= d < e.dependencies@.len() && (#[trigger] e.dependencies@[d]).tool_id@ == e.tool_id@
            && e.dependencies@[d].requirement == ToolVersionRequirement::Exact(e.version)
}

/// What validating an entry answers.
pub open spec fn entry_validity(e: ToolRegistryEntry) -> Result<(), ToolRegistryError> {
    if is_blank(e.tool_id@) {
        Err(ToolRegistryError::EmptyId)
    } else if is_blank(e.name@) {
        Err(ToolRegistryError::EmptyName)
    } else if is_blank(e.purpose@) {
        Err(ToolRegistryError::EmptyPurpose)
    } else if is_blank(e.capability_ref.id@) {
        Err(ToolRegistryError::InvalidCapabilityReference)
    } else if blank_ref(e.function_ref) {
        Err(ToolRegistryError::InvalidFunctionReference)
    } else if e.version.major == 0 && e.version.minor == 0 && e.version.patch == 0 {
        Err(ToolRegistryError::InvalidVersion)
    } else if e.risk_class == ToolRiskClass::HighImpact && !e.approval_required {
        Err(ToolRegistryError::HighImpactApprovalRequired)
    } else if blank_ref(e.input_schema_ref) || blank_ref(e.output_schema_ref) {
        Err(ToolRegistryError::InvalidSchemaReference)
    } else if implementations_fault(e.implementations@, 0) is Some {
        Err(implementations_fault(e.implementations@, 0)->0)
    } else if depends_on_itself(e) {
        Err(ToolRegistryError::DependencyCycle)
    } else {
        Ok(())
    }
}

/// What checking a change record for `e` of kind `kind` answers.
pub open spec fn audit_validity(audit: ToolRegistryAuditRecord, e: ToolRegistryEntry, kind: Seq<char>) -> Result<
    (),
    ToolRegistryError,
> {
    if is_blank(audit.change_id@) || is_blank(audit.actor_ref@) || is_blank(audit.authorization_ref@)
        || is_blank(audit.change_type@) || is_blank(audit.timestamp@) {
        Err(ToolRegistryError::AuditContextRequired)
    } else if audit.tool_id@ != e.tool_id@ || audit.version != e.version || audit.change_type@ != kind {
        Err(ToolRegistryError::ConflictingMetadata)
    } else {
        Ok(())
    }
}

fn blank_reference(r: &Option<ResourceRef>) -> (b: bool)
    ensures
        b == blank_ref(*r),
{
    match r {
        Some(x) => str_is_blank(x.id.as_str()),
        None => false,
    }
}

fn implementations_problem(impls: &Vec<ToolImplementation>) -> (r: Option<ToolRegistryError>)
    ensures
        r == implementations_fault(impls@, 0),
{
    let n = impls.len();
    let mut i: usize = 0;
    while i < n
        invariant
            n == impls@.len(),
            i <= n,
            implementations_fault(impls@, 0) == implementations_fault(impls@, i as int),
        decreases n - i,
    {
        let imp = &impls[i];
        if str_is_blank(imp.implementation_id.as_str()) || str_is_blank(imp.provider_id.as_str()) {
            return Some(ToolRegistryError::InvalidMetadata);
        }
        if repeats_earlier_implementation(impls, i) {
            return Some(ToolRegistryError::DuplicateImplementation);
        }
        i = i + 1;
    }
    None
}

fn repeats_earlier_implementation(impls: &Vec<ToolImplementation>, i: usize) -> (b: bool)
    requires
        i < impls@.len(),
    ensures
        b == exists|j: int| 0 <= j < i && (#[trigger] impls@[j]).implementation_id@ == impls@[i as int].implementation_id@,
{
    let mut j: usize = 0;
    while j < i
        invariant
            j <= i < impls@.len(),
            forall|u: int| 0 <= u < j ==> (#[trigger] impls@[u]).implementation_id@ != impls@[i as int].implementation_id@,
        decreases i - j,
    {
        if str_eq(impls[j].implementation_id.as_str(), impls[i].implementation_id.as_str()) {
            return true;
        }
        j = j + 1;
    }
    false
}

fn has_self_dependency(entry: &ToolRegistryEntry) -> (b: bool)
    ensures
        b == depends_on_itself(*entry),
{
    let m = entry.dependencies.len();
    let mut d: usize = 0;
    while d < m
        invariant
            m == entry.dependencies@.len(),
            d <= m,
            forall|u: int|
                0 <= u < d ==> !((#[trigger] entry.dependencies@[u]).tool_id@ == entry.tool_id@
                    && entry.dependencies@[u].requirement == ToolVersionRequirement::Exact(entry.version)),
        decreases m - d,
    {
        let dep = &entry.dependencies[d];
        let exact_self = match dep.requirement {
            ToolVersionRequirement::Exact(v) => v == entry.version,
            ToolVersionRequirement::CompatibleMajor(_) => false,
        };
        if str_eq(dep.tool_id.as_str(), entry.tool_id.as_str()) && exact_self {
            return true;
        }
        d = d + 1;
    }
    false
}

pub struct InMemoryToolRegistry {
    entries: Vec<ToolRegistryEntry>,
    audit: Vec<ToolRegistryAuditRecord>,
}

/// No two entries share a tool id and version.
pub open spec fn identities_distinct(entries: Seq<ToolRegistryEntry>) -> bool {
    forall|i: int, j: int|
        0 <= i < j < entries.len() ==> !((#[trigger] entries[i]).tool_id@ == (#[trigger] entries[j]).tool_id@
            && entries[i].version == entries[j].version)
}

/// Some entry has this tool id and version.
pub open spec fn has_identity(entries: Seq<ToolRegistryEntry>, id: Seq<char>, version: ToolVersion) -> bool {
    exists|i: int| 0 <= i < entries.len() && (#[trigger] entries[i]).tool_id@ == id && entries[i].version == version
}

impl InMemoryToolRegistry {
    pub closed spec fn wf(&self) -> bool {
        identities_distinct(self.entries@) && acyclic(entry_nodes(self.entries@))
    }

    /// The registered entries, in registration order.
    pub closed spec fn entry_seq(&self) -> Seq<ToolRegistryEntry> {
        self.entries@
    }

    /// The change records, in order.
    pub closed spec fn audit_seq(&self) -> Seq<ToolRegistryAuditRecord> {
        self.audit@
    }

    pub fn new() -> (r: Self)
        ensures
            r.wf(),
            r.entry_seq() == Seq::<ToolRegistryEntry>::empty(),
            r.audit_seq() == Seq::<ToolRegistryAuditRecord>::empty(),
    {
        let r = InMemoryToolRegistry { entries: Vec::new(), audit: Vec::new() };
        assert(entry_nodes(r.entries@) =~= Seq::<DepView>::empty());
        r
    }

    /// Checks an entry's own metadata.
    pub fn validate(&self, entry: &ToolRegistryEntry) -> (r: Result<(), ToolRegistryError>)
        ensures
            r == entry_validity(*entry),
    {
        if str_is_blank(entry.tool_id.as_str()) {
            return Err(ToolRegistryError::EmptyId);
        }
        if str_is_blank(entry.name.as_str()) {
            return Err(ToolRegistryError::EmptyName);
        }
        if str_is_blank(entry.purpose.as_str()) {
            return Err(ToolRegistryError::EmptyPurpose);
        }
        if str_is_blank(entry.capability_ref.id.as_str()) {
            return Err(ToolRegistryError::InvalidCapabilityReference);
        }
        if blank_reference(&entry.function_ref) {
            return Err(ToolRegistryError::InvalidFunctionReference);
        }
        if entry.version.major == 0 && entry.version.minor == 0 && entry.version.patch == 0 {
            return Err(ToolRegistryError::InvalidVersion);
        }
        if entry.risk_class == ToolRiskClass::HighImpact && !entry.approval_required {
            return Err(ToolRegistryError::HighImpactApprovalRequired);
        }
        if blank_reference(&entry.input_schema_ref) || blank_reference(&entry.output_schema_ref) {
            return Err(ToolRegistryError::InvalidSchemaReference);
        }
        match implementations_problem(&entry.implementations) {
            Some(e) => return Err(e),
            None => {},
        }
        if has_self_dependency(entry) {
            return Err(ToolRegistryError::DependencyCycle);
        }
        Ok(())
    }

    fn validate_audit(&self, audit: &ToolRegistryAuditRecord, entry: &ToolRegistryEntry, kind: &str) -> (r: Result<
        (),
        ToolRegistryError,
    >)
        ensures
            r == audit_validity(*audit, *entry, kind@),
    {
        if str_is_blank(audit.change_id.as_str()) || str_is_blank(audit.actor_ref.as_str()) || str_is_blank(
            audit.authorization_ref.as_str(),
        ) || str_is_blank(audit.change_type.as_str()) || str_is_blank(audit.timestamp.as_str()) {
            return Err(ToolRegistryError::AuditContextRequired);
        }
        if !str_eq(audit.tool_id.as_str(), entry.tool_id.as_str()) || audit.version != entry.version || !str_eq(
            audit.change_type.as_str(),
            kind,
        ) {
            return Err(ToolRegistryError::ConflictingMetadata);
        }
        Ok(())
    }

    /// Position of the entry with this identity.
    fn find(&self, tool_id: &str, version: ToolVersion) -> (r: Option<usize>)
        requires
            self.wf(),
        ensures
            match r {
                Some(i) => i < self.entries@.len() && self.entries@[i as int].tool_id@ == tool_id@
                    && self.entries@[i as int].version == version,
                None => !has_identity(self.entries@, tool_id@, version),
            },
    {
        let mut i: usize = 0;
        while i < self.entries.len()
            invariant
                i <= self.entries@.len(),
                forall|u: int|
                    0 <= u < i ==> !((#[trigger] self.entries@[u]).tool_id@ == tool_id@ && self.entries@[u].version
                        == version),
            decreases self.entries@.len() - i,
        {
            if str_eq(self.entries[i].tool_id.as_str(), tool_id) && self.entries[i].version == version {
                return Some(i);
            }
            i = i + 1;
        }
        None
    }

    /// Some registered version of `id` satisfies `requirement`.
    pub open spec fn satisfiable(&self, id: Seq<char>, requirement: ToolVersionRequirement) -> bool {
        exists|i: int|
            0 <= i < self.entry_seq().len() && (#[trigger] self.entry_seq()[i]).tool_id@ == id && satisfies(
                self.entry_seq()[i].version,
                requirement,
            )
    }

    /// Every required dependency of `entry` is registered.
    pub open spec fn dependencies_met(&self, entry: ToolRegistryEntry) -> bool {
        forall|d: int|
            0 <= d < entry.dependencies@.len() && !(#[trigger] entry.dependencies@[d]).optional ==> self.satisfiable(
                entry.dependencies@[d].tool_id@,
                entry.dependencies@[d].requirement,
            )
    }

    fn validate_dependencies(&self, entry: &ToolRegistryEntry) -> (r: Result<(), ToolRegistryError>)
        requires
            self.wf(),
        ensures
            r is Ok <==> self.dependencies_met(*entry),
            r is Err ==> r == Err::<(), ToolRegistryError>(ToolRegistryError::MissingRequiredDependency),
    {
        let m = entry.dependencies.len();
        let mut d: usize = 0;
        while d < m
            invariant
                self.wf(),
                m == entry.dependencies@.len(),
                d <= m,
                forall|u: int|
                    0 <= u < d && !(#[trigger] entry.dependencies@[u]).optional ==> self.satisfiable(
                        entry.dependencies@[u].tool_id@,
                        entry.dependencies@[u].requirement,
                    ),
            decreases m - d,
        {
            let dep = &entry.dependencies[d];
            if !dep.optional {
                let mut found = false;
                let mut i: usize = 0;
                while i < self.entries.len() && !found
                    invariant
                        i <= self.entries@.len(),
                        found ==> self.satisfiable(dep.tool_id@, dep.requirement),
                        !found ==> forall|u: int|
                            0 <= u < i ==> !((#[trigger] self.entries@[u]).tool_id@ == dep.tool_id@ && satisfies(
                                self.entries@[u].version,
                                dep.requirement,
                            )),
                    decreases self.entries@.len() - i,
                {
                    if str_eq(self.entries[i].tool_id.as_str(), dep.tool_id.as_str()) && version_matches(
                        self.entries[i].version,
                        &dep.requirement,
                    ) {
                        found = true;
                    }
                    i = i + 1;
                }
                if !found {
                    return Err(ToolRegistryError::MissingRequiredDependency);
                }
            }
            d = d + 1;
        }
        Ok(())
    }

    /// Whether adding `candidate` closes a dependency cycle.
    fn dependency_cycle(&self, candidate: &ToolRegistryEntry) -> (b: bool)
        requires
            self.wf(),
        ensures
            b == reaches_cycle(entry_nodes(self.entries@.push(*candidate)), self.entries@.len() as int),
    {
        let mut nodes: Vec<DepNode> = Vec::new();
        let mut i: usize = 0;
        while i < self.entries.len()
            invariant
                i <= self.entries@.len(),
                views(nodes@) =~= entry_nodes(self.entries@.take(i as int)),
            decreases self.entries@.len() - i,
        {
            let node = node_of(&self.entries[i]);
            let ghost before = nodes@;
            let ghost nv = node@;
            nodes.push(node);
            proof {
                assert(nodes@ == before.push(node));
                assert(views(nodes@) =~= views(before).push(nv));
                assert(self.entries@.take(i + 1) =~= self.entries@.take(i as int).push(self.entries@[i as int]));
                assert(entry_nodes(self.entries@.take(i + 1)) =~= entry_nodes(self.entries@.take(i as int)).push(
                    entry_node(self.entries@[i as int]),
                ));
            }
            i = i + 1;
        }
        let start = nodes.len();
        let last = node_of(candidate);
        let ghost before = nodes@;
        let ghost lv = last@;
        nodes.push(last);
        proof {
            assert(nodes@ == before.push(last));
            assert(views(nodes@) =~= views(before).push(lv));
            assert(self.entries@.take(self.entries@.len() as int) =~= self.entries@);
            assert(views(nodes@) =~= entry_nodes(self.entries@.push(*candidate)));
            assert(entry_nodes(self.entries@.push(*candidate)) =~= entry_nodes(self.entries@).push(
                entry_node(*candidate),
            ));
            lemma_reachable_cycle_is_self_reach(entry_nodes(self.entries@), entry_node(*candidate));
        }
        reaches_itself(&nodes, start)
    }

    /// What registering `entry` with change record `audit` answers.
    pub open spec fn registration(&self, entry: ToolRegistryEntry, audit: ToolRegistryAuditRecord) -> Result<
        (),
        ToolRegistryError,
    > {
        if entry_validity(entry) is Err {
            entry_validity(entry)
        } else if audit_validity(audit, entry, "register"@) is Err {
            audit_validity(audit, entry, "register"@)
        } else if has_identity(self.entry_seq(), entry.tool_id@, entry.version) {
            Err(ToolRegistryError::DuplicateIdentity)
        } else if !self.dependencies_met(entry) {
            Err(ToolRegistryError::MissingRequiredDependency)
        } else if reaches_cycle(entry_nodes(self.entry_seq().push(entry)), self.entry_seq().len() as int) {
            Err(ToolRegistryError::DependencyCycle)
        } else {
            Ok(())
        }
    }

    /// Registers a valid entry under a fresh identity whose required
    /// dependencies are registered and which closes no dependency cycle.
    pub fn register(&mut self, entry: ToolRegistryEntry, audit: ToolRegistryAuditRecord) -> (r: Result<
        (),
        ToolRegistryError,
    >)
        requires
            old(self).wf(),
        ensures
            final(self).wf(),
            r == old(self).registration(entry, audit),
            r is Ok ==> final(self).entry_seq() == old(self).entry_seq().push(entry) && final(self).audit_seq()
                == old(self).audit_seq().push(audit),
            r is Err ==> final(self).entry_seq() == old(self).entry_seq() && final(self).audit_seq()
                == old(self).audit_seq(),
    {
        proof {
            reveal_strlit("register");
        }
        match self.validate(&entry) {
            Ok(()) => {},
            Err(e) => return Err(e),
        }
        match self.validate_audit(&audit, &entry, "register") {
            Ok(()) => {},
            Err(e) => return Err(e),
        }
        if self.find(entry.tool_id.as_str(), entry.version).is_some() {
            return Err(ToolRegistryError::DuplicateIdentity);
        }
        match self.validate_dependencies(&entry) {
            Ok(()) => {},
            Err(e) => return Err(e),
        }
        if self.dependency_cycle(&entry) {
            return Err(ToolRegistryError::DependencyCycle);
        }
        proof {
            let g = entry_nodes(self.entries@);
            assert(entry_nodes(self.entries@.push(entry)) =~= g.push(entry_node(entry)));
            lemma_reachable_cycle_is_self_reach(g, entry_node(entry));
            lemma_acyclic_after_push(g, entry_node(entry));
        }
        self.entries.push(entry);
        self.audit.push(audit);
        Ok(())
    }

    /// The entry with this identity.
    pub fn get(&self, tool_id: &str, version: ToolVersion) -> (r: Result<&ToolRegistryEntry, ToolRegistryError>)
        requires
            self.wf(),
        ensures
            r is Err <==> !has_identity(self.entry_seq(), tool_id@, version),
            r is Err ==> r == Err::<&ToolRegistryEntry, ToolRegistryError>(ToolRegistryError::NotFound),
            r matches Ok(e) ==> self.entry_seq().contains(*e) && e.tool_id@ == tool_id@ && e.version == version,
    {
        match self.find(tool_id, version) {
            Some(i) => Ok(&self.entries[i]),
            None => Err(ToolRegistryError::NotFound),
        }
    }

    pub fn audit_records(&self) -> (r: &[ToolRegistryAuditRecord])
        ensures
            r@ == self.audit_seq(),
    {
        self.audit.as_slice()
    }
}

/// The criteria accept the entry: every given field matches.
pub open spec fn criteria_accept(c: ToolRegistryCriteria, e: ToolRegistryEntry) -> bool {
    &&& (c.tool_id matches Some(id) ==> e.tool_id@ == id@)
    &&& (c.version matches Some(v) ==> e.version == v)
    &&& (c.capability_ref matches Some(r) ==> e.capability_ref@ == r@)
    &&& (c.risk_class matches Some(v) ==> e.risk_class == v)
    &&& (c.data_class matches Some(v) ==> e.data_classes@.contains(v))
    &&& (c.jurisdiction matches Some(j) ==> crate::resource::texts_view(e.jurisdiction_scope@).contains(j@))
    &&& (c.execution_mode matches Some(m) ==> e.execution_modes@.contains(m))
    &&& (c.lifecycle matches Some(l) ==> e.lifecycle == l)
}

fn has_data_class(v: &Vec<ToolDataClass>, x: ToolDataClass) -> (b: bool)
    ensures
        b == v@.contains(x),
{
    let mut i: usize = 0;
    while i < v.len()
        invariant
            i <= v@.len(),
            forall|u: int| 0 <= u < i ==> v@[u] != x,
        decreases v@.len() - i,
    {
        if v[i] == x {
            assert(v@[i as int] == x);
            return true;
        }
        i = i + 1;
    }
    false
}

fn has_execution_mode(v: &Vec<ToolExecutionMode>, x: ToolExecutionMode) -> (b: bool)
    ensures
        b == v@.contains(x),
{
    let mut i: usize = 0;
    while i < v.len()
        invariant
            i <= v@.len(),
            forall|u: int| 0 <= u < i ==> v@[u] != x,
        decreases v@.len() - i,
    {
        if v[i] == x {
            assert(v@[i as int] == x);
            return true;
        }
        i = i + 1;
    }
    false
}

fn accepts_entry(c: &ToolRegistryCriteria, e: &ToolRegistryEntry) -> (b: bool)
    ensures
        b == criteria_accept(*c, *e),
{
    let id_ok = match &c.tool_id {
        Some(id) => str_eq(e.tool_id.as_str(), id.as_str()),
        None => true,
    };
    let version_ok = match c.version {
        Some(v) => e.version == v,
        None => true,
    };
    let capability_ok = match &c.capability_ref {
        Some(r) => e.capability_ref.same(r),
        None => true,
    };
    let risk_ok = match c.risk_class {
        Some(v) => e.risk_class == v,
        None => true,
    };
    let data_ok = match c.data_class {
        Some(v) => has_data_class(&e.data_classes, v),
        None => true,
    };
    let jurisdiction_ok = match &c.jurisdiction {
        Some(j) => crate::resource::texts_contain(&e.jurisdiction_scope, j.as_str()),
        None => true,
    };
    let mode_ok = match c.execution_mode {
        Some(m) => has_execution_mode(&e.execution_modes, m),
        None => true,
    };
    let lifecycle_ok = match c.lifecycle {
        Some(l) => e.lifecycle == l,
        None => true,
    };
    id_ok && version_ok && capability_ok && risk_ok && data_ok && jurisdiction_ok && mode_ok && lifecycle_ok
}

/// Discovery order: by tool id, then newest version first.
pub open spec fn listed_before(a: ToolRegistryEntry, b: ToolRegistryEntry) -> bool {
    seq_lt(a.tool_id@, b.tool_id@) || (a.tool_id@ == b.tool_id@ && version_lt(b.version, a.version))
}

fn listed_before_exec(a: &ToolRegistryEntry, b: &ToolRegistryEntry) -> (r: bool)
    ensures
        r == listed_before(*a, *b),
{
    str_lt(a.tool_id.as_str(), b.tool_id.as_str()) || (str_eq(a.tool_id.as_str(), b.tool_id.as_str())
        && version_less(b.version, a.version))
}

/// Discovery order is a strict total order on entries of distinct identity.
pub proof fn lemma_listing_order(a: ToolRegistryEntry, b: ToolRegistryEntry, c: ToolRegistryEntry)
    ensures
        !listed_before(a, a),
        !(a.tool_id@ == b.tool_id@ && a.version == b.version) ==> listed_before(a, b) || listed_before(b, a),
        listed_before(a, b) && listed_before(b, c) ==> listed_before(a, c),
{
    lemma_seq_lt_irreflexive(a.tool_id@);
    lemma_seq_lt_trichotomy(a.tool_id@, b.tool_id@);
    if seq_lt(a.tool_id@, b.tool_id@) && seq_lt(b.tool_id@, c.tool_id@) {
        lemma_seq_lt_transitive(a.tool_id@, b.tool_id@, c.tool_id@);
    }
}

impl InMemoryToolRegistry {
    /// The outcome of resolving `tool_id` under `requirement`.
    pub open spec fn resolution(&self, tool_id: Seq<char>, requirement: ToolVersionRequirement) -> Result<
        ToolRegistryEntry,
        ToolRegistryError,
    > {
        match requirement {
            ToolVersionRequirement::Exact(v) => if !has_identity(self.entry_seq(), tool_id, v) {
                Err(ToolRegistryError::UnsupportedVersion)
            } else {
                let e = choose|e: ToolRegistryEntry| #[trigger] self.entry_seq().contains(e) && e.tool_id@ == tool_id && e.version == v;
                if e.lifecycle == ToolLifecycle::Retired {
                    Err(ToolRegistryError::Retired)
                } else {
                    Ok(e)
                }
            },
            ToolVersionRequirement::CompatibleMajor(m) => if !(exists|i: int|
                0 <= i < self.entry_seq().len() && (#[trigger] self.entry_seq()[i]).tool_id@ == tool_id
                    && self.entry_seq()[i].version.major == m) {
                Err(ToolRegistryError::UnsupportedVersion)
            } else if !(exists|i: int|
                0 <= i < self.entry_seq().len() && (#[trigger] self.entry_seq()[i]).tool_id@ == tool_id
                    && self.entry_seq()[i].version.major == m && self.entry_seq()[i].lifecycle
                    != ToolLifecycle::Retired) {
                Err(ToolRegistryError::Retired)
            } else {
                Ok(
                    choose|e: ToolRegistryEntry|
                        #[trigger] self.entry_seq().contains(e) && e.tool_id@ == tool_id && e.version.major == m
                            && e.lifecycle != ToolLifecycle::Retired && forall|i: int|
                            0 <= i < self.entry_seq().len() && (#[trigger] self.entry_seq()[i]).tool_id@ == tool_id
                                && self.entry_seq()[i].version.major == m && self.entry_seq()[i].lifecycle
                                != ToolLifecycle::Retired ==> !version_lt(e.version, self.entry_seq()[i].version),
                )
            },
        }
    }

    /// Selects the registered entry for a requirement: the exact version, or
    /// the newest non-retired version of the major version.
    pub fn resolve(&self, tool_id: &str, requirement: &ToolVersionRequirement) -> (r: Result<
        &ToolRegistryEntry,
        ToolRegistryError,
    >)
        requires
            self.wf(),
        ensures
            match r {
                Ok(e) => self.resolution(tool_id@, *requirement) == Ok::<ToolRegistryEntry, ToolRegistryError>(*e),
                Err(x) => self.resolution(tool_id@, *requirement) == Err::<ToolRegistryEntry, ToolRegistryError>(x),
            },
            r matches Ok(e) ==> e.tool_id@ == tool_id@ && e.lifecycle != ToolLifecycle::Retired,
            r matches Ok(e) ==> match *requirement {
                ToolVersionRequirement::Exact(v) => e.version == v,
                ToolVersionRequirement::CompatibleMajor(m) => e.version.major == m && forall|u: int|
                    0 <= u < self.entry_seq().len() && (#[trigger] self.entry_seq()[u]).tool_id@ == tool_id@
                        && self.entry_seq()[u].version.major == m && self.entry_seq()[u].lifecycle != ToolLifecycle::Retired
                        ==> self.entry_seq()[u].version.minor < e.version.minor || (self.entry_seq()[u].version.minor
                        == e.version.minor && self.entry_seq()[u].version.patch <= e.version.patch),
            },
    {
        match requirement {
            ToolVersionRequirement::Exact(version) => {
                match self.find(tool_id, *version) {
                    None => Err(ToolRegistryError::UnsupportedVersion),
                    Some(i) => {
                        let entry = &self.entries[i];
                        proof {
                            assert(self.entries@.contains(*entry));
                            let e = choose|e: ToolRegistryEntry| #[trigger] self.entry_seq().contains(e) && e.tool_id@ == tool_id@ && e.version == *version;
                            let k = self.entries@.index_of(e);
                            if k != i {
                                if k < i {
                                    assert(!(self.entries@[k].tool_id@ == self.entries@[i as int].tool_id@ && self.entries@[k].version == self.entries@[i as int].version));
                                } else {
                                    assert(!(self.entries@[i as int].tool_id@ == self.entries@[k].tool_id@ && self.entries@[i as int].version == self.entries@[k].version));
                                }
                            }
                        }
                        if entry.lifecycle == ToolLifecycle::Retired {
                            Err(ToolRegistryError::Retired)
                        } else {
                            Ok(entry)
                        }
                    },
                }
            },
            ToolVersionRequirement::CompatibleMajor(major) => {
                let mut has_match = false;
                let mut best: Option<usize> = None;
                let mut i: usize = 0;
                while i < self.entries.len()
                    invariant
                        self.wf(),
                        i <= self.entries@.len(),
                        has_match <==> exists|u: int|
                            0 <= u < i && (#[trigger] self.entries@[u]).tool_id@ == tool_id@ && self.entries@[u].version.major == *major,
                        match best {
                            Some(b) => b < i && self.entries@[b as int].tool_id@ == tool_id@ && self.entries@[b as int].version.major == *major
                                && self.entries@[b as int].lifecycle != ToolLifecycle::Retired && forall|u: int|
                                0 <= u < i && (#[trigger] self.entries@[u]).tool_id@ == tool_id@ && self.entries@[u].version.major
                                    == *major && self.entries@[u].lifecycle != ToolLifecycle::Retired ==> !version_lt(
                                    self.entries@[b as int].version,
                                    self.entries@[u].version,
                                ),
                            None => forall|u: int|
                                0 <= u < i && (#[trigger] self.entries@[u]).tool_id@ == tool_id@ && self.entries@[u].version.major
                                    == *major ==> self.entries@[u].lifecycle == ToolLifecycle::Retired,
                        },
                    decreases self.entries@.len() - i,
                {
                    let e = &self.entries[i];
                    if str_eq(e.tool_id.as_str(), tool_id) && e.version.major == *major {
                        has_match = true;
                        if e.lifecycle != ToolLifecycle::Retired {
                            let replace = match best {
                                None => true,
                                Some(b) => version_less(self.entries[b].version, e.version),
                            };
                            if replace {
                                proof {
                                    if let Some(b) = best {
                                        assert forall|u: int|
                                            0 <= u < i + 1 && (#[trigger] self.entries@[u]).tool_id@ == tool_id@
                                                && self.entries@[u].version.major == *major && self.entries@[u].lifecycle
                                                != ToolLifecycle::Retired implies !version_lt(e.version, self.entries@[u].version) by {
                                            if u < i {
                                                assert(!version_lt(self.entries@[b as int].version, self.entries@[u].version));
                                            }
                                        }
                                    }
                                }
                                best = Some(i);
                            }
                        }
                    }
                    i = i + 1;
                }
                match best {
                    Some(b) => {
                        let entry = &self.entries[b];
                        proof {
                            assert(self.entries@.contains(*entry));
                            let e = choose|e: ToolRegistryEntry|
                                #[trigger] self.entry_seq().contains(e) && e.tool_id@ == tool_id@ && e.version.major == *major
                                    && e.lifecycle != ToolLifecycle::Retired && forall|u: int|
                                    0 <= u < self.entry_seq().len() && (#[trigger] self.entry_seq()[u]).tool_id@ == tool_id@
                                        && self.entry_seq()[u].version.major == *major && self.entry_seq()[u].lifecycle
                                        != ToolLifecycle::Retired ==> !version_lt(e.version, self.entry_seq()[u].version);
                            assert forall|u: int|
                                0 <= u < self.entry_seq().len() && (#[trigger] self.entry_seq()[u]).tool_id@ == tool_id@
                                    && self.entry_seq()[u].version.major == *major && self.entry_seq()[u].lifecycle
                                    != ToolLifecycle::Retired implies self.entry_seq()[u].version.minor < entry.version.minor || (
                                self.entry_seq()[u].version.minor == entry.version.minor
                                    && self.entry_seq()[u].version.patch <= entry.version.patch) by {
                                assert(!version_lt(entry.version, self.entries@[u].version));
                                lemma_newest_of_major(entry.version, self.entries@[u].version);
                            }
                            let k = self.entries@.index_of(e);
                            assert(!version_lt(e.version, entry.version));
                            assert(!version_lt(entry.version, self.entries@[k].version));
                            if k != b {
                                if k < b {
                                    assert(!(self.entries@[k].tool_id@ == self.entries@[b as int].tool_id@ && self.entries@[k].version == self.entries@[b as int].version));
                                } else {
                                    assert(!(self.entries@[b as int].tool_id@ == self.entries@[k].tool_id@ && self.entries@[b as int].version == self.entries@[k].version));
                                }
                            }
                        }
                        Ok(entry)
                    },
                    None => if has_match {
                        Err(ToolRegistryError::Retired)
                    } else {
                        Err(ToolRegistryError::UnsupportedVersion)
                    },
                }
            },
        }
    }
}

/// Inserts `candidate` into a listing kept in discovery order; returns its
/// position.
fn insert_in_listing<'a>(r: &mut Vec<&'a ToolRegistryEntry>, candidate: &'a ToolRegistryEntry) -> (j: usize)
    requires
        forall|a: int, b: int| 0 <= a < b < old(r)@.len() ==> listed_before(*#[trigger] old(r)@[a], *#[trigger] old(r)@[b]),
        forall|a: int| 0 <= a < old(r)@.len() ==> !((#[trigger] old(r)@[a]).tool_id@ == candidate.tool_id@
            && old(r)@[a].version == candidate.version),
    ensures
        j <= old(r)@.len(),
        final(r)@ == old(r)@.insert(j as int, candidate),
        forall|a: int, b: int| 0 <= a < b < final(r)@.len() ==> listed_before(*#[trigger] final(r)@[a], *#[trigger] final(r)@[b]),
{
    let mut j: usize = 0;
    while j < r.len() && !listed_before_exec(candidate, r[j])
        invariant
            j <= r@.len(),
            forall|a: int| 0 <= a < j ==> !listed_before(*candidate, *#[trigger] r@[a]),
        decreases r@.len() - j,
    {
        j = j + 1;
    }
    let ghost before = r@;
    proof {
        assert forall|a: int| 0 <= a < j implies listed_before(*#[trigger] before[a], *candidate) by {
            lemma_listing_order(*candidate, *before[a], *candidate);
        }
        assert forall|a: int| j <= a < before.len() implies listed_before(*candidate, *#[trigger] before[a]) by {
            if a > j {
                lemma_listing_order(*candidate, *before[j as int], *before[a]);
            }
        }
    }
    r.insert(j, candidate);
    proof {
        assert forall|a: int, b: int| 0 <= a < b < r@.len() implies listed_before(*#[trigger] r@[a], *#[trigger] r@[b]) by {
            if b < j {
                assert(r@[a] == before[a] && r@[b] == before[b]);
            } else if b == j {
                assert(r@[a] == before[a]);
            } else if a < j {
                assert(r@[a] == before[a] && r@[b] == before[b - 1]);
                lemma_listing_order(*before[a], *candidate, *before[b - 1]);
            } else if a == j {
                assert(r@[b] == before[b - 1]);
            } else {
                assert(r@[a] == before[a - 1] && r@[b] == before[b - 1]);
            }
        }
    }
    j
}

impl InMemoryToolRegistry {
    /// The entries the criteria accept, by tool id and newest version first.
    #[verifier::rlimit(60)]
    pub fn discover(&self, criteria: &ToolRegistryCriteria) -> (r: Vec<&ToolRegistryEntry>)
        requires
            self.wf(),
        ensures
            forall|i: int, j: int| 0 <= i < j < r@.len() ==> listed_before(*#[trigger] r@[i], *#[trigger] r@[j]),
            forall|i: int, j: int|
                0 <= i < j < r@.len() && (#[trigger] r@[i]).tool_id@ == (#[trigger] r@[j]).tool_id@ ==> r@[j].version.major
                    < r@[i].version.major || (r@[j].version.major == r@[i].version.major && r@[j].version.minor
                    < r@[i].version.minor) || (r@[j].version.major == r@[i].version.major && r@[j].version.minor
                    == r@[i].version.minor && r@[j].version.patch < r@[i].version.patch),
            forall|i: int| 0 <= i < r@.len() ==> self.entry_seq().contains(*#[trigger] r@[i]) && criteria_accept(*criteria, *r@[i]),
            forall|k: int|
                0 <= k < self.entry_seq().len() && criteria_accept(*criteria, #[trigger] self.entry_seq()[k])
                    ==> exists|i: int| 0 <= i < r@.len() && *r@[i] == self.entry_seq()[k],
    {
        let n = self.entries.len();
        let mut r: Vec<&ToolRegistryEntry> = Vec::new();
        let mut i: usize = 0;
        while i < n
            invariant
                identities_distinct(self.entries@),
                n == self.entries@.len(),
                i <= n,
                forall|a: int, b: int| 0 <= a < b < r@.len() ==> listed_before(*#[trigger] r@[a], *#[trigger] r@[b]),
                forall|a: int| 0 <= a < r@.len() ==> exists|t: int| 0 <= t < i && self.entries@[t] == *#[trigger] r@[a],
                forall|a: int| 0 <= a < r@.len() ==> criteria_accept(*criteria, *#[trigger] r@[a]),
                forall|t: int|
                    0 <= t < i && criteria_accept(*criteria, #[trigger] self.entries@[t]) ==> exists|a: int|
                        0 <= a < r@.len() && *r@[a] == self.entries@[t],
            decreases n - i,
        {
            let candidate = &self.entries[i];
            if accepts_entry(criteria, candidate) {
                let ghost before = r@;
                proof {
                    assert forall|a: int| 0 <= a < before.len() implies !((#[trigger] before[a]).tool_id@
                        == candidate.tool_id@ && before[a].version == candidate.version) by {
                        let t = choose|t: int| 0 <= t < i && self.entries@[t] == *before[a];
                        assert(!(self.entries@[t].tool_id@ == self.entries@[i as int].tool_id@ && self.entries@[t].version == self.entries@[i as int].version));
                    }
                }
                let j = insert_in_listing(&mut r, candidate);
                proof {
                    assert forall|a: int| 0 <= a < r@.len() implies exists|t: int|
                        0 <= t < i + 1 && self.entries@[t] == *#[trigger] r@[a] by {
                        if a < j {
                            assert(r@[a] == before[a]);
                        } else if a > j {
                            assert(r@[a] == before[a - 1]);
                        } else {
                            assert(self.entries@[i as int] == *r@[a]);
                        }
                    }
                    assert forall|a: int| 0 <= a < r@.len() implies criteria_accept(*criteria, *#[trigger] r@[a]) by {
                        if a < j {
                            assert(r@[a] == before[a]);
                        } else if a > j {
                            assert(r@[a] == before[a - 1]);
                        }
                    }
                    assert forall|t: int|
                        0 <= t < i + 1 && criteria_accept(*criteria, #[trigger] self.entries@[t]) implies exists|a: int|
                        0 <= a < r@.len() && *r@[a] == self.entries@[t] by {
                        if t < i {
                            let a = choose|a: int| 0 <= a < before.len() && *before[a] == self.entries@[t];
                            if a < j {
                                assert(r@[a] == before[a]);
                            } else {
                                assert(r@[a + 1] == before[a]);
                            }
                        } else {
                            assert(*r@[j as int] == self.entries@[t]);
                        }
                    }
                }
            }
            i = i + 1;
        }
        proof {
            assert forall|a: int| 0 <= a < r@.len() implies self.entry_seq().contains(*#[trigger] r@[a]) by {
                let t = choose|t: int| 0 <= t < n && self.entries@[t] == *r@[a];
            }
            assert forall|a: int, b: int|
                0 <= a < b < r@.len() && (#[trigger] r@[a]).tool_id@ == (#[trigger] r@[b]).tool_id@ implies r@[b].version.major
                    < r@[a].version.major || (r@[b].version.major == r@[a].version.major && r@[b].version.minor
                    < r@[a].version.minor) || (r@[b].version.major == r@[a].version.major && r@[b].version.minor
                    == r@[a].version.minor && r@[b].version.patch < r@[a].version.patch) by {
                assert(listed_before(*r@[a], *r@[b]));
                lemma_seq_lt_irreflexive(r@[a].tool_id@);
                lemma_version_order(r@[b].version, r@[a].version);
            }
        }
        r
    }

    /// What promoting the entry with this identity to `lifecycle` answers.
    pub open spec fn promotion(
        &self,
        tool_id: Seq<char>,
        version: ToolVersion,
        lifecycle: ToolLifecycle,
        audit: ToolRegistryAuditRecord,
    ) -> Result<(), ToolRegistryError> {
        if !has_identity(self.entry_seq(), tool_id, version) {
            Err(ToolRegistryError::NotFound)
        } else {
            let e = choose|e: ToolRegistryEntry| #[trigger] self.entry_seq().contains(e) && e.tool_id@ == tool_id && e.version == version;
            if audit.tool_id@ != tool_id || audit.version != version {
                Err(ToolRegistryError::ConflictingMetadata)
            } else if is_blank(audit.change_id@) || is_blank(audit.actor_ref@) || is_blank(audit.authorization_ref@)
                || is_blank(audit.change_type@) || is_blank(audit.timestamp@) {
                Err(ToolRegistryError::AuditContextRequired)
            } else if audit.change_type@ != "promote"@ {
                Err(ToolRegistryError::ConflictingMetadata)
            } else if !promotion_step(e.lifecycle, lifecycle) {
                Err(ToolRegistryError::InvalidLifecyclePromotion)
            } else if lifecycle == ToolLifecycle::Active && e.implementations@.len() == 0 {
                Err(ToolRegistryError::InvalidLifecyclePromotion)
            } else {
                Ok(())
            }
        }
    }

    /// Moves a registered entry one step along the lifecycle, recording the
    /// change with its previous and new lifecycle.
    pub fn promote(&mut self, tool_id: &str, version: ToolVersion, lifecycle: ToolLifecycle, audit: ToolRegistryAuditRecord) -> (r:
        Result<(), ToolRegistryError>)
        requires
            old(self).wf(),
        ensures
            final(self).wf(),
            r == old(self).promotion(tool_id@, version, lifecycle, audit),
            r is Err ==> final(self).entry_seq() == old(self).entry_seq() && final(self).audit_seq()
                == old(self).audit_seq(),
            r is Ok ==> final(self).entry_seq().len() == old(self).entry_seq().len() && forall|i: int|
                0 <= i < old(self).entry_seq().len() ==> #[trigger] final(self).entry_seq()[i] == if old(self).entry_seq()[i].tool_id@
                    == tool_id@ && old(self).entry_seq()[i].version == version {
                    ToolRegistryEntry { lifecycle, ..old(self).entry_seq()[i] }
                } else {
                    old(self).entry_seq()[i]
                },
            r is Ok ==> exists|i: int|
                0 <= i < old(self).entry_seq().len() && (#[trigger] old(self).entry_seq()[i]).tool_id@ == tool_id@
                    && old(self).entry_seq()[i].version == version && final(self).audit_seq() == old(self).audit_seq().push(
                    ToolRegistryAuditRecord {
                        previous_lifecycle: Some(old(self).entry_seq()[i].lifecycle),
                        new_lifecycle: Some(lifecycle),
                        ..audit
                    },
                ),
    {
        proof {
            reveal_strlit("promote");
        }
        let i = match self.find(tool_id, version) {
            None => return Err(ToolRegistryError::NotFound),
            Some(i) => i,
        };
        proof {
            let e = choose|e: ToolRegistryEntry| #[trigger] self.entry_seq().contains(e) && e.tool_id@ == tool_id@ && e.version == version;
            assert(self.entries@.contains(self.entries@[i as int]));
            let k = self.entries@.index_of(e);
            if k != i {
                if k < i {
                    assert(!(self.entries@[k].tool_id@ == self.entries@[i as int].tool_id@ && self.entries@[k].version == self.entries@[i as int].version));
                } else {
                    assert(!(self.entries@[i as int].tool_id@ == self.entries@[k].tool_id@ && self.entries@[i as int].version == self.entries@[k].version));
                }
            }
        }
        if !str_eq(audit.tool_id.as_str(), self.entries[i].tool_id.as_str()) || audit.version != self.entries[i].version {
            return Err(ToolRegistryError::ConflictingMetadata);
        }
        if str_is_blank(audit.change_id.as_str()) || str_is_blank(audit.actor_ref.as_str()) || str_is_blank(
            audit.authorization_ref.as_str(),
        ) || str_is_blank(audit.change_type.as_str()) || str_is_blank(audit.timestamp.as_str()) {
            return Err(ToolRegistryError::AuditContextRequired);
        }
        if !str_eq(audit.change_type.as_str(), "promote") {
            return Err(ToolRegistryError::ConflictingMetadata);
        }
        let current = self.entries[i].lifecycle;
        if !promotion_allowed(current, lifecycle) {
            return Err(ToolRegistryError::InvalidLifecyclePromotion);
        }
        if lifecycle == ToolLifecycle::Active && self.entries[i].implementations.len() == 0 {
            return Err(ToolRegistryError::InvalidLifecyclePromotion);
        }
        let mut audit = audit;
        audit.previous_lifecycle = Some(current);
        audit.new_lifecycle = Some(lifecycle);
        let ghost old_entries = self.entries@;
        let mut entry = self.entries.remove(i);
        entry.lifecycle = lifecycle;
        self.entries.insert(i, entry);
        proof {
            assert forall|k: int| 0 <= k < old_entries.len() implies #[trigger] self.entries@[k] == if old_entries[k].tool_id@
                == tool_id@ && old_entries[k].version == version {
                ToolRegistryEntry { lifecycle, ..old_entries[k] }
            } else {
                old_entries[k]
            } by {
                if k != i {
                    if k < i {
                        assert(!(old_entries[k].tool_id@ == old_entries[i as int].tool_id@ && old_entries[k].version == old_entries[i as int].version));
                    } else {
                        assert(!(old_entries[i as int].tool_id@ == old_entries[k].tool_id@ && old_entries[i as int].version == old_entries[k].version));
                    }
                }
            }
            assert(entry_nodes(self.entries@) =~= entry_nodes(old_entries));
            assert forall|a: int, b: int| 0 <= a < b < self.entries@.len() implies !((#[trigger] self.entries@[a]).tool_id@
                == (#[trigger] self.entries@[b]).tool_id@ && self.entries@[a].version == self.entries@[b].version) by {
                assert(self.entries@[a].tool_id@ == old_entries[a].tool_id@ && self.entries@[a].version == old_entries[a].version);
                assert(self.entries@[b].tool_id@ == old_entries[b].tool_id@ && self.entries@[b].version == old_entries[b].version);
            }
        }
        self.audit.push(audit);
        Ok(())
    }
}

impl Default for InMemoryToolRegistry {
    fn default() -> (r: Self)
        ensures
            r.wf(),
            r.entry_seq() == Seq::<ToolRegistryEntry>::empty(),
            r.audit_seq() == Seq::<ToolRegistryAuditRecord>::empty(),
    {
        InMemoryToolRegistry::new()
    }
}

} // verus!
