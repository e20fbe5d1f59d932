//! The decisions of the PostgreSQL persistence adapter: how stored rows
//! are read back, which statement a write becomes, and how database errors
//! are reported. The adapter that talks to the database performs them.
use vstd::prelude::*;
use crate::json::type_wire;
use crate::persistence::{PersistenceError, ResourceLinkClass, ResourceWriteMode, Revision, UnitOfWorkError};
use crate::resource::{ResourceRef, ResourceType};
use crate::text::{str_eq, text_of};

verus! {

/// Connection settings of the adapter.
#[derive(Debug)]
pub struct PostgresUnitOfWorkFactory {
    connection_string: String,
}

impl PostgresUnitOfWorkFactory {
    pub closed spec fn connection(&self) -> Seq<char> {
        self.connection_string@
    }

    pub fn new(connection_string: &str) -> (r: Self)
        ensures
            r.connection() == connection_string@,
    {
        PostgresUnitOfWorkFactory { connection_string: text_of(connection_string) }
    }

    pub fn connection_string(&self) -> (r: &str)
        ensures
            r@ == self.connection(),
    {
        self.connection_string.as_str()
    }
}

/// The persistence error that a SQLSTATE code reports: unique violations
/// are duplicates, foreign-key and check violations integrity failures,
/// serialization failures and deadlocks conflicts, cancellations timeouts;
/// anything else, or no code, an unavailable store.
pub open spec fn sqlstate_error(code: Option<Seq<char>>) -> PersistenceError {
    match code {
        Some(c) => if c == "23505"@ {
            PersistenceError::Duplicate
        } else if c == "23503"@ || c == "23514"@ {
            PersistenceError::IntegrityFailure
        } else if c == "40001"@ || c == "40P01"@ {
            PersistenceError::Conflict
        } else if c == "57014"@ {
            PersistenceError::Timeout
        } else {
            PersistenceError::Unavailable
        },
        None => PersistenceError::Unavailable,
    }
}

pub fn map_sqlstate(code: Option<&str>) -> (r: PersistenceError)
    ensures
        r == sqlstate_error(
            match code {
                Some(c) => Some(c@),
                None => None,
            },
        ),
{
    match code {
        Some(c) => if str_eq(c, "23505") {
            PersistenceError::Duplicate
        } else if str_eq(c, "23503") || str_eq(c, "23514") {
            PersistenceError::IntegrityFailure
        } else if str_eq(c, "40001") || str_eq(c, "40P01") {
            PersistenceError::Conflict
        } else if str_eq(c, "57014") {
            PersistenceError::Timeout
        } else {
            PersistenceError::Unavailable
        },
        None => PersistenceError::Unavailable,
    }
}

/// The resource type stored under `name`.
pub open spec fn type_of_name(name: Seq<char>) -> Option<ResourceType> {
    if name == "case"@ {
        Some(ResourceType::Case)
    } else if name == "incident"@ {
        Some(ResourceType::Incident)
    } else if name == "event"@ {
        Some(ResourceType::Event)
    } else if name == "observation"@ {
        Some(ResourceType::Observation)
    } else if name == "evidence"@ {
        Some(ResourceType::Evidence)
    } else if name == "authority"@ {
        Some(ResourceType::Authority)
    } else if name == "jurisdiction"@ {
        Some(ResourceType::Jurisdiction)
    } else if name == "party"@ {
        Some(ResourceType::Party)
    } else if name == "party_relationship"@ {
        Some(ResourceType::PartyRelationship)
    } else if name == "document"@ {
        Some(ResourceType::Document)
    } else if name == "action"@ {
        Some(ResourceType::Action)
    } else if name == "deadline"@ {
        Some(ResourceType::Deadline)
    } else if name == "response"@ {
        Some(ResourceType::Response)
    } else if name == "escalation"@ {
        Some(ResourceType::Escalation)
    } else if name == "remedy"@ {
        Some(ResourceType::Remedy)
    } else if name == "resolution"@ {
        Some(ResourceType::Resolution)
    } else if name == "procedure"@ {
        Some(ResourceType::Procedure)
    } else if name == "compliance_requirement"@ {
        Some(ResourceType::ComplianceRequirement)
    } else if name == "legal_source"@ {
        Some(ResourceType::LegalSource)
    } else if name == "timeline"@ {
        Some(ResourceType::Timeline)
    } else if name == "audit"@ {
        Some(ResourceType::Audit)
    } else if name == "provenance"@ {
        Some(ResourceType::Provenance)
    } else if name == "idempotency"@ {
        Some(ResourceType::Idempotency)
    } else if name == "other"@ {
        Some(ResourceType::Other)
    } else {
        None
    }
}

pub fn resource_type_of_name(name: &str) -> (r: Option<ResourceType>)
    ensures
        r == type_of_name(name@),
{
    if str_eq(name, "case") {
        Some(ResourceType::Case)
    } else if str_eq(name, "incident") {
        Some(ResourceType::Incident)
    } else if str_eq(name, "event") {
        Some(ResourceType::Event)
    } else if str_eq(name, "observation") {
        Some(ResourceType::Observation)
    } else if str_eq(name, "evidence") {
        Some(ResourceType::Evidence)
    } else if str_eq(name, "authority") {
        Some(ResourceType::Authority)
    } else if str_eq(name, "jurisdiction") {
        Some(ResourceType::Jurisdiction)
    } else if str_eq(name, "party") {
        Some(ResourceType::Party)
    } else if str_eq(name, "party_relationship") {
        Some(ResourceType::PartyRelationship)
    } else if str_eq(name, "document") {
        Some(ResourceType::Document)
    } else if str_eq(name, "action") {
        Some(ResourceType::Action)
    } else if str_eq(name, "deadline") {
        Some(ResourceType::Deadline)
    } else if str_eq(name, "response") {
        Some(ResourceType::Response)
    } else if str_eq(name, "escalation") {
        Some(ResourceType::Escalation)
    } else if str_eq(name, "remedy") {
        Some(ResourceType::Remedy)
    } else if str_eq(name, "resolution") {
        Some(ResourceType::Resolution)
    } else if str_eq(name, "procedure") {
        Some(ResourceType::Procedure)
    } else if str_eq(name, "compliance_requirement") {
        Some(ResourceType::ComplianceRequirement)
    } else if str_eq(name, "legal_source") {
        Some(ResourceType::LegalSource)
    } else if str_eq(name, "timeline") {
        Some(ResourceType::Timeline)
    } else if str_eq(name, "audit") {
        Some(ResourceType::Audit)
    } else if str_eq(name, "provenance") {
        Some(ResourceType::Provenance)
    } else if str_eq(name, "idempotency") {
        Some(ResourceType::Idempotency)
    } else if str_eq(name, "other") {
        Some(ResourceType::Other)
    } else {
        None
    }
}

/// A stored reference read back; an unknown type or an empty id means the
/// stored row lost its integrity.
pub fn stored_resource_ref(resource_type: &str, id: String) -> (r: Result<ResourceRef, UnitOfWorkError>)
    ensures
        match type_of_name(resource_type@) {
            None => r == Err::<ResourceRef, UnitOfWorkError>(
                UnitOfWorkError::Persistence(PersistenceError::IntegrityFailure),
            ),
            Some(t) => if id@.len() == 0 {
                r == Err::<ResourceRef, UnitOfWorkError>(
                    UnitOfWorkError::Persistence(PersistenceError::IntegrityFailure),
                )
            } else {
                r == Ok::<ResourceRef, UnitOfWorkError>(ResourceRef { resource_type: t, id })
            },
        },
{
    let kind = match resource_type_of_name(resource_type) {
        Some(t) => t,
        None => return Err(UnitOfWorkError::Persistence(PersistenceError::IntegrityFailure)),
    };
    if id.as_str().is_empty() {
        return Err(UnitOfWorkError::Persistence(PersistenceError::IntegrityFailure));
    }
    Ok(ResourceRef { resource_type: kind, id })
}

/// The stored name of a link's class; a link without a class stores none.
pub open spec fn link_class_label(class: Option<ResourceLinkClass>) -> Option<&'static str> {
    match class {
        Some(ResourceLinkClass::Strong) => Some("strong"),
        Some(ResourceLinkClass::Forward) => Some("forward"),
        Some(ResourceLinkClass::External) => Some("external"),
        _ => None,
    }
}

pub fn link_class_name(class: Option<ResourceLinkClass>) -> (r: Option<&'static str>)
    ensures
        r == link_class_label(class),
{
    match class {
        Some(ResourceLinkClass::Strong) => Some("strong"),
        Some(ResourceLinkClass::Forward) => Some("forward"),
        Some(ResourceLinkClass::External) => Some("external"),
        _ => None,
    }
}

/// The schema version and revision of a stored row, checked: the schema
/// version fits in 1..=65535 and the revision is not negative.
pub fn stored_versions(schema_version: i32, revision: i64) -> (r: Result<(u16, Revision), UnitOfWorkError>)
    ensures
        (1 <= schema_version <= 65535 && revision >= 0) ==> r == Ok::<(u16, Revision), UnitOfWorkError>(
            (schema_version as u16, Revision { value: revision as u64 }),
        ),
        !(1 <= schema_version <= 65535 && revision >= 0) ==> r == Err::<(u16, Revision), UnitOfWorkError>(
            UnitOfWorkError::Persistence(PersistenceError::IntegrityFailure),
        ),
{
    if schema_version < 1 || schema_version > 65535 || revision < 0 {
        return Err(UnitOfWorkError::Persistence(PersistenceError::IntegrityFailure));
    }
    Ok((schema_version as u16, Revision { value: revision as u64 }))
}

/// The statement that a resource write becomes.
#[derive(Debug, Clone, Copy, PartialEq, Eq, Structural)]
pub enum WriteStatement {
    /// Insert at revision 0; an existing row is a duplicate.
    Insert,
    /// Update the row only while it is at `expected`, to revision `next`.
    CompareAndSet { expected: i64, next: i64 },
    /// Insert, or update an existing row to its next revision.
    Upsert,
}

/// Which statement a write becomes: an insert cannot carry an expected
/// revision, and a conditional update needs both revisions to fit the
/// stored column.
pub open spec fn write_statement_of(mode: ResourceWriteMode, expected: Option<Revision>) -> Result<
    WriteStatement,
    UnitOfWorkError,
> {
    match (mode, expected) {
        (ResourceWriteMode::Insert, Some(_)) => Err(UnitOfWorkError::InvalidOperation),
        (ResourceWriteMode::Insert, None) => Ok(WriteStatement::Insert),
        (ResourceWriteMode::Upsert, Some(e)) => if e.value + 1 > i64::MAX {
            Err(UnitOfWorkError::Persistence(PersistenceError::Conflict))
        } else {
            Ok(WriteStatement::CompareAndSet { expected: e.value as i64, next: (e.value + 1) as i64 })
        },
        (ResourceWriteMode::Upsert, None) => Ok(WriteStatement::Upsert),
    }
}

pub fn write_statement(mode: ResourceWriteMode, expected: Option<Revision>) -> (r: Result<WriteStatement, UnitOfWorkError>)
    ensures
        r == write_statement_of(mode, expected),
{
    match (mode, expected) {
        (ResourceWriteMode::Insert, Some(_)) => Err(UnitOfWorkError::InvalidOperation),
        (ResourceWriteMode::Insert, None) => Ok(WriteStatement::Insert),
        (ResourceWriteMode::Upsert, Some(e)) => {
            if e.value >= 0x7fff_ffff_ffff_ffff {
                return Err(UnitOfWorkError::Persistence(PersistenceError::Conflict));
            }
            Ok(WriteStatement::CompareAndSet { expected: e.value as i64, next: (e.value + 1) as i64 })
        },
        (ResourceWriteMode::Upsert, None) => Ok(WriteStatement::Upsert),
    }
}

/// A conditional update that changed no row lost a race: a conflict.
pub fn compare_and_set_outcome(affected: u64) -> (r: Result<(), UnitOfWorkError>)
    ensures
        affected == 0 ==> r == Err::<(), UnitOfWorkError>(UnitOfWorkError::Persistence(PersistenceError::Conflict)),
        affected != 0 ==> r is Ok,
{
    if affected == 0 {
        return Err(UnitOfWorkError::Persistence(PersistenceError::Conflict));
    }
    Ok(())
}

/// A strong link needs both of its ends stored.
pub fn strong_link_check(class: Option<ResourceLinkClass>, source_exists: bool, target_exists: bool) -> (r: Result<
    (),
    UnitOfWorkError,
>)
    ensures
        class == Some(ResourceLinkClass::Strong) && !(source_exists && target_exists) ==> r == Err::<(), UnitOfWorkError>(
            UnitOfWorkError::Persistence(PersistenceError::IntegrityFailure),
        ),
        !(class == Some(ResourceLinkClass::Strong) && !(source_exists && target_exists)) ==> r is Ok,
{
    match class {
        Some(ResourceLinkClass::Strong) => {
            if !(source_exists && target_exists) {
                return Err(UnitOfWorkError::Persistence(PersistenceError::IntegrityFailure));
            }
            Ok(())
        },
        _ => Ok(()),
    }
}

/// Every stored type name reads back as its type.
pub proof fn lemma_type_names_round_trip(t: ResourceType)
    ensures
        type_of_name(type_wire(t)@) == Some(t),
{
    match t {
        ResourceType::Case => {
            reveal_strlit("case");
        },
        ResourceType::Incident => {
            reveal_strlit("incident");
            reveal_strlit("case");
            assert("incident"@.len() != "case"@.len());
        },
        ResourceType::Event => {
            reveal_strlit("event");
            reveal_strlit("case");
            assert("event"@.len() != "case"@.len());
            reveal_strlit("incident");
            assert("event"@.len() != "incident"@.len());
        },
        ResourceType::Observation => {
            reveal_strlit("observation");
            reveal_strlit("case");
            assert("observation"@.len() != "case"@.len());
            reveal_strlit("incident");
            assert("observation"@.len() != "incident"@.len());
            reveal_strlit("event");
            assert("observation"@.len() != "event"@.len());
        },
        ResourceType::Evidence => {
            reveal_strlit("evidence");
            reveal_strlit("case");
            assert("evidence"@.len() != "case"@.len());
            reveal_strlit("incident");
            assert("evidence"@[0] != "incident"@[0]);
            reveal_strlit("event");
            assert("evidence"@.len() != "event"@.len());
            reveal_strlit("observation");
            assert("evidence"@.len() != "observation"@.len());
        },
        ResourceType::Authority => {
            reveal_strlit("authority");
            reveal_strlit("case");
            assert("authority"@.len() != "case"@.len());
            reveal_strlit("incident");
            assert("authority"@.len() != "incident"@.len());
            reveal_strlit("event");
            assert("authority"@.len() != "event"@.len());
            reveal_strlit("observation");
            assert("authority"@.len() != "observation"@.len());
            reveal_strlit("evidence");
            assert("authority"@.len() != "evidence"@.len());
        },
        ResourceType::Jurisdiction => {
            reveal_strlit("jurisdiction");
            reveal_strlit("case");
            assert("jurisdiction"@.len() != "case"@.len());
            reveal_strlit("incident");
            assert("jurisdiction"@.len() != "incident"@.len());
            reveal_strlit("event");
            assert("jurisdiction"@.len() != "event"@.len());
            reveal_strlit("observation");
            assert("jurisdiction"@.len() != "observation"@.len());
            reveal_strlit("evidence");
            assert("jurisdiction"@.len() != "evidence"@.len());
            reveal_strlit("authority");
            assert("jurisdiction"@.len() != "authority"@.len());
        },
        ResourceType::Party => {
            reveal_strlit("party");
            reveal_strlit("case");
            assert("party"@.len() != "case"@.len());
            reveal_strlit("incident");
            assert("party"@.len() != "incident"@.len());
            reveal_strlit("event");
            assert("party"@[0] != "event"@[0]);
            reveal_strlit("observation");
            assert("party"@.len() != "observation"@.len());
            reveal_strlit("evidence");
            assert("party"@.len() != "evidence"@.len());
            reveal_strlit("authority");
            assert("party"@.len() != "authority"@.len());
            reveal_strlit("jurisdiction");
            assert("party"@.len() != "jurisdiction"@.len());
        },
        ResourceType::PartyRelationship => {
            reveal_strlit("party_relationship");
            reveal_strlit("case");
            assert("party_relationship"@.len() != "case"@.len());
            reveal_strlit("incident");
            assert("party_relationship"@.len() != "incident"@.len());
            reveal_strlit("event");
            assert("party_relationship"@.len() != "event"@.len());
            reveal_strlit("observation");
            assert("party_relationship"@.len() != "observation"@.len());
            reveal_strlit("evidence");
            assert("party_relationship"@.len() != "evidence"@.len());
            reveal_strlit("authority");
            assert("party_relationship"@.len() != "authority"@.len());
            reveal_strlit("jurisdiction");
            assert("party_relationship"@.len() != "jurisdiction"@.len());
            reveal_strlit("party");
            assert("party_relationship"@.len() != "party"@.len());
        },
        ResourceType::Document => {
            reveal_strlit("document");
            reveal_strlit("case");
            assert("document"@.len() != "case"@.len());
            reveal_strlit("incident");
            assert("document"@[0] != "incident"@[0]);
            reveal_strlit("event");
            assert("document"@.len() != "event"@.len());
            reveal_strlit("observation");
            assert("document"@.len() != "observation"@.len());
            reveal_strlit("evidence");
            assert("document"@[0] != "evidence"@[0]);
            reveal_strlit("authority");
            assert("document"@.len() != "authority"@.len());
            reveal_strlit("jurisdiction");
            assert("document"@.len() != "jurisdiction"@.len());
            reveal_strlit("party");
            assert("document"@.len() != "party"@.len());
            reveal_strlit("party_relationship");
            assert("document"@.len() != "party_relationship"@.len());
        },
        ResourceType::Action => {
            reveal_strlit("action");
            reveal_strlit("case");
            assert("action"@.len() != "case"@.len());
            reveal_strlit("incident");
            assert("action"@.len() != "incident"@.len());
            reveal_strlit("event");
            assert("action"@.len() != "event"@.len());
            reveal_strlit("observation");
            assert("action"@.len() != "observation"@.len());
            reveal_strlit("evidence");
            assert("action"@.len() != "evidence"@.len());
            reveal_strlit("authority");
            assert("action"@.len() != "authority"@.len());
            reveal_strlit("jurisdiction");
            assert("action"@.len() != "jurisdiction"@.len());
            reveal_strlit("party");
            assert("action"@.len() != "party"@.len());
            reveal_strlit("party_relationship");
            assert("action"@.len() != "party_relationship"@.len());
            reveal_strlit("document");
            assert("action"@.len() != "document"@.len());
        },
        ResourceType::Deadline => {
            reveal_strlit("deadline");
            reveal_strlit("case");
            assert("deadline"@.len() != "case"@.len());
            reveal_strlit("incident");
            assert("deadline"@[0] != "incident"@[0]);
            reveal_strlit("event");
            assert("deadline"@.len() != "event"@.len());
            reveal_strlit("observation");
            assert("deadline"@.len() != "observation"@.len());
            reveal_strlit("evidence");
            assert("deadline"@[0] != "evidence"@[0]);
            reveal_strlit("authority");
            assert("deadline"@.len() != "authority"@.len());
            reveal_strlit("jurisdiction");
            assert("deadline"@.len() != "jurisdiction"@.len());
            reveal_strlit("party");
            assert("deadline"@.len() != "party"@.len());
            reveal_strlit("party_relationship");
            assert("deadline"@.len() != "party_relationship"@.len());
            reveal_strlit("document");
            assert("deadline"@[1] != "document"@[1]);
            reveal_strlit("action");
            assert("deadline"@.len() != "action"@.len());
        },
        ResourceType::Response => {
            reveal_strlit("response");
            reveal_strlit("case");
            assert("response"@.len() != "case"@.len());
            reveal_strlit("incident");
            assert("response"@[0] != "incident"@[0]);
            reveal_strlit("event");
            assert("response"@.len() != "event"@.len());
            reveal_strlit("observation");
            assert("response"@.len() != "observation"@.len());
            reveal_strlit("evidence");
            assert("response"@[0] != "evidence"@[0]);
            reveal_strlit("authority");
            assert("response"@.len() != "authority"@.len());
            reveal_strlit("jurisdiction");
            assert("response"@.len() != "jurisdiction"@.len());
            reveal_strlit("party");
            assert("response"@.len() != "party"@.len());
            reveal_strlit("party_relationship");
            assert("response"@.len() != "party_relationship"@.len());
            reveal_strlit("document");
            assert("response"@[0] != "document"@[0]);
            reveal_strlit("action");
            assert("response"@.len() != "action"@.len());
            reveal_strlit("deadline");
            assert("response"@[0] != "deadline"@[0]);
        },
        ResourceType::Escalation => {
            reveal_strlit("escalation");
            reveal_strlit("case");
            assert("escalation"@.len() != "case"@.len());
            reveal_strlit("incident");
            assert("escalation"@.len() != "incident"@.len());
            reveal_strlit("event");
            assert("escalation"@.len() != "event"@.len());
            reveal_strlit("observation");
            assert("escalation"@.len() != "observation"@.len());
            reveal_strlit("evidence");
            assert("escalation"@.len() != "evidence"@.len());
            reveal_strlit("authority");
            assert("escalation"@.len() != "authority"@.len());
            reveal_strlit("jurisdiction");
            assert("escalation"@.len() != "jurisdiction"@.len());
            reveal_strlit("party");
            assert("escalation"@.len() != "party"@.len());
            reveal_strlit("party_relationship");
            assert("escalation"@.len() != "party_relationship"@.len());
            reveal_strlit("document");
            assert("escalation"@.len() != "document"@.len());
            reveal_strlit("action");
            assert("escalation"@.len() != "action"@.len());
            reveal_strlit("deadline");
            assert("escalation"@.len() != "deadline"@.len());
            reveal_strlit("response");
            assert("escalation"@.len() != "response"@.len());
        },
        ResourceType::Remedy => {
            reveal_strlit("remedy");
            reveal_strlit("case");
            assert("remedy"@.len() != "case"@.len());
            reveal_strlit("incident");
            assert("remedy"@.len() != "incident"@.len());
            reveal_strlit("event");
            assert("remedy"@.len() != "event"@.len());
            reveal_strlit("observation");
            assert("remedy"@.len() != "observation"@.len());
            reveal_strlit("evidence");
            assert("remedy"@.len() != "evidence"@.len());
            reveal_strlit("authority");
            assert("remedy"@.len() != "authority"@.len());
            reveal_strlit("jurisdiction");
            assert("remedy"@.len() != "jurisdiction"@.len());
            reveal_strlit("party");
            assert("remedy"@.len() != "party"@.len());
            reveal_strlit("party_relationship");
            assert("remedy"@.len() != "party_relationship"@.len());
            reveal_strlit("document");
            assert("remedy"@.len() != "document"@.len());
            reveal_strlit("action");
            assert("remedy"@[0] != "action"@[0]);
            reveal_strlit("deadline");
            assert("remedy"@.len() != "deadline"@.len());
            reveal_strlit("response");
            assert("remedy"@.len() != "response"@.len());
            reveal_strlit("escalation");
            assert("remedy"@.len() != "escalation"@.len());
        },
        ResourceType::Resolution => {
            reveal_strlit("resolution");
            reveal_strlit("case");
            assert("resolution"@.len() != "case"@.len());
            reveal_strlit("incident");
            assert("resolution"@.len() != "incident"@.len());
            reveal_strlit("event");
            assert("resolution"@.len() != "event"@.len());
            reveal_strlit("observation");
            assert("resolution"@.len() != "observation"@.len());
            reveal_strlit("evidence");
            assert("resolution"@.len() != "evidence"@.len());
            reveal_strlit("authority");
            assert("resolution"@.len() != "authority"@.len());
            reveal_strlit("jurisdiction");
            assert("resolution"@.len() != "jurisdiction"@.len());
            reveal_strlit("party");
            assert("resolution"@.len() != "party"@.len());
            reveal_strlit("party_relationship");
            assert("resolution"@.len() != "party_relationship"@.len());
            reveal_strlit("document");
            assert("resolution"@.len() != "document"@.len());
            reveal_strlit("action");
            assert("resolution"@.len() != "action"@.len());
            reveal_strlit("deadline");
            assert("resolution"@.len() != "deadline"@.len());
            reveal_strlit("response");
            assert("resolution"@.len() != "response"@.len());
            reveal_strlit("escalation");
            assert("resolution"@[0] != "escalation"@[0]);
            reveal_strlit("remedy");
            assert("resolution"@.len() != "remedy"@.len());
        },
        ResourceType::Procedure => {
            reveal_strlit("procedure");
            reveal_strlit("case");
            assert("procedure"@.len() != "case"@.len());
            reveal_strlit("incident");
            assert("procedure"@.len() != "incident"@.len());
            reveal_strlit("event");
            assert("procedure"@.len() != "event"@.len());
            reveal_strlit("observation");
            assert("procedure"@.len() != "observation"@.len());
            reveal_strlit("evidence");
            assert("procedure"@.len() != "evidence"@.len());
            reveal_strlit("authority");
            assert("procedure"@[0] != "authority"@[0]);
            reveal_strlit("jurisdiction");
            assert("procedure"@.len() != "jurisdiction"@.len());
            reveal_strlit("party");
            assert("procedure"@.len() != "party"@.len());
            reveal_strlit("party_relationship");
            assert("procedure"@.len() != "party_relationship"@.len());
            reveal_strlit("document");
            assert("procedure"@.len() != "document"@.len());
            reveal_strlit("action");
            assert("procedure"@.len() != "action"@.len());
            reveal_strlit("deadline");
            assert("procedure"@.len() != "deadline"@.len());
            reveal_strlit("response");
            assert("procedure"@.len() != "response"@.len());
            reveal_strlit("escalation");
            assert("procedure"@.len() != "escalation"@.len());
            reveal_strlit("remedy");
            assert("procedure"@.len() != "remedy"@.len());
            reveal_strlit("resolution");
            assert("procedure"@.len() != "resolution"@.len());
        },
        ResourceType::ComplianceRequirement => {
            reveal_strlit("compliance_requirement");
            reveal_strlit("case");
            assert("compliance_requirement"@.len() != "case"@.len());
            reveal_strlit("incident");
            assert("compliance_requirement"@.len() != "incident"@.len());
            reveal_strlit("event");
            assert("compliance_requirement"@.len() != "event"@.len());
            reveal_strlit("observation");
            assert("compliance_requirement"@.len() != "observation"@.len());
            reveal_strlit("evidence");
            assert("compliance_requirement"@.len() != "evidence"@.len());
            reveal_strlit("authority");
            assert("compliance_requirement"@.len() != "authority"@.len());
            reveal_strlit("jurisdiction");
            assert("compliance_requirement"@.len() != "jurisdiction"@.len());
            reveal_strlit("party");
            assert("compliance_requirement"@.len() != "party"@.len());
            reveal_strlit("party_relationship");
            assert("compliance_requirement"@.len() != "party_relationship"@.len());
            reveal_strlit("document");
            assert("compliance_requirement"@.len() != "document"@.len());
            reveal_strlit("action");
            assert("compliance_requirement"@.len() != "action"@.len());
            reveal_strlit("deadline");
            assert("compliance_requirement"@.len() != "deadline"@.len());
            reveal_strlit("response");
            assert("compliance_requirement"@.len() != "response"@.len());
            reveal_strlit("escalation");
            assert("compliance_requirement"@.len() != "escalation"@.len());
            reveal_strlit("remedy");
            assert("compliance_requirement"@.len() != "remedy"@.len());
            reveal_strlit("resolution");
            assert("compliance_requirement"@.len() != "resolution"@.len());
            reveal_strlit("procedure");
            assert("compliance_requirement"@.len() != "procedure"@.len());
        },
        ResourceType::LegalSource => {
            reveal_strlit("legal_source");
            reveal_strlit("case");
            assert("legal_source"@.len() != "case"@.len());
            reveal_strlit("incident");
            assert("legal_source"@.len() != "incident"@.len());
            reveal_strlit("event");
            assert("legal_source"@.len() != "event"@.len());
            reveal_strlit("observation");
            assert("legal_source"@.len() != "observation"@.len());
            reveal_strlit("evidence");
            assert("legal_source"@.len() != "evidence"@.len());
            reveal_strlit("authority");
            assert("legal_source"@.len() != "authority"@.len());
            reveal_strlit("jurisdiction");
            assert("legal_source"@[0] != "jurisdiction"@[0]);
            reveal_strlit("party");
            assert("legal_source"@.len() != "party"@.len());
            reveal_strlit("party_relationship");
            assert("legal_source"@.len() != "party_relationship"@.len());
            reveal_strlit("document");
            assert("legal_source"@.len() != "document"@.len());
            reveal_strlit("action");
            assert("legal_source"@.len() != "action"@.len());
            reveal_strlit("deadline");
            assert("legal_source"@.len() != "deadline"@.len());
            reveal_strlit("response");
            assert("legal_source"@.len() != "response"@.len());
            reveal_strlit("escalation");
            assert("legal_source"@.len() != "escalation"@.len());
            reveal_strlit("remedy");
            assert("legal_source"@.len() != "remedy"@.len());
            reveal_strlit("resolution");
            assert("legal_source"@.len() != "resolution"@.len());
            reveal_strlit("procedure");
            assert("legal_source"@.len() != "procedure"@.len());
            reveal_strlit("compliance_requirement");
            assert("legal_source"@.len() != "compliance_requirement"@.len());
        },
        ResourceType::Timeline => {
            reveal_strlit("timeline");
            reveal_strlit("case");
            assert("timeline"@.len() != "case"@.len());
            reveal_strlit("incident");
            assert("timeline"@[0] != "incident"@[0]);
            reveal_strlit("event");
            assert("timeline"@.len() != "event"@.len());
            reveal_strlit("observation");
            assert("timeline"@.len() != "observation"@.len());
            reveal_strlit("evidence");
            assert("timeline"@[0] != "evidence"@[0]);
            reveal_strlit("authority");
            assert("timeline"@.len() != "authority"@.len());
            reveal_strlit("jurisdiction");
            assert("timeline"@.len() != "jurisdiction"@.len());
            reveal_strlit("party");
            assert("timeline"@.len() != "party"@.len());
            reveal_strlit("party_relationship");
            assert("timeline"@.len() != "party_relationship"@.len());
            reveal_strlit("document");
            assert("timeline"@[0] != "document"@[0]);
            reveal_strlit("action");
            assert("timeline"@.len() != "action"@.len());
            reveal_strlit("deadline");
            assert("timeline"@[0] != "deadline"@[0]);
            reveal_strlit("response");
            assert("timeline"@[0] != "response"@[0]);
            reveal_strlit("escalation");
            assert("timeline"@.len() != "escalation"@.len());
            reveal_strlit("remedy");
            assert("timeline"@.len() != "remedy"@.len());
            reveal_strlit("resolution");
            assert("timeline"@.len() != "resolution"@.len());
            reveal_strlit("procedure");
            assert("timeline"@.len() != "procedure"@.len());
            reveal_strlit("compliance_requirement");
            assert("timeline"@.len() != "compliance_requirement"@.len());
            reveal_strlit("legal_source");
            assert("timeline"@.len() != "legal_source"@.len());
        },
        ResourceType::Audit => {
            reveal_strlit("audit");
            reveal_strlit("case");
            assert("audit"@.len() != "case"@.len());
            reveal_strlit("incident");
            assert("audit"@.len() != "incident"@.len());
            reveal_strlit("event");
            assert("audit"@[0] != "event"@[0]);
            reveal_strlit("observation");
            assert("audit"@.len() != "observation"@.len());
            reveal_strlit("evidence");
            assert("audit"@.len() != "evidence"@.len());
            reveal_strlit("authority");
            assert("audit"@.len() != "authority"@.len());
            reveal_strlit("jurisdiction");
            assert("audit"@.len() != "jurisdiction"@.len());
            reveal_strlit("party");
            assert("audit"@[0] != "party"@[0]);
            reveal_strlit("party_relationship");
            assert("audit"@.len() != "party_relationship"@.len());
            reveal_strlit("document");
            assert("audit"@.len() != "document"@.len());
            reveal_strlit("action");
            assert("audit"@.len() != "action"@.len());
            reveal_strlit("deadline");
            assert("audit"@.len() != "deadline"@.len());
            reveal_strlit("response");
            assert("audit"@.len() != "response"@.len());
            reveal_strlit("escalation");
            assert("audit"@.len() != "escalation"@.len());
            reveal_strlit("remedy");
            assert("audit"@.len() != "remedy"@.len());
            reveal_strlit("resolution");
            assert("audit"@.len() != "resolution"@.len());
            reveal_strlit("procedure");
            assert("audit"@.len() != "procedure"@.len());
            reveal_strlit("compliance_requirement");
            assert("audit"@.len() != "compliance_requirement"@.len());
            reveal_strlit("legal_source");
            assert("audit"@.len() != "legal_source"@.len());
            reveal_strlit("timeline");
            assert("audit"@.len() != "timeline"@.len());
        },
        ResourceType::Provenance => {
            reveal_strlit("provenance");
            reveal_strlit("case");
            assert("provenance"@.len() != "case"@.len());
            reveal_strlit("incident");
            assert("provenance"@.len() != "incident"@.len());
            reveal_strlit("event");
            assert("provenance"@.len() != "event"@.len());
            reveal_strlit("observation");
            assert("provenance"@.len() != "observation"@.len());
            reveal_strlit("evidence");
            assert("provenance"@.len() != "evidence"@.len());
            reveal_strlit("authority");
            assert("provenance"@.len() != "authority"@.len());
            reveal_strlit("jurisdiction");
            assert("provenance"@.len() != "jurisdiction"@.len());
            reveal_strlit("party");
            assert("provenance"@.len() != "party"@.len());
            reveal_strlit("party_relationship");
            assert("provenance"@.len() != "party_relationship"@.len());
            reveal_strlit("document");
            assert("provenance"@.len() != "document"@.len());
            reveal_strlit("action");
            assert("provenance"@.len() != "action"@.len());
            reveal_strlit("deadline");
            assert("provenance"@.len() != "deadline"@.len());
            reveal_strlit("response");
            assert("provenance"@.len() != "response"@.len());
            reveal_strlit("escalation");
            assert("provenance"@[0] != "escalation"@[0]);
            reveal_strlit("remedy");
            assert("provenance"@.len() != "remedy"@.len());
            reveal_strlit("resolution");
            assert("provenance"@[0] != "resolution"@[0]);
            reveal_strlit("procedure");
            assert("provenance"@.len() != "procedure"@.len());
            reveal_strlit("compliance_requirement");
            assert("provenance"@.len() != "compliance_requirement"@.len());
            reveal_strlit("legal_source");
            assert("provenance"@.len() != "legal_source"@.len());
            reveal_strlit("timeline");
            assert("provenance"@.len() != "timeline"@.len());
            reveal_strlit("audit");
            assert("provenance"@.len() != "audit"@.len());
        },
        ResourceType::Idempotency => {
            reveal_strlit("idempotency");
            reveal_strlit("case");
            assert("idempotency"@.len() != "case"@.len());
            reveal_strlit("incident");
            assert("idempotency"@.len() != "incident"@.len());
            reveal_strlit("event");
            assert("idempotency"@.len() != "event"@.len());
            reveal_strlit("observation");
            assert("idempotency"@[0] != "observation"@[0]);
            reveal_strlit("evidence");
            assert("idempotency"@.len() != "evidence"@.len());
            reveal_strlit("authority");
            assert("idempotency"@.len() != "authority"@.len());
            reveal_strlit("jurisdiction");
            assert("idempotency"@.len() != "jurisdiction"@.len());
            reveal_strlit("party");
            assert("idempotency"@.len() != "party"@.len());
            reveal_strlit("party_relationship");
            assert("idempotency"@.len() != "party_relationship"@.len());
            reveal_strlit("document");
            assert("idempotency"@.len() != "document"@.len());
            reveal_strlit("action");
            assert("idempotency"@.len() != "action"@.len());
            reveal_strlit("deadline");
            assert("idempotency"@.len() != "deadline"@.len());
            reveal_strlit("response");
            assert("idempotency"@.len() != "response"@.len());
            reveal_strlit("escalation");
            assert("idempotency"@.len() != "escalation"@.len());
            reveal_strlit("remedy");
            assert("idempotency"@.len() != "remedy"@.len());
            reveal_strlit("resolution");
            assert("idempotency"@.len() != "resolution"@.len());
            reveal_strlit("procedure");
            assert("idempotency"@.len() != "procedure"@.len());
            reveal_strlit("compliance_requirement");
            assert("idempotency"@.len() != "compliance_requirement"@.len());
            reveal_strlit("legal_source");
            assert("idempotency"@.len() != "legal_source"@.len());
            reveal_strlit("timeline");
            assert("idempotency"@.len() != "timeline"@.len());
            reveal_strlit("audit");
            assert("idempotency"@.len() != "audit"@.len());
            reveal_strlit("provenance");
            assert("idempotency"@.len() != "provenance"@.len());
        },
        ResourceType::Other => {
            reveal_strlit("other");
            reveal_strlit("case");
            assert("other"@.len() != "case"@.len());
            reveal_strlit("incident");
            assert("other"@.len() != "incident"@.len());
            reveal_strlit("event");
            assert("other"@[0] != "event"@[0]);
            reveal_strlit("observation");
            assert("other"@.len() != "observation"@.len());
            reveal_strlit("evidence");
            assert("other"@.len() != "evidence"@.len());
            reveal_strlit("authority");
            assert("other"@.len() != "authority"@.len());
            reveal_strlit("jurisdiction");
            assert("other"@.len() != "jurisdiction"@.len());
            reveal_strlit("party");
            assert("other"@[0] != "party"@[0]);
            reveal_strlit("party_relationship");
            assert("other"@.len() != "party_relationship"@.len());
            reveal_strlit("document");
            assert("other"@.len() != "document"@.len());
            reveal_strlit("action");
            assert("other"@.len() != "action"@.len());
            reveal_strlit("deadline");
            assert("other"@.len() != "deadline"@.len());
            reveal_strlit("response");
            assert("other"@.len() != "response"@.len());
            reveal_strlit("escalation");
            assert("other"@.len() != "escalation"@.len());
            reveal_strlit("remedy");
            assert("other"@.len() != "remedy"@.len());
            reveal_strlit("resolution");
            assert("other"@.len() != "resolution"@.len());
            reveal_strlit("procedure");
            assert("other"@.len() != "procedure"@.len());
            reveal_strlit("compliance_requirement");
            assert("other"@.len() != "compliance_requirement"@.len());
            reveal_strlit("legal_source");
            assert("other"@.len() != "legal_source"@.len());
            reveal_strlit("timeline");
            assert("other"@.len() != "timeline"@.len());
            reveal_strlit("audit");
            assert("other"@[0] != "audit"@[0]);
            reveal_strlit("provenance");
            assert("other"@.len() != "provenance"@.len());
            reveal_strlit("idempotency");
            assert("other"@.len() != "idempotency"@.len());
        },
    }
}

} // verus!
