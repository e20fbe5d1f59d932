//! The JSON form in which parties and relationships are persisted: one
//! member per field, in declaration order, kinds and statuses by their snake
//! case names, missing references as `null`.
use vstd::prelude::*;
use crate::json::{JsonMember, JsonValue, text_member};
use crate::json_fields::{
    lemma_opt_text_read_back, lemma_text_read_back, lemma_texts_read_back, lemma_u32_read_back, only_at,
    opt_text_entry, opt_text_field, opt_text_member, read_opt_text, read_text, read_texts, read_u32, text_entry,
    text_field, texts_entry, texts_field, texts_member, u32_entry, u32_field, u32_member,
};
use crate::party::{Party, PartyKind, PartyRelationship, PartyStatus, present_but_empty};
use crate::resource::{has_empty_text, opt_text_view, texts_view};
use crate::text::str_eq;

verus! {

pub struct PartyView {
    pub party_id: Seq<char>,
    pub schema_version: u32,
    pub party_kind: PartyKind,
    pub status: PartyStatus,
    pub display_name: Seq<char>,
    pub identity_refs: Seq<Seq<char>>,
    pub jurisdiction_refs: Seq<Seq<char>>,
    pub organization_ref: Option<Seq<char>>,
    pub provenance_ref: Option<Seq<char>>,
    pub privacy_classification: Seq<char>,
    pub created_at: Seq<char>,
    pub updated_at: Seq<char>,
}

impl View for Party {
    type V = PartyView;

    open spec fn view(&self) -> PartyView {
        PartyView {
            party_id: self.party_id@,
            schema_version: self.schema_version,
            party_kind: self.party_kind,
            status: self.status,
            display_name: self.display_name@,
            identity_refs: texts_view(self.identity_refs@),
            jurisdiction_refs: texts_view(self.jurisdiction_refs@),
            organization_ref: opt_text_view(self.organization_ref),
            provenance_ref: opt_text_view(self.provenance_ref),
            privacy_classification: self.privacy_classification@,
            created_at: self.created_at@,
            updated_at: self.updated_at@,
        }
    }
}

pub struct RelationshipView {
    pub relationship_id: Seq<char>,
    pub schema_version: u32,
    pub from_party_id: Seq<char>,
    pub to_party_id: Seq<char>,
    pub relationship_type: Seq<char>,
    pub context_ref: Option<Seq<char>>,
    pub role: Seq<char>,
    pub valid_from: Seq<char>,
    pub valid_to: Option<Seq<char>>,
    pub provenance_ref: Option<Seq<char>>,
    pub authorization_ref: Option<Seq<char>>,
    pub created_at: Seq<char>,
}

impl View for PartyRelationship {
    type V = RelationshipView;

    open spec fn view(&self) -> RelationshipView {
        RelationshipView {
            relationship_id: self.relationship_id@,
            schema_version: self.schema_version,
            from_party_id: self.from_party_id@,
            to_party_id: self.to_party_id@,
            relationship_type: self.relationship_type@,
            context_ref: opt_text_view(self.context_ref),
            role: self.role@,
            valid_from: self.valid_from@,
            valid_to: opt_text_view(self.valid_to),
            provenance_ref: opt_text_view(self.provenance_ref),
            authorization_ref: opt_text_view(self.authorization_ref),
            created_at: self.created_at@,
        }
    }
}

pub open spec fn kind_wire(x: PartyKind) -> &'static str {
    match x {
        PartyKind::Person => "person",
        PartyKind::Organization => "organization",
        PartyKind::GovernmentEntity => "government_entity",
        PartyKind::RoleActor => "role_actor",
        PartyKind::SystemActor => "system_actor",
    }
}

pub open spec fn kind_of_wire(t: Seq<char>) -> Option<PartyKind> {
    if t == "person"@ {
        Some(PartyKind::Person)
    } else if t == "organization"@ {
        Some(PartyKind::Organization)
    } else if t == "government_entity"@ {
        Some(PartyKind::GovernmentEntity)
    } else if t == "role_actor"@ {
        Some(PartyKind::RoleActor)
    } else if t == "system_actor"@ {
        Some(PartyKind::SystemActor)
    } else {
        None
    }
}

pub fn kind_wire_name(x: PartyKind) -> (r: &'static str)
    ensures
        r == kind_wire(x),
{
    match x {
        PartyKind::Person => "person",
        PartyKind::Organization => "organization",
        PartyKind::GovernmentEntity => "government_entity",
        PartyKind::RoleActor => "role_actor",
        PartyKind::SystemActor => "system_actor",
    }
}

pub fn kind_of_wire_name(t: &str) -> (r: Option<PartyKind>)
    ensures
        r == kind_of_wire(t@),
{
    if str_eq(t, "person") {
        Some(PartyKind::Person)
    } else if str_eq(t, "organization") {
        Some(PartyKind::Organization)
    } else if str_eq(t, "government_entity") {
        Some(PartyKind::GovernmentEntity)
    } else if str_eq(t, "role_actor") {
        Some(PartyKind::RoleActor)
    } else if str_eq(t, "system_actor") {
        Some(PartyKind::SystemActor)
    } else {
        None
    }
}

pub proof fn lemma_kind_wire_round_trip(x: PartyKind)
    ensures
        kind_of_wire(kind_wire(x)@) == Some(x),
{
    match x {
        PartyKind::Person => {
            reveal_strlit("person");
        },
        PartyKind::Organization => {
            reveal_strlit("organization");
            reveal_strlit("person");
            assert("organization"@ != "person"@) by { assert("organization"@.len() != "person"@.len()); }
        },
        PartyKind::GovernmentEntity => {
            reveal_strlit("government_entity");
            reveal_strlit("person");
            assert("government_entity"@ != "person"@) by { assert("government_entity"@.len() != "person"@.len()); }
            reveal_strlit("organization");
            assert("government_entity"@ != "organization"@) by { assert("government_entity"@.len() != "organization"@.len()); }
        },
        PartyKind::RoleActor => {
            reveal_strlit("role_actor");
            reveal_strlit("person");
            assert("role_actor"@ != "person"@) by { assert("role_actor"@.len() != "person"@.len()); }
            reveal_strlit("organization");
            assert("role_actor"@ != "organization"@) by { assert("role_actor"@.len() != "organization"@.len()); }
            reveal_strlit("government_entity");
            assert("role_actor"@ != "government_entity"@) by { assert("role_actor"@.len() != "government_entity"@.len()); }
        },
        PartyKind::SystemActor => {
            reveal_strlit("system_actor");
            reveal_strlit("person");
            assert("system_actor"@ != "person"@) by { assert("system_actor"@.len() != "person"@.len()); }
            reveal_strlit("organization");
            assert("system_actor"@ != "organization"@) by { assert("system_actor"@[0] != "organization"@[0]); }
            reveal_strlit("government_entity");
            assert("system_actor"@ != "government_entity"@) by { assert("system_actor"@.len() != "government_entity"@.len()); }
            reveal_strlit("role_actor");
            assert("system_actor"@ != "role_actor"@) by { assert("system_actor"@.len() != "role_actor"@.len()); }
        },
    }
}

pub open spec fn status_wire(x: PartyStatus) -> &'static str {
    match x {
        PartyStatus::Active => "active",
        PartyStatus::Inactive => "inactive",
        PartyStatus::Suspended => "suspended",
        PartyStatus::Unknown => "unknown",
        PartyStatus::Superseded => "superseded",
    }
}

pub open spec fn status_of_wire(t: Seq<char>) -> Option<PartyStatus> {
    if t == "active"@ {
        Some(PartyStatus::Active)
    } else if t == "inactive"@ {
        Some(PartyStatus::Inactive)
    } else if t == "suspended"@ {
        Some(PartyStatus::Suspended)
    } else if t == "unknown"@ {
        Some(PartyStatus::Unknown)
    } else if t == "superseded"@ {
        Some(PartyStatus::Superseded)
    } else {
        None
    }
}

pub fn status_wire_name(x: PartyStatus) -> (r: &'static str)
    ensures
        r == status_wire(x),
{
    match x {
        PartyStatus::Active => "active",
        PartyStatus::Inactive => "inactive",
        PartyStatus::Suspended => "suspended",
        PartyStatus::Unknown => "unknown",
        PartyStatus::Superseded => "superseded",
    }
}

pub fn status_of_wire_name(t: &str) -> (r: Option<PartyStatus>)
    ensures
        r == status_of_wire(t@),
{
    if str_eq(t, "active") {
        Some(PartyStatus::Active)
    } else if str_eq(t, "inactive") {
        Some(PartyStatus::Inactive)
    } else if str_eq(t, "suspended") {
        Some(PartyStatus::Suspended)
    } else if str_eq(t, "unknown") {
        Some(PartyStatus::Unknown)
    } else if str_eq(t, "superseded") {
        Some(PartyStatus::Superseded)
    } else {
        None
    }
}

pub proof fn lemma_status_wire_round_trip(x: PartyStatus)
    ensures
        status_of_wire(status_wire(x)@) == Some(x),
{
    match x {
        PartyStatus::Active => {
            reveal_strlit("active");
        },
        PartyStatus::Inactive => {
            reveal_strlit("inactive");
            reveal_strlit("active");
            assert("inactive"@ != "active"@) by { assert("inactive"@.len() != "active"@.len()); }
        },
        PartyStatus::Suspended => {
            reveal_strlit("suspended");
            reveal_strlit("active");
            assert("suspended"@ != "active"@) by { assert("suspended"@.len() != "active"@.len()); }
            reveal_strlit("inactive");
            assert("suspended"@ != "inactive"@) by { assert("suspended"@.len() != "inactive"@.len()); }
        },
        PartyStatus::Unknown => {
            reveal_strlit("unknown");
            reveal_strlit("active");
            assert("unknown"@ != "active"@) by { assert("unknown"@.len() != "active"@.len()); }
            reveal_strlit("inactive");
            assert("unknown"@ != "inactive"@) by { assert("unknown"@.len() != "inactive"@.len()); }
            reveal_strlit("suspended");
            assert("unknown"@ != "suspended"@) by { assert("unknown"@.len() != "suspended"@.len()); }
        },
        PartyStatus::Superseded => {
            reveal_strlit("superseded");
            reveal_strlit("active");
            assert("superseded"@ != "active"@) by { assert("superseded"@.len() != "active"@.len()); }
            reveal_strlit("inactive");
            assert("superseded"@ != "inactive"@) by { assert("superseded"@.len() != "inactive"@.len()); }
            reveal_strlit("suspended");
            assert("superseded"@ != "suspended"@) by { assert("superseded"@.len() != "suspended"@.len()); }
            reveal_strlit("unknown");
            assert("superseded"@ != "unknown"@) by { assert("superseded"@.len() != "unknown"@.len()); }
        },
    }
}

/// The kind named by the only member `name`.
pub open spec fn kind_field(ms: Seq<JsonMember>, name: Seq<char>) -> Option<PartyKind> {
    match text_field(ms, name) {
        Some(t) => kind_of_wire(t),
        None => None,
    }
}

/// The status named by the only member `name`.
pub open spec fn status_field(ms: Seq<JsonMember>, name: Seq<char>) -> Option<PartyStatus> {
    match text_field(ms, name) {
        Some(t) => status_of_wire(t),
        None => None,
    }
}

fn read_kind(ms: &Vec<JsonMember>, name: &str) -> (r: Option<PartyKind>)
    ensures
        r == kind_field(ms@, name@),
{
    match read_text(ms, name) {
        Some(t) => kind_of_wire_name(t.as_str()),
        None => None,
    }
}

fn read_status(ms: &Vec<JsonMember>, name: &str) -> (r: Option<PartyStatus>)
    ensures
        r == status_field(ms@, name@),
{
    match read_text(ms, name) {
        Some(t) => status_of_wire_name(t.as_str()),
        None => None,
    }
}

/// `v` is the JSON form of party `p`.
pub open spec fn is_party_json(v: JsonValue, p: PartyView) -> bool {
    &&& v matches JsonValue::Object(ms)
    &&& ms@.len() == 12
    &&& text_member(ms@[0], "party_id"@, p.party_id)
    &&& u32_member(ms@[1], "schema_version"@, p.schema_version)
    &&& text_member(ms@[2], "party_kind"@, kind_wire(p.party_kind)@)
    &&& text_member(ms@[3], "status"@, status_wire(p.status)@)
    &&& text_member(ms@[4], "display_name"@, p.display_name)
    &&& texts_member(ms@[5], "identity_refs"@, p.identity_refs)
    &&& texts_member(ms@[6], "jurisdiction_refs"@, p.jurisdiction_refs)
    &&& opt_text_member(ms@[7], "organization_ref"@, p.organization_ref)
    &&& opt_text_member(ms@[8], "provenance_ref"@, p.provenance_ref)
    &&& text_member(ms@[9], "privacy_classification"@, p.privacy_classification)
    &&& text_member(ms@[10], "created_at"@, p.created_at)
    &&& text_member(ms@[11], "updated_at"@, p.updated_at)
}

/// The party that a JSON document describes: an object whose required
/// members occur once each with the right types; references may be missing
/// or `null`; other members are ignored.
pub open spec fn party_decoding(v: JsonValue) -> Option<PartyView> {
    match v {
        JsonValue::Object(ms) => {
            let f = ms@;
            if text_field(f, "party_id"@) is Some && u32_field(f, "schema_version"@) is Some && kind_field(f, "party_kind"@) is Some && status_field(f, "status"@) is Some && text_field(f, "display_name"@) is Some && texts_field(f, "identity_refs"@) is Some && texts_field(f, "jurisdiction_refs"@) is Some && opt_text_field(f, "organization_ref"@) is Some && opt_text_field(f, "provenance_ref"@) is Some && text_field(f, "privacy_classification"@) is Some && text_field(f, "created_at"@) is Some && text_field(f, "updated_at"@) is Some {
                Some(PartyView {
                    party_id: text_field(f, "party_id"@)->0,
                    schema_version: u32_field(f, "schema_version"@)->0,
                    party_kind: kind_field(f, "party_kind"@)->0,
                    status: status_field(f, "status"@)->0,
                    display_name: text_field(f, "display_name"@)->0,
                    identity_refs: texts_field(f, "identity_refs"@)->0,
                    jurisdiction_refs: texts_field(f, "jurisdiction_refs"@)->0,
                    organization_ref: opt_text_field(f, "organization_ref"@)->0,
                    provenance_ref: opt_text_field(f, "provenance_ref"@)->0,
                    privacy_classification: text_field(f, "privacy_classification"@)->0,
                    created_at: text_field(f, "created_at"@)->0,
                    updated_at: text_field(f, "updated_at"@)->0,
                })
            } else {
                None
            }
        },
        _ => None,
    }
}

pub fn party_to_json(p: &Party) -> (r: JsonValue)
    ensures
        is_party_json(r, p@),
{
    let mut ms: Vec<JsonMember> = Vec::new();
    ms.push(text_entry("party_id", p.party_id.as_str()));
    ms.push(u32_entry("schema_version", p.schema_version));
    ms.push(text_entry("party_kind", kind_wire_name(p.party_kind)));
    ms.push(text_entry("status", status_wire_name(p.status)));
    ms.push(text_entry("display_name", p.display_name.as_str()));
    ms.push(texts_entry("identity_refs", &p.identity_refs));
    ms.push(texts_entry("jurisdiction_refs", &p.jurisdiction_refs));
    ms.push(opt_text_entry("organization_ref", &p.organization_ref));
    ms.push(opt_text_entry("provenance_ref", &p.provenance_ref));
    ms.push(text_entry("privacy_classification", p.privacy_classification.as_str()));
    ms.push(text_entry("created_at", p.created_at.as_str()));
    ms.push(text_entry("updated_at", p.updated_at.as_str()));
    JsonValue::Object(ms)
}

pub fn party_from_json(v: &JsonValue) -> (r: Option<Party>)
    ensures
        match r {
            Some(p) => party_decoding(*v) == Some(p@),
            None => party_decoding(*v) is None,
        },
{
    let ms = match v {
        JsonValue::Object(ms) => ms,
        _ => return None,
    };
    let party_id = match read_text(ms, "party_id") {
        Some(x) => x,
        None => return None,
    };
    let schema_version = match read_u32(ms, "schema_version") {
        Some(x) => x,
        None => return None,
    };
    let party_kind = match read_kind(ms, "party_kind") {
        Some(x) => x,
        None => return None,
    };
    let status = match read_status(ms, "status") {
        Some(x) => x,
        None => return None,
    };
    let display_name = match read_text(ms, "display_name") {
        Some(x) => x,
        None => return None,
    };
    let identity_refs = match read_texts(ms, "identity_refs") {
        Some(x) => x,
        None => return None,
    };
    let jurisdiction_refs = match read_texts(ms, "jurisdiction_refs") {
        Some(x) => x,
        None => return None,
    };
    let organization_ref = match read_opt_text(ms, "organization_ref") {
        Some(x) => x,
        None => return None,
    };
    let provenance_ref = match read_opt_text(ms, "provenance_ref") {
        Some(x) => x,
        None => return None,
    };
    let privacy_classification = match read_text(ms, "privacy_classification") {
        Some(x) => x,
        None => return None,
    };
    let created_at = match read_text(ms, "created_at") {
        Some(x) => x,
        None => return None,
    };
    let updated_at = match read_text(ms, "updated_at") {
        Some(x) => x,
        None => return None,
    };
    Some(Party { party_id, schema_version, party_kind, status, display_name, identity_refs, jurisdiction_refs, organization_ref, provenance_ref, privacy_classification, created_at, updated_at })
}

/// What a party is written as reads back as that party.
pub proof fn lemma_party_json_round_trip(v: JsonValue, p: PartyView)
    requires
        is_party_json(v, p),
    ensures
        party_decoding(v) == Some(p),
{
    let ms = v->Object_0@;
    reveal_strlit("party_id");
    reveal_strlit("schema_version");
    reveal_strlit("party_kind");
    reveal_strlit("status");
    reveal_strlit("display_name");
    reveal_strlit("identity_refs");
    reveal_strlit("jurisdiction_refs");
    reveal_strlit("organization_ref");
    reveal_strlit("provenance_ref");
    reveal_strlit("privacy_classification");
    reveal_strlit("created_at");
    reveal_strlit("updated_at");
    assert("party_id"@ != "schema_version"@) by { assert("party_id"@.len() != "schema_version"@.len()); }
    assert("party_id"@ != "party_kind"@) by { assert("party_id"@.len() != "party_kind"@.len()); }
    assert("party_id"@ != "status"@) by { assert("party_id"@.len() != "status"@.len()); }
    assert("party_id"@ != "display_name"@) by { assert("party_id"@.len() != "display_name"@.len()); }
    assert("party_id"@ != "identity_refs"@) by { assert("party_id"@.len() != "identity_refs"@.len()); }
    assert("party_id"@ != "jurisdiction_refs"@) by { assert("party_id"@.len() != "jurisdiction_refs"@.len()); }
    assert("party_id"@ != "organization_ref"@) by { assert("party_id"@.len() != "organization_ref"@.len()); }
    assert("party_id"@ != "provenance_ref"@) by { assert("party_id"@.len() != "provenance_ref"@.len()); }
    assert("party_id"@ != "privacy_classification"@) by { assert("party_id"@.len() != "privacy_classification"@.len()); }
    assert("party_id"@ != "created_at"@) by { assert("party_id"@.len() != "created_at"@.len()); }
    assert("party_id"@ != "updated_at"@) by { assert("party_id"@.len() != "updated_at"@.len()); }
    assert("schema_version"@ != "party_kind"@) by { assert("schema_version"@.len() != "party_kind"@.len()); }
    assert("schema_version"@ != "status"@) by { assert("schema_version"@.len() != "status"@.len()); }
    assert("schema_version"@ != "display_name"@) by { assert("schema_version"@.len() != "display_name"@.len()); }
    assert("schema_version"@ != "identity_refs"@) by { assert("schema_version"@.len() != "identity_refs"@.len()); }
    assert("schema_version"@ != "jurisdiction_refs"@) by { assert("schema_version"@.len() != "jurisdiction_refs"@.len()); }
    assert("schema_version"@ != "organization_ref"@) by { assert("schema_version"@.len() != "organization_ref"@.len()); }
    assert("schema_version"@ != "provenance_ref"@) by { assert("schema_version"@[0] != "provenance_ref"@[0]); }
    assert("schema_version"@ != "privacy_classification"@) by { assert("schema_version"@.len() != "privacy_classification"@.len()); }
    assert("schema_version"@ != "created_at"@) by { assert("schema_version"@.len() != "created_at"@.len()); }
    assert("schema_version"@ != "updated_at"@) by { assert("schema_version"@.len() != "updated_at"@.len()); }
    assert("party_kind"@ != "status"@) by { assert("party_kind"@.len() != "status"@.len()); }
    assert("party_kind"@ != "display_name"@) by { assert("party_kind"@.len() != "display_name"@.len()); }
    assert("party_kind"@ != "identity_refs"@) by { assert("party_kind"@.len() != "identity_refs"@.len()); }
    assert("party_kind"@ != "jurisdiction_refs"@) by { assert("party_kind"@.len() != "jurisdiction_refs"@.len()); }
    assert("party_kind"@ != "organization_ref"@) by { assert("party_kind"@.len() != "organization_ref"@.len()); }
    assert("party_kind"@ != "provenance_ref"@) by { assert("party_kind"@.len() != "provenance_ref"@.len()); }
    assert("party_kind"@ != "privacy_classification"@) by { assert("party_kind"@.len() != "privacy_classification"@.len()); }
    assert("party_kind"@ != "created_at"@) by { assert("party_kind"@[0] != "created_at"@[0]); }
    assert("party_kind"@ != "updated_at"@) by { assert("party_kind"@[0] != "updated_at"@[0]); }
    assert("status"@ != "display_name"@) by { assert("status"@.len() != "display_name"@.len()); }
    assert("status"@ != "identity_refs"@) by { assert("status"@.len() != "identity_refs"@.len()); }
    assert("status"@ != "jurisdiction_refs"@) by { assert("status"@.len() != "jurisdiction_refs"@.len()); }
    assert("status"@ != "organization_ref"@) by { assert("status"@.len() != "organization_ref"@.len()); }
    assert("status"@ != "provenance_ref"@) by { assert("status"@.len() != "provenance_ref"@.len()); }
    assert("status"@ != "privacy_classification"@) by { assert("status"@.len() != "privacy_classification"@.len()); }
    assert("status"@ != "created_at"@) by { assert("status"@.len() != "created_at"@.len()); }
    assert("status"@ != "updated_at"@) by { assert("status"@.len() != "updated_at"@.len()); }
    assert("display_name"@ != "identity_refs"@) by { assert("display_name"@.len() != "identity_refs"@.len()); }
    assert("display_name"@ != "jurisdiction_refs"@) by { assert("display_name"@.len() != "jurisdiction_refs"@.len()); }
    assert("display_name"@ != "organization_ref"@) by { assert("display_name"@.len() != "organization_ref"@.len()); }
    assert("display_name"@ != "provenance_ref"@) by { assert("display_name"@.len() != "provenance_ref"@.len()); }
    assert("display_name"@ != "privacy_classification"@) by { assert("display_name"@.len() != "privacy_classification"@.len()); }
    assert("display_name"@ != "created_at"@) by { assert("display_name"@.len() != "created_at"@.len()); }
    assert("display_name"@ != "updated_at"@) by { assert("display_name"@.len() != "updated_at"@.len()); }
    assert("identity_refs"@ != "jurisdiction_refs"@) by { assert("identity_refs"@.len() != "jurisdiction_refs"@.len()); }
    assert("identity_refs"@ != "organization_ref"@) by { assert("identity_refs"@.len() != "organization_ref"@.len()); }
    assert("identity_refs"@ != "provenance_ref"@) by { assert("identity_refs"@.len() != "provenance_ref"@.len()); }
    assert("identity_refs"@ != "privacy_classification"@) by { assert("identity_refs"@.len() != "privacy_classification"@.len()); }
    assert("identity_refs"@ != "created_at"@) by { assert("identity_refs"@.len() != "created_at"@.len()); }
    assert("identity_refs"@ != "updated_at"@) by { assert("identity_refs"@.len() != "updated_at"@.len()); }
    assert("jurisdiction_refs"@ != "organization_ref"@) by { assert("jurisdiction_refs"@.len() != "organization_ref"@.len()); }
    assert("jurisdiction_refs"@ != "provenance_ref"@) by { assert("jurisdiction_refs"@.len() != "provenance_ref"@.len()); }
    assert("jurisdiction_refs"@ != "privacy_classification"@) by { assert("jurisdiction_refs"@.len() != "privacy_classification"@.len()); }
    assert("jurisdiction_refs"@ != "created_at"@) by { assert("jurisdiction_refs"@.len() != "created_at"@.len()); }
    assert("jurisdiction_refs"@ != "updated_at"@) by { assert("jurisdiction_refs"@.len() != "updated_at"@.len()); }
    assert("organization_ref"@ != "provenance_ref"@) by { assert("organization_ref"@.len() != "provenance_ref"@.len()); }
    assert("organization_ref"@ != "privacy_classification"@) by { assert("organization_ref"@.len() != "privacy_classification"@.len()); }
    assert("organization_ref"@ != "created_at"@) by { assert("organization_ref"@.len() != "created_at"@.len()); }
    assert("organization_ref"@ != "updated_at"@) by { assert("organization_ref"@.len() != "updated_at"@.len()); }
    assert("provenance_ref"@ != "privacy_classification"@) by { assert("provenance_ref"@.len() != "privacy_classification"@.len()); }
    assert("provenance_ref"@ != "created_at"@) by { assert("provenance_ref"@.len() != "created_at"@.len()); }
    assert("provenance_ref"@ != "updated_at"@) by { assert("provenance_ref"@.len() != "updated_at"@.len()); }
    assert("privacy_classification"@ != "created_at"@) by { assert("privacy_classification"@.len() != "created_at"@.len()); }
    assert("privacy_classification"@ != "updated_at"@) by { assert("privacy_classification"@.len() != "updated_at"@.len()); }
    assert("created_at"@ != "updated_at"@) by { assert("created_at"@[0] != "updated_at"@[0]); }
    assert(only_at(ms, "party_id"@, 0)) by {
        assert forall|j: int| 0 <= j < ms.len() && j != 0 implies (#[trigger] ms[j]).name@ != "party_id"@ by {
            if j == 0 {} else if j == 1 {} else if j == 2 {} else if j == 3 {} else if j == 4 {} else if j == 5 {} else if j == 6 {} else if j == 7 {} else if j == 8 {} else if j == 9 {} else if j == 10 {} else if j == 11 {}
        }
    }
    lemma_text_read_back(ms, "party_id"@, 0, p.party_id);
    assert(only_at(ms, "schema_version"@, 1)) by {
        assert forall|j: int| 0 <= j < ms.len() && j != 1 implies (#[trigger] ms[j]).name@ != "schema_version"@ by {
            if j == 0 {} else if j == 1 {} else if j == 2 {} else if j == 3 {} else if j == 4 {} else if j == 5 {} else if j == 6 {} else if j == 7 {} else if j == 8 {} else if j == 9 {} else if j == 10 {} else if j == 11 {}
        }
    }
    lemma_u32_read_back(ms, "schema_version"@, 1, p.schema_version);
    assert(only_at(ms, "party_kind"@, 2)) by {
        assert forall|j: int| 0 <= j < ms.len() && j != 2 implies (#[trigger] ms[j]).name@ != "party_kind"@ by {
            if j == 0 {} else if j == 1 {} else if j == 2 {} else if j == 3 {} else if j == 4 {} else if j == 5 {} else if j == 6 {} else if j == 7 {} else if j == 8 {} else if j == 9 {} else if j == 10 {} else if j == 11 {}
        }
    }
    lemma_text_read_back(ms, "party_kind"@, 2, kind_wire(p.party_kind)@);
    lemma_kind_wire_round_trip(p.party_kind);
    assert(only_at(ms, "status"@, 3)) by {
        assert forall|j: int| 0 <= j < ms.len() && j != 3 implies (#[trigger] ms[j]).name@ != "status"@ by {
            if j == 0 {} else if j == 1 {} else if j == 2 {} else if j == 3 {} else if j == 4 {} else if j == 5 {} else if j == 6 {} else if j == 7 {} else if j == 8 {} else if j == 9 {} else if j == 10 {} else if j == 11 {}
        }
    }
    lemma_text_read_back(ms, "status"@, 3, status_wire(p.status)@);
    lemma_status_wire_round_trip(p.status);
    assert(only_at(ms, "display_name"@, 4)) by {
        assert forall|j: int| 0 <= j < ms.len() && j != 4 implies (#[trigger] ms[j]).name@ != "display_name"@ by {
            if j == 0 {} else if j == 1 {} else if j == 2 {} else if j == 3 {} else if j == 4 {} else if j == 5 {} else if j == 6 {} else if j == 7 {} else if j == 8 {} else if j == 9 {} else if j == 10 {} else if j == 11 {}
        }
    }
    lemma_text_read_back(ms, "display_name"@, 4, p.display_name);
    assert(only_at(ms, "identity_refs"@, 5)) by {
        assert forall|j: int| 0 <= j < ms.len() && j != 5 implies (#[trigger] ms[j]).name@ != "identity_refs"@ by {
            if j == 0 {} else if j == 1 {} else if j == 2 {} else if j == 3 {} else if j == 4 {} else if j == 5 {} else if j == 6 {} else if j == 7 {} else if j == 8 {} else if j == 9 {} else if j == 10 {} else if j == 11 {}
        }
    }
    lemma_texts_read_back(ms, "identity_refs"@, 5, p.identity_refs);
    assert(only_at(ms, "jurisdiction_refs"@, 6)) by {
        assert forall|j: int| 0 <= j < ms.len() && j != 6 implies (#[trigger] ms[j]).name@ != "jurisdiction_refs"@ by {
            if j == 0 {} else if j == 1 {} else if j == 2 {} else if j == 3 {} else if j == 4 {} else if j == 5 {} else if j == 6 {} else if j == 7 {} else if j == 8 {} else if j == 9 {} else if j == 10 {} else if j == 11 {}
        }
    }
    lemma_texts_read_back(ms, "jurisdiction_refs"@, 6, p.jurisdiction_refs);
    assert(only_at(ms, "organization_ref"@, 7)) by {
        assert forall|j: int| 0 <= j < ms.len() && j != 7 implies (#[trigger] ms[j]).name@ != "organization_ref"@ by {
            if j == 0 {} else if j == 1 {} else if j == 2 {} else if j == 3 {} else if j == 4 {} else if j == 5 {} else if j == 6 {} else if j == 7 {} else if j == 8 {} else if j == 9 {} else if j == 10 {} else if j == 11 {}
        }
    }
    lemma_opt_text_read_back(ms, "organization_ref"@, 7, p.organization_ref);
    assert(only_at(ms, "provenance_ref"@, 8)) by {
        assert forall|j: int| 0 <= j < ms.len() && j != 8 implies (#[trigger] ms[j]).name@ != "provenance_ref"@ by {
            if j == 0 {} else if j == 1 {} else if j == 2 {} else if j == 3 {} else if j == 4 {} else if j == 5 {} else if j == 6 {} else if j == 7 {} else if j == 8 {} else if j == 9 {} else if j == 10 {} else if j == 11 {}
        }
    }
    lemma_opt_text_read_back(ms, "provenance_ref"@, 8, p.provenance_ref);
    assert(only_at(ms, "privacy_classification"@, 9)) by {
        assert forall|j: int| 0 <= j < ms.len() && j != 9 implies (#[trigger] ms[j]).name@ != "privacy_classification"@ by {
            if j == 0 {} else if j == 1 {} else if j == 2 {} else if j == 3 {} else if j == 4 {} else if j == 5 {} else if j == 6 {} else if j == 7 {} else if j == 8 {} else if j == 9 {} else if j == 10 {} else if j == 11 {}
        }
    }
    lemma_text_read_back(ms, "privacy_classification"@, 9, p.privacy_classification);
    assert(only_at(ms, "created_at"@, 10)) by {
        assert forall|j: int| 0 <= j < ms.len() && j != 10 implies (#[trigger] ms[j]).name@ != "created_at"@ by {
            if j == 0 {} else if j == 1 {} else if j == 2 {} else if j == 3 {} else if j == 4 {} else if j == 5 {} else if j == 6 {} else if j == 7 {} else if j == 8 {} else if j == 9 {} else if j == 10 {} else if j == 11 {}
        }
    }
    lemma_text_read_back(ms, "created_at"@, 10, p.created_at);
    assert(only_at(ms, "updated_at"@, 11)) by {
        assert forall|j: int| 0 <= j < ms.len() && j != 11 implies (#[trigger] ms[j]).name@ != "updated_at"@ by {
            if j == 0 {} else if j == 1 {} else if j == 2 {} else if j == 3 {} else if j == 4 {} else if j == 5 {} else if j == 6 {} else if j == 7 {} else if j == 8 {} else if j == 9 {} else if j == 10 {} else if j == 11 {}
        }
    }
    lemma_text_read_back(ms, "updated_at"@, 11, p.updated_at);
}

/// `v` is the JSON form of relationship `p`.
pub open spec fn is_relationship_json(v: JsonValue, p: RelationshipView) -> bool {
    &&& v matches JsonValue::Object(ms)
    &&& ms@.len() == 12
    &&& text_member(ms@[0], "relationship_id"@, p.relationship_id)
    &&& u32_member(ms@[1], "schema_version"@, p.schema_version)
    &&& text_member(ms@[2], "from_party_id"@, p.from_party_id)
    &&& text_member(ms@[3], "to_party_id"@, p.to_party_id)
    &&& text_member(ms@[4], "relationship_type"@, p.relationship_type)
    &&& opt_text_member(ms@[5], "context_ref"@, p.context_ref)
    &&& text_member(ms@[6], "role"@, p.role)
    &&& text_member(ms@[7], "valid_from"@, p.valid_from)
    &&& opt_text_member(ms@[8], "valid_to"@, p.valid_to)
    &&& opt_text_member(ms@[9], "provenance_ref"@, p.provenance_ref)
    &&& opt_text_member(ms@[10], "authorization_ref"@, p.authorization_ref)
    &&& text_member(ms@[11], "created_at"@, p.created_at)
}

/// The relationship that a JSON document describes, read as a party is.
pub open spec fn relationship_decoding(v: JsonValue) -> Option<RelationshipView> {
    match v {
        JsonValue::Object(ms) => {
            let f = ms@;
            if text_field(f, "relationship_id"@) is Some && u32_field(f, "schema_version"@) is Some && text_field(f, "from_party_id"@) is Some && text_field(f, "to_party_id"@) is Some && text_field(f, "relationship_type"@) is Some && opt_text_field(f, "context_ref"@) is Some && text_field(f, "role"@) is Some && text_field(f, "valid_from"@) is Some && opt_text_field(f, "valid_to"@) is Some && opt_text_field(f, "provenance_ref"@) is Some && opt_text_field(f, "authorization_ref"@) is Some && text_field(f, "created_at"@) is Some {
                Some(RelationshipView {
                    relationship_id: text_field(f, "relationship_id"@)->0,
                    schema_version: u32_field(f, "schema_version"@)->0,
                    from_party_id: text_field(f, "from_party_id"@)->0,
                    to_party_id: text_field(f, "to_party_id"@)->0,
                    relationship_type: text_field(f, "relationship_type"@)->0,
                    context_ref: opt_text_field(f, "context_ref"@)->0,
                    role: text_field(f, "role"@)->0,
                    valid_from: text_field(f, "valid_from"@)->0,
                    valid_to: opt_text_field(f, "valid_to"@)->0,
                    provenance_ref: opt_text_field(f, "provenance_ref"@)->0,
                    authorization_ref: opt_text_field(f, "authorization_ref"@)->0,
                    created_at: text_field(f, "created_at"@)->0,
                })
            } else {
                None
            }
        },
        _ => None,
    }
}

pub fn relationship_to_json(p: &PartyRelationship) -> (r: JsonValue)
    ensures
        is_relationship_json(r, p@),
{
    let mut ms: Vec<JsonMember> = Vec::new();
    ms.push(text_entry("relationship_id", p.relationship_id.as_str()));
    ms.push(u32_entry("schema_version", p.schema_version));
    ms.push(text_entry("from_party_id", p.from_party_id.as_str()));
    ms.push(text_entry("to_party_id", p.to_party_id.as_str()));
    ms.push(text_entry("relationship_type", p.relationship_type.as_str()));
    ms.push(opt_text_entry("context_ref", &p.context_ref));
    ms.push(text_entry("role", p.role.as_str()));
    ms.push(text_entry("valid_from", p.valid_from.as_str()));
    ms.push(opt_text_entry("valid_to", &p.valid_to));
    ms.push(opt_text_entry("provenance_ref", &p.provenance_ref));
    ms.push(opt_text_entry("authorization_ref", &p.authorization_ref));
    ms.push(text_entry("created_at", p.created_at.as_str()));
    JsonValue::Object(ms)
}

pub fn relationship_from_json(v: &JsonValue) -> (r: Option<PartyRelationship>)
    ensures
        match r {
            Some(p) => relationship_decoding(*v) == Some(p@),
            None => relationship_decoding(*v) is None,
        },
{
    let ms = match v {
        JsonValue::Object(ms) => ms,
        _ => return None,
    };
    let relationship_id = match read_text(ms, "relationship_id") {
        Some(x) => x,
        None => return None,
    };
    let schema_version = match read_u32(ms, "schema_version") {
        Some(x) => x,
        None => return None,
    };
    let from_party_id = match read_text(ms, "from_party_id") {
        Some(x) => x,
        None => return None,
    };
    let to_party_id = match read_text(ms, "to_party_id") {
        Some(x) => x,
        None => return None,
    };
    let relationship_type = match read_text(ms, "relationship_type") {
        Some(x) => x,
        None => return None,
    };
    let context_ref = match read_opt_text(ms, "context_ref") {
        Some(x) => x,
        None => return None,
    };
    let role = match read_text(ms, "role") {
        Some(x) => x,
        None => return None,
    };
    let valid_from = match read_text(ms, "valid_from") {
        Some(x) => x,
        None => return None,
    };
    let valid_to = match read_opt_text(ms, "valid_to") {
        Some(x) => x,
        None => return None,
    };
    let provenance_ref = match read_opt_text(ms, "provenance_ref") {
        Some(x) => x,
        None => return None,
    };
    let authorization_ref = match read_opt_text(ms, "authorization_ref") {
        Some(x) => x,
        None => return None,
    };
    let created_at = match read_text(ms, "created_at") {
        Some(x) => x,
        None => return None,
    };
    Some(PartyRelationship { relationship_id, schema_version, from_party_id, to_party_id, relationship_type, context_ref, role, valid_from, valid_to, provenance_ref, authorization_ref, created_at })
}

/// What a relationship is written as reads back as that relationship.
pub proof fn lemma_relationship_json_round_trip(v: JsonValue, p: RelationshipView)
    requires
        is_relationship_json(v, p),
    ensures
        relationship_decoding(v) == Some(p),
{
    let ms = v->Object_0@;
    reveal_strlit("relationship_id");
    reveal_strlit("schema_version");
    reveal_strlit("from_party_id");
    reveal_strlit("to_party_id");
    reveal_strlit("relationship_type");
    reveal_strlit("context_ref");
    reveal_strlit("role");
    reveal_strlit("valid_from");
    reveal_strlit("valid_to");
    reveal_strlit("provenance_ref");
    reveal_strlit("authorization_ref");
    reveal_strlit("created_at");
    assert("relationship_id"@ != "schema_version"@) by { assert("relationship_id"@.len() != "schema_version"@.len()); }
    assert("relationship_id"@ != "from_party_id"@) by { assert("relationship_id"@.len() != "from_party_id"@.len()); }
    assert("relationship_id"@ != "to_party_id"@) by { assert("relationship_id"@.len() != "to_party_id"@.len()); }
    assert("relationship_id"@ != "relationship_type"@) by { assert("relationship_id"@.len() != "relationship_type"@.len()); }
    assert("relationship_id"@ != "context_ref"@) by { assert("relationship_id"@.len() != "context_ref"@.len()); }
    assert("relationship_id"@ != "role"@) by { assert("relationship_id"@.len() != "role"@.len()); }
    assert("relationship_id"@ != "valid_from"@) by { assert("relationship_id"@.len() != "valid_from"@.len()); }
    assert("relationship_id"@ != "valid_to"@) by { assert("relationship_id"@.len() != "valid_to"@.len()); }
    assert("relationship_id"@ != "provenance_ref"@) by { assert("relationship_id"@.len() != "provenance_ref"@.len()); }
    assert("relationship_id"@ != "authorization_ref"@) by { assert("relationship_id"@.len() != "authorization_ref"@.len()); }
    assert("relationship_id"@ != "created_at"@) by { assert("relationship_id"@.len() != "created_at"@.len()); }
    assert("schema_version"@ != "from_party_id"@) by { assert("schema_version"@.len() != "from_party_id"@.len()); }
    assert("schema_version"@ != "to_party_id"@) by { assert("schema_version"@.len() != "to_party_id"@.len()); }
    assert("schema_version"@ != "relationship_type"@) by { assert("schema_version"@.len() != "relationship_type"@.len()); }
    assert("schema_version"@ != "context_ref"@) by { assert("schema_version"@.len() != "context_ref"@.len()); }
    assert("schema_version"@ != "role"@) by { assert("schema_version"@.len() != "role"@.len()); }
    assert("schema_version"@ != "valid_from"@) by { assert("schema_version"@.len() != "valid_from"@.len()); }
    assert("schema_version"@ != "valid_to"@) by { assert("schema_version"@.len() != "valid_to"@.len()); }
    assert("schema_version"@ != "provenance_ref"@) by { assert("schema_version"@[0] != "provenance_ref"@[0]); }
    assert("schema_version"@ != "authorization_ref"@) by { assert("schema_version"@.len() != "authorization_ref"@.len()); }
    assert("schema_version"@ != "created_at"@) by { assert("schema_version"@.len() != "created_at"@.len()); }
    assert("from_party_id"@ != "to_party_id"@) by { assert("from_party_id"@.len() != "to_party_id"@.len()); }
    assert("from_party_id"@ != "relationship_type"@) by { assert("from_party_id"@.len() != "relationship_type"@.len()); }
    assert("from_party_id"@ != "context_ref"@) by { assert("from_party_id"@.len() != "context_ref"@.len()); }
    assert("from_party_id"@ != "role"@) by { assert("from_party_id"@.len() != "role"@.len()); }
    assert("from_party_id"@ != "valid_from"@) by { assert("from_party_id"@.len() != "valid_from"@.len()); }
    assert("from_party_id"@ != "valid_to"@) by { assert("from_party_id"@.len() != "valid_to"@.len()); }
    assert("from_party_id"@ != "provenance_ref"@) by { assert("from_party_id"@.len() != "provenance_ref"@.len()); }
    assert("from_party_id"@ != "authorization_ref"@) by { assert("from_party_id"@.len() != "authorization_ref"@.len()); }
    assert("from_party_id"@ != "created_at"@) by { assert("from_party_id"@.len() != "created_at"@.len()); }
    assert("to_party_id"@ != "relationship_type"@) by { assert("to_party_id"@.len() != "relationship_type"@.len()); }
    assert("to_party_id"@ != "context_ref"@) by { assert("to_party_id"@[0] != "context_ref"@[0]); }
    assert("to_party_id"@ != "role"@) by { assert("to_party_id"@.len() != "role"@.len()); }
    assert("to_party_id"@ != "valid_from"@) by { assert("to_party_id"@.len() != "valid_from"@.len()); }
    assert("to_party_id"@ != "valid_to"@) by { assert("to_party_id"@.len() != "valid_to"@.len()); }
    assert("to_party_id"@ != "provenance_ref"@) by { assert("to_party_id"@.len() != "provenance_ref"@.len()); }
    assert("to_party_id"@ != "authorization_ref"@) by { assert("to_party_id"@.len() != "authorization_ref"@.len()); }
    assert("to_party_id"@ != "created_at"@) by { assert("to_party_id"@.len() != "created_at"@.len()); }
    assert("relationship_type"@ != "context_ref"@) by { assert("relationship_type"@.len() != "context_ref"@.len()); }
    assert("relationship_type"@ != "role"@) by { assert("relationship_type"@.len() != "role"@.len()); }
    assert("relationship_type"@ != "valid_from"@) by { assert("relationship_type"@.len() != "valid_from"@.len()); }
    assert("relationship_type"@ != "valid_to"@) by { assert("relationship_type"@.len() != "valid_to"@.len()); }
    assert("relationship_type"@ != "provenance_ref"@) by { assert("relationship_type"@.len() != "provenance_ref"@.len()); }
    assert("relationship_type"@ != "authorization_ref"@) by { assert("relationship_type"@[0] != "authorization_ref"@[0]); }
    assert("relationship_type"@ != "created_at"@) by { assert("relationship_type"@.len() != "created_at"@.len()); }
    assert("context_ref"@ != "role"@) by { assert("context_ref"@.len() != "role"@.len()); }
    assert("context_ref"@ != "valid_from"@) by { assert("context_ref"@.len() != "valid_from"@.len()); }
    assert("context_ref"@ != "valid_to"@) by { assert("context_ref"@.len() != "valid_to"@.len()); }
    assert("context_ref"@ != "provenance_ref"@) by { assert("context_ref"@.len() != "provenance_ref"@.len()); }
    assert("context_ref"@ != "authorization_ref"@) by { assert("context_ref"@.len() != "authorization_ref"@.len()); }
    assert("context_ref"@ != "created_at"@) by { assert("context_ref"@.len() != "created_at"@.len()); }
    assert("role"@ != "valid_from"@) by { assert("role"@.len() != "valid_from"@.len()); }
    assert("role"@ != "valid_to"@) by { assert("role"@.len() != "valid_to"@.len()); }
    assert("role"@ != "provenance_ref"@) by { assert("role"@.len() != "provenance_ref"@.len()); }
    assert("role"@ != "authorization_ref"@) by { assert("role"@.len() != "authorization_ref"@.len()); }
    assert("role"@ != "created_at"@) by { assert("role"@.len() != "created_at"@.len()); }
    assert("valid_from"@ != "valid_to"@) by { assert("valid_from"@.len() != "valid_to"@.len()); }
    assert("valid_from"@ != "provenance_ref"@) by { assert("valid_from"@.len() != "provenance_ref"@.len()); }
    assert("valid_from"@ != "authorization_ref"@) by { assert("valid_from"@.len() != "authorization_ref"@.len()); }
    assert("valid_from"@ != "created_at"@) by { assert("valid_from"@[0] != "created_at"@[0]); }
    assert("valid_to"@ != "provenance_ref"@) by { assert("valid_to"@.len() != "provenance_ref"@.len()); }
    assert("valid_to"@ != "authorization_ref"@) by { assert("valid_to"@.len() != "authorization_ref"@.len()); }
    assert("valid_to"@ != "created_at"@) by { assert("valid_to"@.len() != "created_at"@.len()); }
    assert("provenance_ref"@ != "authorization_ref"@) by { assert("provenance_ref"@.len() != "authorization_ref"@.len()); }
    assert("provenance_ref"@ != "created_at"@) by { assert("provenance_ref"@.len() != "created_at"@.len()); }
    assert("authorization_ref"@ != "created_at"@) by { assert("authorization_ref"@.len() != "created_at"@.len()); }
    assert(only_at(ms, "relationship_id"@, 0)) by {
        assert forall|j: int| 0 <= j < ms.len() && j != 0 implies (#[trigger] ms[j]).name@ != "relationship_id"@ by {
            if j == 0 {} else if j == 1 {} else if j == 2 {} else if j == 3 {} else if j == 4 {} else if j == 5 {} else if j == 6 {} else if j == 7 {} else if j == 8 {} else if j == 9 {} else if j == 10 {} else if j == 11 {}
        }
    }
    lemma_text_read_back(ms, "relationship_id"@, 0, p.relationship_id);
    assert(only_at(ms, "schema_version"@, 1)) by {
        assert forall|j: int| 0 <= j < ms.len() && j != 1 implies (#[trigger] ms[j]).name@ != "schema_version"@ by {
            if j == 0 {} else if j == 1 {} else if j == 2 {} else if j == 3 {} else if j == 4 {} else if j == 5 {} else if j == 6 {} else if j == 7 {} else if j == 8 {} else if j == 9 {} else if j == 10 {} else if j == 11 {}
        }
    }
    lemma_u32_read_back(ms, "schema_version"@, 1, p.schema_version);
    assert(only_at(ms, "from_party_id"@, 2)) by {
        assert forall|j: int| 0 <= j < ms.len() && j != 2 implies (#[trigger] ms[j]).name@ != "from_party_id"@ by {
            if j == 0 {} else if j == 1 {} else if j == 2 {} else if j == 3 {} else if j == 4 {} else if j == 5 {} else if j == 6 {} else if j == 7 {} else if j == 8 {} else if j == 9 {} else if j == 10 {} else if j == 11 {}
        }
    }
    lemma_text_read_back(ms, "from_party_id"@, 2, p.from_party_id);
    assert(only_at(ms, "to_party_id"@, 3)) by {
        assert forall|j: int| 0 <= j < ms.len() && j != 3 implies (#[trigger] ms[j]).name@ != "to_party_id"@ by {
            if j == 0 {} else if j == 1 {} else if j == 2 {} else if j == 3 {} else if j == 4 {} else if j == 5 {} else if j == 6 {} else if j == 7 {} else if j == 8 {} else if j == 9 {} else if j == 10 {} else if j == 11 {}
        }
    }
    lemma_text_read_back(ms, "to_party_id"@, 3, p.to_party_id);
    assert(only_at(ms, "relationship_type"@, 4)) by {
        assert forall|j: int| 0 <= j < ms.len() && j != 4 implies (#[trigger] ms[j]).name@ != "relationship_type"@ by {
            if j == 0 {} else if j == 1 {} else if j == 2 {} else if j == 3 {} else if j == 4 {} else if j == 5 {} else if j == 6 {} else if j == 7 {} else if j == 8 {} else if j == 9 {} else if j == 10 {} else if j == 11 {}
        }
    }
    lemma_text_read_back(ms, "relationship_type"@, 4, p.relationship_type);
    assert(only_at(ms, "context_ref"@, 5)) by {
        assert forall|j: int| 0 <= j < ms.len() && j != 5 implies (#[trigger] ms[j]).name@ != "context_ref"@ by {
            if j == 0 {} else if j == 1 {} else if j == 2 {} else if j == 3 {} else if j == 4 {} else if j == 5 {} else if j == 6 {} else if j == 7 {} else if j == 8 {} else if j == 9 {} else if j == 10 {} else if j == 11 {}
        }
    }
    lemma_opt_text_read_back(ms, "context_ref"@, 5, p.context_ref);
    assert(only_at(ms, "role"@, 6)) by {
        assert forall|j: int| 0 <= j < ms.len() && j != 6 implies (#[trigger] ms[j]).name@ != "role"@ by {
            if j == 0 {} else if j == 1 {} else if j == 2 {} else if j == 3 {} else if j == 4 {} else if j == 5 {} else if j == 6 {} else if j == 7 {} else if j == 8 {} else if j == 9 {} else if j == 10 {} else if j == 11 {}
        }
    }
    lemma_text_read_back(ms, "role"@, 6, p.role);
    assert(only_at(ms, "valid_from"@, 7)) by {
        assert forall|j: int| 0 <= j < ms.len() && j != 7 implies (#[trigger] ms[j]).name@ != "valid_from"@ by {
            if j == 0 {} else if j == 1 {} else if j == 2 {} else if j == 3 {} else if j == 4 {} else if j == 5 {} else if j == 6 {} else if j == 7 {} else if j == 8 {} else if j == 9 {} else if j == 10 {} else if j == 11 {}
        }
    }
    lemma_text_read_back(ms, "valid_from"@, 7, p.valid_from);
    assert(only_at(ms, "valid_to"@, 8)) by {
        assert forall|j: int| 0 <= j < ms.len() && j != 8 implies (#[trigger] ms[j]).name@ != "valid_to"@ by {
            if j == 0 {} else if j == 1 {} else if j == 2 {} else if j == 3 {} else if j == 4 {} else if j == 5 {} else if j == 6 {} else if j == 7 {} else if j == 8 {} else if j == 9 {} else if j == 10 {} else if j == 11 {}
        }
    }
    lemma_opt_text_read_back(ms, "valid_to"@, 8, p.valid_to);
    assert(only_at(ms, "provenance_ref"@, 9)) by {
        assert forall|j: int| 0 <= j < ms.len() && j != 9 implies (#[trigger] ms[j]).name@ != "provenance_ref"@ by {
            if j == 0 {} else if j == 1 {} else if j == 2 {} else if j == 3 {} else if j == 4 {} else if j == 5 {} else if j == 6 {} else if j == 7 {} else if j == 8 {} else if j == 9 {} else if j == 10 {} else if j == 11 {}
        }
    }
    lemma_opt_text_read_back(ms, "provenance_ref"@, 9, p.provenance_ref);
    assert(only_at(ms, "authorization_ref"@, 10)) by {
        assert forall|j: int| 0 <= j < ms.len() && j != 10 implies (#[trigger] ms[j]).name@ != "authorization_ref"@ by {
            if j == 0 {} else if j == 1 {} else if j == 2 {} else if j == 3 {} else if j == 4 {} else if j == 5 {} else if j == 6 {} else if j == 7 {} else if j == 8 {} else if j == 9 {} else if j == 10 {} else if j == 11 {}
        }
    }
    lemma_opt_text_read_back(ms, "authorization_ref"@, 10, p.authorization_ref);
    assert(only_at(ms, "created_at"@, 11)) by {
        assert forall|j: int| 0 <= j < ms.len() && j != 11 implies (#[trigger] ms[j]).name@ != "created_at"@ by {
            if j == 0 {} else if j == 1 {} else if j == 2 {} else if j == 3 {} else if j == 4 {} else if j == 5 {} else if j == 6 {} else if j == 7 {} else if j == 8 {} else if j == 9 {} else if j == 10 {} else if j == 11 {}
        }
    }
    lemma_text_read_back(ms, "created_at"@, 11, p.created_at);
}

/// Some text of `s` is empty.
pub open spec fn has_empty(s: Seq<Seq<char>>) -> bool {
    exists|i: int| 0 <= i < s.len() && (#[trigger] s[i]).len() == 0
}

/// A present but empty optional text.
pub open spec fn empty_if_present(o: Option<Seq<char>>) -> bool {
    o matches Some(s) && s.len() == 0
}

/// The rules of a party, read on its value.
pub open spec fn party_view_validity(p: PartyView) -> Result<(), &'static str> {
    if p.party_id.len() == 0 {
        Err("party id is required")
    } else if p.schema_version == 0 {
        Err("party schema version is required")
    } else if p.display_name.len() == 0 {
        Err("party display name is required")
    } else if p.privacy_classification.len() == 0 {
        Err("party privacy classification is required")
    } else if p.created_at.len() == 0 || p.updated_at.len() == 0 {
        Err("party timestamps are required")
    } else if has_empty(p.identity_refs) || has_empty(p.jurisdiction_refs) {
        Err("party references cannot be empty")
    } else if empty_if_present(p.organization_ref) || empty_if_present(p.provenance_ref) {
        Err("party reference cannot be empty")
    } else {
        Ok(())
    }
}

/// The rules of a relationship, read on its value.
pub open spec fn relationship_view_validity(p: RelationshipView) -> Result<(), &'static str> {
    if p.relationship_id.len() == 0 {
        Err("relationship id is required")
    } else if p.schema_version == 0 {
        Err("relationship schema version is required")
    } else if p.from_party_id.len() == 0 || p.to_party_id.len() == 0 {
        Err("relationship parties are required")
    } else if p.from_party_id == p.to_party_id {
        Err("party relationship cannot self-reference")
    } else if p.relationship_type.len() == 0 || p.role.len() == 0 {
        Err("relationship type and role are required")
    } else if p.valid_from.len() == 0 || p.created_at.len() == 0 {
        Err("relationship timestamps are required")
    } else {
        Ok(())
    }
}

proof fn lemma_empty_text_by_view(v: Seq<String>)
    ensures
        has_empty_text(v) == has_empty(texts_view(v)),
{
    if has_empty_text(v) {
        let i = choose|i: int| 0 <= i < v.len() && (#[trigger] v[i])@.len() == 0;
        assert(texts_view(v)[i].len() == 0);
    }
    if has_empty(texts_view(v)) {
        let i = choose|i: int| 0 <= i < texts_view(v).len() && (#[trigger] texts_view(v)[i]).len() == 0;
        assert(v[i]@.len() == 0);
    }
}

/// A party's rules depend on its value alone.
pub proof fn lemma_party_validity_by_view(p: Party)
    ensures
        p.validity() == party_view_validity(p@),
{
    lemma_empty_text_by_view(p.identity_refs@);
    lemma_empty_text_by_view(p.jurisdiction_refs@);
    assert(present_but_empty(p.organization_ref) == empty_if_present(p@.organization_ref));
    assert(present_but_empty(p.provenance_ref) == empty_if_present(p@.provenance_ref));
}

/// A relationship's rules depend on its value alone.
pub proof fn lemma_relationship_validity_by_view(p: PartyRelationship)
    ensures
        p.validity() == relationship_view_validity(p@),
{
}

} // verus!
