//! Structured payloads carried by persisted resources and events, and the
//! encodings of the library's own values into them.
use vstd::prelude::*;
use crate::resource::{Id, ResourceRef, ResourceType};
use crate::text::{str_eq, text_of};

verus! {

/// A JSON document: the payload of a persisted resource or an event.
#[derive(Debug, PartialEq, Eq)]
pub enum JsonValue {
    Null,
    Bool(bool),
    /// A non-negative integer.
    UInt(u64),
    /// A negative integer.
    NegInt(i64),
    String(String),
    Array(Vec<JsonValue>),
    /// Members in the order they were written.
    Object(Vec<JsonMember>),
}

/// A named member of a JSON object.
#[derive(Debug, PartialEq, Eq)]
pub struct JsonMember {
    pub name: String,
    pub value: JsonValue,
}

/// The abstract value of a JSON document.
pub enum JsonData {
    Null,
    Bool(bool),
    UInt(u64),
    NegInt(i64),
    Text(Seq<char>),
    List(Seq<JsonData>),
    Record(Seq<JsonField>),
}

/// The abstract value of a named member.
pub struct JsonField {
    pub name: Seq<char>,
    pub value: JsonData,
}

/// The abstract value of `v`: strings by their characters, arrays and
/// objects by the values of their items in order.
pub open spec fn json_data(v: JsonValue) -> JsonData
    decreases v,
{
    match v {
        JsonValue::Null => JsonData::Null,
        JsonValue::Bool(b) => JsonData::Bool(b),
        JsonValue::UInt(n) => JsonData::UInt(n),
        JsonValue::NegInt(n) => JsonData::NegInt(n),
        JsonValue::String(t) => JsonData::Text(t@),
        JsonValue::Array(items) => JsonData::List(
            Seq::new(
                items@.len(),
                |i: int|
                    if 0 <= i < items@.len() {
                        json_data(items@[i])
                    } else {
                        JsonData::Null
                    },
            ),
        ),
        JsonValue::Object(ms) => JsonData::Record(
            Seq::new(
                ms@.len(),
                |i: int|
                    if 0 <= i < ms@.len() {
                        JsonField { name: ms@[i].name@, value: json_data(ms@[i].value) }
                    } else {
                        JsonField { name: Seq::empty(), value: JsonData::Null }
                    },
            ),
        ),
    }
}

impl View for JsonValue {
    type V = JsonData;

    open spec fn view(&self) -> JsonData {
        json_data(*self)
    }
}

impl JsonValue {
    /// A copy of the document.
    pub fn duplicate(&self) -> (r: JsonValue)
        ensures
            r@ == self@,
        decreases self,
    {
        match self {
            JsonValue::Null => JsonValue::Null,
            JsonValue::Bool(b) => JsonValue::Bool(*b),
            JsonValue::UInt(n) => JsonValue::UInt(*n),
            JsonValue::NegInt(n) => JsonValue::NegInt(*n),
            JsonValue::String(s) => JsonValue::String(s.clone()),
            JsonValue::Array(items) => {
                let mut out: Vec<JsonValue> = Vec::new();
                let mut k: usize = 0;
                while k < items.len()
                    invariant
                        k <= items@.len(),
                        *self == JsonValue::Array(*items),
                        out@.len() == k,
                        forall|j: int| 0 <= j < k ==> (#[trigger] out@[j])@ == items@[j]@,
                    decreases items@.len() - k,
                {
                    proof {
                        assert(decreases_to!(*self => self->Array_0));
                        assert(decreases_to!(*items => items@));
                        assert(decreases_to!(items@ => items@[k as int]));
                    }
                    out.push(items[k].duplicate());
                    k = k + 1;
                }
                let r = JsonValue::Array(out);
                proof {
                    assert(json_data(r)->List_0 =~= json_data(*self)->List_0);
                }
                r
            },
            JsonValue::Object(members) => {
                let mut out: Vec<JsonMember> = Vec::new();
                let mut k: usize = 0;
                while k < members.len()
                    invariant
                        k <= members@.len(),
                        *self == JsonValue::Object(*members),
                        out@.len() == k,
                        forall|j: int| 0 <= j < k ==> (#[trigger] out@[j]).name@ == members@[j].name@
                            && out@[j].value@ == members@[j].value@,
                    decreases members@.len() - k,
                {
                    proof {
                        assert(decreases_to!(*self => self->Object_0));
                        assert(decreases_to!(*members => members@));
                        assert(decreases_to!(members@ => members@[k as int]));
                        assert(decreases_to!(members@[k as int] => members@[k as int].value));
                    }
                    let m = &members[k];
                    out.push(JsonMember { name: m.name.clone(), value: m.value.duplicate() });
                    k = k + 1;
                }
                let r = JsonValue::Object(out);
                proof {
                    assert(json_data(r)->Record_0 =~= json_data(*self)->Record_0);
                }
                r
            },
        }
    }
}

impl Clone for JsonValue {
    fn clone(&self) -> (r: Self)
        ensures
            r@ == self@,
    {
        self.duplicate()
    }
}

impl Clone for JsonMember {
    fn clone(&self) -> (r: Self)
        ensures
            r.name == self.name,
            r.value@ == self.value@,
    {
        JsonMember { name: self.name.clone(), value: self.value.duplicate() }
    }
}

/// `v` is the JSON string `s`.
pub open spec fn is_text(v: JsonValue, s: Seq<char>) -> bool {
    v matches JsonValue::String(t) && t@ == s
}

/// `m` is the member `name` holding the JSON string `s`.
pub open spec fn text_member(m: JsonMember, name: Seq<char>, s: Seq<char>) -> bool {
    m.name@ == name && is_text(m.value, s)
}

/// The value of the only member called `name`; `None` when there is no such
/// member or more than one.
pub open spec fn unique_member(ms: Seq<JsonMember>, name: Seq<char>) -> Option<JsonValue> {
    if exists|i: int|
        0 <= i < ms.len() && (#[trigger] ms[i]).name@ == name && forall|j: int|
            0 <= j < ms.len() && j != i ==> (#[trigger] ms[j]).name@ != name {
        let i = choose|i: int|
            0 <= i < ms.len() && (#[trigger] ms[i]).name@ == name && forall|j: int|
                0 <= j < ms.len() && j != i ==> (#[trigger] ms[j]).name@ != name;
        Some(ms[i].value)
    } else {
        None
    }
}

/// A JSON string holding a copy of `s`.
pub fn text(s: &str) -> (r: JsonValue)
    ensures
        is_text(r, s@),
{
    JsonValue::String(text_of(s))
}

pub fn member(name: &str, value: JsonValue) -> (r: JsonMember)
    ensures
        r.name@ == name@,
        r.value == value,
{
    JsonMember { name: text_of(name), value }
}

pub proof fn lemma_not_unique(ms: Seq<JsonMember>, name: Seq<char>, a: int, b: int)
    requires
        0 <= a < ms.len(),
        0 <= b < ms.len(),
        a != b,
        ms[a].name@ == name,
        ms[b].name@ == name,
    ensures
        unique_member(ms, name) is None,
{
    if exists|i: int|
        0 <= i < ms.len() && (#[trigger] ms[i]).name@ == name && forall|j: int|
            0 <= j < ms.len() && j != i ==> (#[trigger] ms[j]).name@ != name {
        let i = choose|i: int|
            0 <= i < ms.len() && (#[trigger] ms[i]).name@ == name && forall|j: int|
                0 <= j < ms.len() && j != i ==> (#[trigger] ms[j]).name@ != name;
        if i == a {
            assert(ms[b].name@ != name);
        } else {
            assert(ms[a].name@ != name);
        }
    }
}

pub proof fn lemma_unique_at(ms: Seq<JsonMember>, name: Seq<char>, i: int)
    requires
        0 <= i < ms.len(),
        ms[i].name@ == name,
        forall|j: int| 0 <= j < ms.len() && j != i ==> (#[trigger] ms[j]).name@ != name,
    ensures
        unique_member(ms, name) == Some(ms[i].value),
{
    let c = choose|c: int|
        0 <= c < ms.len() && (#[trigger] ms[c]).name@ == name && forall|j: int|
            0 <= j < ms.len() && j != c ==> (#[trigger] ms[j]).name@ != name;
    assert(c == i);
}

/// The only member called `name`, if there is exactly one.
pub fn find_unique<'a>(ms: &'a Vec<JsonMember>, name: &str) -> (r: Option<&'a JsonValue>)
    ensures
        match r {
            Some(v) => unique_member(ms@, name@) == Some(*v),
            None => unique_member(ms@, name@) is None,
        },
{
    let mut found: Option<usize> = None;
    let mut k: usize = 0;
    while k < ms.len()
        invariant
            k <= ms@.len(),
            found is None ==> forall|j: int| 0 <= j < k ==> (#[trigger] ms@[j]).name@ != name@,
            found is Some ==> found->0 < k && ms@[found->0 as int].name@ == name@ && forall|j: int|
                0 <= j < k && j != found->0 ==> (#[trigger] ms@[j]).name@ != name@,
        decreases ms@.len() - k,
    {
        if str_eq(ms[k].name.as_str(), name) {
            match found {
                Some(f) => {
                    proof {
                        lemma_not_unique(ms@, name@, f as int, k as int);
                    }
                    return None;
                },
                None => {
                    found = Some(k);
                },
            }
        }
        k = k + 1;
    }
    match found {
        Some(f) => {
            proof {
                lemma_unique_at(ms@, name@, f as int);
            }
            Some(&ms[f].value)
        },
        None => None,
    }
}

/// The wire name of a resource type (snake case).
pub open spec fn type_wire(t: ResourceType) -> &'static str {
    match t {
        ResourceType::Case => "case",
        ResourceType::Incident => "incident",
        ResourceType::Event => "event",
        ResourceType::Observation => "observation",
        ResourceType::Evidence => "evidence",
        ResourceType::Authority => "authority",
        ResourceType::Jurisdiction => "jurisdiction",
        ResourceType::Party => "party",
        ResourceType::PartyRelationship => "party_relationship",
        ResourceType::Document => "document",
        ResourceType::Action => "action",
        ResourceType::Deadline => "deadline",
        ResourceType::Response => "response",
        ResourceType::Escalation => "escalation",
        ResourceType::Remedy => "remedy",
        ResourceType::Resolution => "resolution",
        ResourceType::Procedure => "procedure",
        ResourceType::ComplianceRequirement => "compliance_requirement",
        ResourceType::LegalSource => "legal_source",
        ResourceType::Timeline => "timeline",
        ResourceType::Audit => "audit",
        ResourceType::Provenance => "provenance",
        ResourceType::Idempotency => "idempotency",
        ResourceType::Other => "other",
    }
}

pub fn type_wire_name(t: ResourceType) -> (r: &'static str)
    ensures
        r == type_wire(t),
{
    match t {
        ResourceType::Case => "case",
        ResourceType::Incident => "incident",
        ResourceType::Event => "event",
        ResourceType::Observation => "observation",
        ResourceType::Evidence => "evidence",
        ResourceType::Authority => "authority",
        ResourceType::Jurisdiction => "jurisdiction",
        ResourceType::Party => "party",
        ResourceType::PartyRelationship => "party_relationship",
        ResourceType::Document => "document",
        ResourceType::Action => "action",
        ResourceType::Deadline => "deadline",
        ResourceType::Response => "response",
        ResourceType::Escalation => "escalation",
        ResourceType::Remedy => "remedy",
        ResourceType::Resolution => "resolution",
        ResourceType::Procedure => "procedure",
        ResourceType::ComplianceRequirement => "compliance_requirement",
        ResourceType::LegalSource => "legal_source",
        ResourceType::Timeline => "timeline",
        ResourceType::Audit => "audit",
        ResourceType::Provenance => "provenance",
        ResourceType::Idempotency => "idempotency",
        ResourceType::Other => "other",
    }
}

/// `v` is the JSON form of reference `r`: its wire type and its id.
pub open spec fn is_ref_json(v: JsonValue, r: ResourceRef) -> bool {
    v matches JsonValue::Object(ms) && ms@.len() == 2 && text_member(ms@[0], "resource_type"@, type_wire(r.resource_type)@)
        && text_member(ms@[1], "id"@, r.id@)
}

/// Two objects whose members agree, name and value, index by index, have
/// the same abstract value.
pub proof fn lemma_object_view(v1: JsonValue, v2: JsonValue)
    requires
        v1 matches JsonValue::Object(ms1),
        v2 matches JsonValue::Object(ms2),
        v1->Object_0@.len() == v2->Object_0@.len(),
        forall|i: int|
            0 <= i < v1->Object_0@.len() ==> (#[trigger] v1->Object_0@[i]).name@ == v2->Object_0@[i].name@
                && v1->Object_0@[i].value@ == v2->Object_0@[i].value@,
    ensures
        v1@ == v2@,
{
    let (ms1, ms2) = (v1->Object_0@, v2->Object_0@);
    let (d1, d2) = (v1@->Record_0, v2@->Record_0);
    assert(d1.len() == ms1.len() && d2.len() == ms2.len());
    assert forall|i: int| 0 <= i < d1.len() implies #[trigger] d1[i] == d2[i] by {
        assert(ms1[i].name@ == ms2[i].name@ && ms1[i].value@ == ms2[i].value@);
        assert(d1[i] == JsonField { name: ms1[i].name@, value: json_data(ms1[i].value) });
        assert(d2[i] == JsonField { name: ms2[i].name@, value: json_data(ms2[i].value) });
    }
    assert(d1 =~= d2);
}

/// Two forms of references with the same view have the same abstract value.
pub proof fn lemma_ref_json_view(v1: JsonValue, v2: JsonValue, r1: ResourceRef, r2: ResourceRef)
    requires
        is_ref_json(v1, r1),
        is_ref_json(v2, r2),
        r1@ == r2@,
    ensures
        v1@ == v2@,
{
    let (ms1, ms2) = (v1->Object_0@, v2->Object_0@);
    assert(ms1[0].value@ == ms2[0].value@);
    assert(ms1[1].value@ == ms2[1].value@);
    lemma_object_view(v1, v2);
}

pub fn ref_json(r: &ResourceRef) -> (v: JsonValue)
    ensures
        is_ref_json(v, *r),
{
    let mut ms: Vec<JsonMember> = Vec::new();
    ms.push(member("resource_type", text(type_wire_name(r.resource_type))));
    ms.push(member("id", text(r.id.as_str())));
    JsonValue::Object(ms)
}

} // verus!
