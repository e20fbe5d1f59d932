//! Typed members of JSON objects: how a record's fields are written as
//! members and read back. A required member must occur exactly once; an
//! optional one may be missing or `null`; members of other names are ignored.
use vstd::prelude::*;
use crate::json::{JsonMember, JsonValue, find_unique, is_text, lemma_unique_at, member, text, unique_member};
use crate::resource::{opt_text_view, texts_view};
use crate::text::{str_eq, text_of};

verus! {

/// No member of `ms` is called `name`.
pub open spec fn absent(ms: Seq<JsonMember>, name: Seq<char>) -> bool {
    forall|i: int| 0 <= i < ms.len() ==> (#[trigger] ms[i]).name@ != name
}

/// The text of the only member `name`.
pub open spec fn text_field(ms: Seq<JsonMember>, name: Seq<char>) -> Option<Seq<char>> {
    match unique_member(ms, name) {
        Some(JsonValue::String(s)) => Some(s@),
        _ => None,
    }
}

/// An optional text: `Some(None)` when the member is missing or `null`,
/// `Some(Some(t))` for the text `t`, `None` when it cannot be read.
pub open spec fn opt_text_field(ms: Seq<JsonMember>, name: Seq<char>) -> Option<Option<Seq<char>>> {
    if absent(ms, name) {
        Some(None)
    } else {
        match unique_member(ms, name) {
            Some(JsonValue::Null) => Some(None),
            Some(JsonValue::String(s)) => Some(Some(s@)),
            _ => None,
        }
    }
}

/// The texts of an array whose items are all texts.
pub open spec fn texts_of(items: Seq<JsonValue>) -> Option<Seq<Seq<char>>> {
    if forall|i: int| 0 <= i < items.len() ==> (#[trigger] items[i]) is String {
        Some(Seq::new(items.len(), |i: int| items[i]->String_0@))
    } else {
        None
    }
}

/// The texts of the only member `name`, an array of texts.
pub open spec fn texts_field(ms: Seq<JsonMember>, name: Seq<char>) -> Option<Seq<Seq<char>>> {
    match unique_member(ms, name) {
        Some(JsonValue::Array(items)) => texts_of(items@),
        _ => None,
    }
}

/// The number of the only member `name`, when it fits in a `u32`.
pub open spec fn u32_field(ms: Seq<JsonMember>, name: Seq<char>) -> Option<u32> {
    match unique_member(ms, name) {
        Some(JsonValue::UInt(n)) => if n <= u32::MAX {
            Some(n as u32)
        } else {
            None
        },
        _ => None,
    }
}

/// `m` is member `name` holding the number `n`.
pub open spec fn u32_member(m: JsonMember, name: Seq<char>, n: u32) -> bool {
    m.name@ == name && m.value == JsonValue::UInt(n as u64)
}

/// `m` is member `name` holding `o`: `null` for none, else the text.
pub open spec fn opt_text_member(m: JsonMember, name: Seq<char>, o: Option<Seq<char>>) -> bool {
    m.name@ == name && match o {
        None => m.value is Null,
        Some(s) => is_text(m.value, s),
    }
}

/// `m` is member `name` holding the array of texts `s`.
pub open spec fn texts_member(m: JsonMember, name: Seq<char>, s: Seq<Seq<char>>) -> bool {
    &&& m.name@ == name
    &&& m.value matches JsonValue::Array(items)
    &&& items@.len() == s.len()
    &&& forall|i: int| 0 <= i < s.len() ==> is_text(#[trigger] items@[i], s[i])
}

/// Member `name` of `ms` sits at `i` alone.
pub open spec fn only_at(ms: Seq<JsonMember>, name: Seq<char>, i: int) -> bool {
    &&& 0 <= i < ms.len()
    &&& ms[i].name@ == name
    &&& forall|j: int| 0 <= j < ms.len() && j != i ==> (#[trigger] ms[j]).name@ != name
}

pub proof fn lemma_text_read_back(ms: Seq<JsonMember>, name: Seq<char>, i: int, s: Seq<char>)
    requires
        only_at(ms, name, i),
        is_text(ms[i].value, s),
    ensures
        text_field(ms, name) == Some(s),
{
    lemma_unique_at(ms, name, i);
}

pub proof fn lemma_opt_text_read_back(ms: Seq<JsonMember>, name: Seq<char>, i: int, o: Option<Seq<char>>)
    requires
        only_at(ms, name, i),
        opt_text_member(ms[i], name, o),
    ensures
        opt_text_field(ms, name) == Some(o),
{
    lemma_unique_at(ms, name, i);
    assert(!absent(ms, name));
}

pub proof fn lemma_texts_read_back(ms: Seq<JsonMember>, name: Seq<char>, i: int, s: Seq<Seq<char>>)
    requires
        only_at(ms, name, i),
        texts_member(ms[i], name, s),
    ensures
        texts_field(ms, name) == Some(s),
{
    lemma_unique_at(ms, name, i);
    let items = ms[i].value->Array_0@;
    assert(forall|k: int| 0 <= k < items.len() ==> (#[trigger] items[k]) is String) by {
        assert forall|k: int| 0 <= k < items.len() implies (#[trigger] items[k]) is String by {
            assert(is_text(items[k], s[k]));
        }
    }
    assert(Seq::new(items.len(), |k: int| items[k]->String_0@) =~= s) by {
        assert forall|k: int| 0 <= k < s.len() implies items[k]->String_0@ == s[k] by {
            assert(is_text(items[k], s[k]));
        }
    }
}

pub proof fn lemma_u32_read_back(ms: Seq<JsonMember>, name: Seq<char>, i: int, n: u32)
    requires
        only_at(ms, name, i),
        u32_member(ms[i], name, n),
    ensures
        u32_field(ms, name) == Some(n),
{
    lemma_unique_at(ms, name, i);
}

/// Whether some member of `ms` is called `name`.
pub fn has_member(ms: &Vec<JsonMember>, name: &str) -> (r: bool)
    ensures
        r == !absent(ms@, name@),
{
    let mut k: usize = 0;
    while k < ms.len()
        invariant
            k <= ms@.len(),
            forall|i: int| 0 <= i < k ==> (#[trigger] ms@[i]).name@ != name@,
        decreases ms@.len() - k,
    {
        if str_eq(ms[k].name.as_str(), name) {
            return true;
        }
        k = k + 1;
    }
    false
}

pub fn read_text(ms: &Vec<JsonMember>, name: &str) -> (r: Option<String>)
    ensures
        match r {
            Some(t) => text_field(ms@, name@) == Some(t@),
            None => text_field(ms@, name@) is None,
        },
{
    match find_unique(ms, name) {
        Some(JsonValue::String(s)) => Some(s.clone()),
        _ => None,
    }
}

pub fn read_opt_text(ms: &Vec<JsonMember>, name: &str) -> (r: Option<Option<String>>)
    ensures
        match r {
            Some(o) => opt_text_field(ms@, name@) == Some(opt_text_view(o)),
            None => opt_text_field(ms@, name@) is None,
        },
{
    if !has_member(ms, name) {
        return Some(None);
    }
    match find_unique(ms, name) {
        Some(JsonValue::Null) => Some(None),
        Some(JsonValue::String(s)) => Some(Some(s.clone())),
        _ => None,
    }
}

pub fn read_texts(ms: &Vec<JsonMember>, name: &str) -> (r: Option<Vec<String>>)
    ensures
        match r {
            Some(v) => texts_field(ms@, name@) == Some(texts_view(v@)),
            None => texts_field(ms@, name@) is None,
        },
{
    let items = match find_unique(ms, name) {
        Some(JsonValue::Array(items)) => items,
        _ => return None,
    };
    let mut out: Vec<String> = Vec::new();
    let mut k: usize = 0;
    while k < items.len()
        invariant
            k <= items@.len(),
            unique_member(ms@, name@) == Some(JsonValue::Array(*items)),
            out@.len() == k,
            forall|i: int| 0 <= i < k ==> (#[trigger] items@[i]) is String && out@[i]@ == items@[i]->String_0@,
        decreases items@.len() - k,
    {
        match &items[k] {
            JsonValue::String(s) => out.push(s.clone()),
            _ => {
                proof {
                    assert(!(items@[k as int] is String));
                }
                return None;
            },
        }
        k = k + 1;
    }
    proof {
        assert(texts_view(out@) =~= Seq::new(items@.len(), |i: int| items@[i]->String_0@));
    }
    Some(out)
}

pub fn read_u32(ms: &Vec<JsonMember>, name: &str) -> (r: Option<u32>)
    ensures
        r == u32_field(ms@, name@),
{
    match find_unique(ms, name) {
        Some(JsonValue::UInt(n)) => if *n <= 4294967295u64 {
            Some(*n as u32)
        } else {
            None
        },
        _ => None,
    }
}

pub fn u32_entry(name: &str, n: u32) -> (r: JsonMember)
    ensures
        u32_member(r, name@, n),
{
    member(name, JsonValue::UInt(n as u64))
}

pub fn text_entry(name: &str, t: &str) -> (r: JsonMember)
    ensures
        r.name@ == name@,
        is_text(r.value, t@),
{
    member(name, text(t))
}

pub fn opt_text_entry(name: &str, o: &Option<String>) -> (r: JsonMember)
    ensures
        opt_text_member(r, name@, opt_text_view(*o)),
{
    match o {
        Some(s) => member(name, text(s.as_str())),
        None => member(name, JsonValue::Null),
    }
}

pub fn texts_entry(name: &str, v: &Vec<String>) -> (r: JsonMember)
    ensures
        texts_member(r, name@, texts_view(v@)),
{
    let mut items: Vec<JsonValue> = Vec::new();
    let mut k: usize = 0;
    while k < v.len()
        invariant
            k <= v@.len(),
            items@.len() == k,
            forall|i: int| 0 <= i < k ==> is_text(#[trigger] items@[i], v@[i]@),
        decreases v@.len() - k,
    {
        items.push(JsonValue::String(text_of(v[k].as_str())));
        k = k + 1;
    }
    member(name, JsonValue::Array(items))
}

} // verus!
