//! Rules of the local file store: which ids may name a record file, what a
//! record file is called, and when a stored record may be created or
//! replaced. Reading and writing the files is the caller's part.
use vstd::prelude::*;
use crate::persistence::Revision;
use crate::text::{concat, str_eq};

verus! {

/// Schema version of the records the local store writes.
pub const SCHEMA_VERSION: u16 = 1;

/// Why `id` cannot name a record file: it must not be empty, `.` or `..`,
/// and must hold no path separator.
pub open spec fn id_fault(id: Seq<char>) -> Option<&'static str> {
    if id.len() == 0 {
        Some("id is required")
    } else if id == "."@ || id == ".."@ || id.contains('/') || id.contains('\\') {
        Some("invalid id")
    } else {
        None
    }
}

pub fn validate_id(id: &str) -> (r: Result<(), &'static str>)
    ensures
        match id_fault(id@) {
            Some(m) => r == Err::<(), &'static str>(m),
            None => r is Ok,
        },
{
    if id.is_empty() {
        return Err("id is required");
    }
    if str_eq(id, ".") || str_eq(id, "..") || contains_char(id, '/') || contains_char(id, '\\') {
        return Err("invalid id");
    }
    Ok(())
}

fn contains_char(s: &str, c: char) -> (r: bool)
    ensures
        r == s@.contains(c),
{
    let n = s.unicode_len();
    let mut i: usize = 0;
    while i < n
        invariant
            n == s@.len(),
            i <= n,
            forall|j: int| 0 <= j < i ==> s@[j] != c,
        decreases n - i,
    {
        if s.get_char(i) == c {
            return true;
        }
        i = i + 1;
    }
    false
}

/// The name of the file that holds record `id`.
pub fn record_file_name(id: &str) -> (r: String)
    ensures
        r@ == id@ + ".json"@,
{
    concat(id, ".json")
}

/// Whether a record with `id` and `schema_version` may be created.
pub open spec fn creation_check(id: Seq<char>, schema_version: u16) -> Result<(), &'static str> {
    match id_fault(id) {
        Some(m) => Err(m),
        None => if schema_version == 0 {
            Err("schema version is required")
        } else {
            Ok(())
        },
    }
}

pub fn check_creation(id: &str, schema_version: u16) -> (r: Result<(), &'static str>)
    ensures
        r == creation_check(id@, schema_version),
{
    match validate_id(id) {
        Ok(()) => {},
        Err(m) => return Err(m),
    }
    if schema_version == 0 {
        return Err("schema version is required");
    }
    Ok(())
}

/// The revision a stored record takes when it is replaced, given what is
/// stored: a schema version is required, the caller must have seen the
/// current revision, and the revision must be able to grow.
pub open spec fn replacement(stored_schema_version: u16, current: Revision, expected: Revision) -> Result<
    Revision,
    &'static str,
> {
    if stored_schema_version == 0 {
        Err("schema version is required")
    } else if current != expected || current.value == u64::MAX {
        Err("revision conflict")
    } else {
        Ok(Revision { value: (current.value + 1) as u64 })
    }
}

pub fn next_revision(stored_schema_version: u16, current: Revision, expected: Revision) -> (r: Result<
    Revision,
    &'static str,
>)
    ensures
        r == replacement(stored_schema_version, current, expected),
{
    if stored_schema_version == 0 {
        return Err("schema version is required");
    }
    if current.value != expected.value {
        return Err("revision conflict");
    }
    match current.next() {
        Ok(r) => Ok(r),
        Err(_) => Err("revision conflict"),
    }
}

} // verus!
