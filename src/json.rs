//! A JSON value as the library reads it, and the field lookups that typed
//! decoding is built from.
use vstd::prelude::*;
use vstd::string::StringExecFns;

verus! {

/// A parsed JSON value. Numbers are split by how they were written:
/// a non-negative integer, a negative integer, or any other number kept as
/// its text. An object keeps its members in document order.
#[derive(Debug)]
pub enum Json {
    Null,
    Bool(bool),
    UInt(u64),
    NegInt(i64),
    Decimal(String),
    Str(String),
    Array(Vec<Json>),
    Object(Vec<(String, Json)>),
}

/// The value of the first member named `key`, if any.
pub open spec fn get_field(fields: Seq<(String, Json)>, key: Seq<char>) -> Option<Json>
    decreases fields.len(),
{
    if fields.len() == 0 {
        None
    } else if fields[0].0@ == key {
        Some(fields[0].1)
    } else {
        get_field(fields.drop_first(), key)
    }
}

/// The first member named `key` stands at `i`.
pub proof fn lemma_get_field_at(fields: Seq<(String, Json)>, key: Seq<char>, i: int)
    requires
        0 <= i < fields.len(),
        fields[i].0@ == key,
        forall|k: int| 0 <= k < i ==> (#[trigger] fields[k]).0@ != key,
    ensures
        get_field(fields, key) == Some(fields[i].1),
    decreases i,
{
    if i > 0 {
        let rest = fields.drop_first();
        assert forall|k: int| 0 <= k < i - 1 implies (#[trigger] rest[k]).0@ != key by {
            assert(rest[k] == fields[k + 1]);
        }
        lemma_get_field_at(rest, key, i - 1);
    }
}

/// The member `key` of an object; `None` for a missing member or a non-object.
pub open spec fn member(j: Json, key: Seq<char>) -> Option<Json> {
    match j {
        Json::Object(fields) => get_field(fields@, key),
        _ => None,
    }
}

/// A JSON number read as a `u32`: only a non-negative integer in range.
pub open spec fn as_u32(j: Json) -> Option<u32> {
    match j {
        Json::UInt(n) => if n <= u32::MAX {
            Some(n as u32)
        } else {
            None
        },
        _ => None,
    }
}

/// Position of the first member named `key`, if any.
pub fn field_index(fields: &Vec<(String, Json)>, key: &str) -> (r: Option<usize>)
    ensures
        match r {
            Some(i) => i < fields@.len() && get_field(fields@, key@) == Some(fields@[i as int].1),
            None => get_field(fields@, key@) is None,
        },
{
    let k = String::from_str(key);
    let mut i: usize = 0;
    assert(fields@.subrange(0, fields@.len() as int) =~= fields@);
    while i < fields.len()
        invariant
            i <= fields@.len(),
            k@ == key@,
            get_field(fields@, key@) == get_field(fields@.subrange(i as int, fields@.len() as int), key@),
        decreases fields@.len() - i,
    {
        let ghost rest = fields@.subrange(i as int, fields@.len() as int);
        assert(rest.drop_first() =~= fields@.subrange(i + 1, fields@.len() as int));
        if fields[i].0 == k {
            return Some(i);
        }
        i += 1;
    }
    None
}

/// Looks up the first member named `key`.
pub fn find_field<'a>(fields: &'a Vec<(String, Json)>, key: &str) -> (r: Option<&'a Json>)
    ensures
        match r {
            Some(v) => get_field(fields@, key@) == Some(*v),
            None => get_field(fields@, key@) is None,
        },
{
    match field_index(fields, key) {
        Some(i) => Some(&fields[i].1),
        None => None,
    }
}

/// Looks up the member `key` of a JSON value.
pub fn find_member<'a>(j: &'a Json, key: &str) -> (r: Option<&'a Json>)
    ensures
        match r {
            Some(v) => member(*j, key@) == Some(*v),
            None => member(*j, key@) is None,
        },
{
    match j {
        Json::Object(fields) => find_field(fields, key),
        _ => None,
    }
}

/// Reads a `u32` out of a JSON number.
pub fn read_u32(j: &Json) -> (r: Option<u32>)
    ensures
        r == as_u32(*j),
{
    match j {
        Json::UInt(n) => if *n <= u32::MAX as u64 {
            Some(*n as u32)
        } else {
            None
        },
        _ => None,
    }
}

} // verus!
