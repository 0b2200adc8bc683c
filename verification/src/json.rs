//! The crate's own JSON tree, and lookups into a decoded object.

use vstd::prelude::*;
use vstd::string::*;

verus! {

/// One decoded JSON document. Numbers keep the decimal text they were read
/// with, so that a value is carried and rendered verbatim rather than routed
/// through floating point.
pub enum Json {
    Null,
    Bool(bool),
    Num(String),
    Str(String),
    Arr(Vec<Json>),
    Obj(Vec<(String, Json)>),
}

/// The value under `key` in an object's field list: the first pair whose
/// name reads `key`, if any. Parsed objects never repeat a key, so "first"
/// is not a choice there.
pub open spec fn spec_lookup(fields: Seq<(String, Json)>, key: Seq<char>) -> Option<Json>
    decreases fields.len(),
{
    if fields.len() == 0 {
        None
    } else if fields[0].0@ == key {
        Some(fields[0].1)
    } else {
        spec_lookup(fields.drop_first(), key)
    }
}

/// None of the first `k` field names reads `key`.
pub open spec fn key_absent_upto(fields: Seq<(String, Json)>, key: Seq<char>, k: int) -> bool
    decreases k,
{
    k <= 0 || (fields[0].0@ != key && key_absent_upto(fields.drop_first(), key, k - 1))
}

/// When the first `k` names all differ from the k-th name, the k-th pair is
/// the one `spec_lookup` finds under that name.
pub proof fn lemma_lookup_at(fields: Seq<(String, Json)>, k: int)
    requires
        0 <= k < fields.len(),
        key_absent_upto(fields, fields[k].0@, k),
    ensures
        spec_lookup(fields, fields[k].0@) == Some(fields[k].1),
    decreases k,
{
    if k > 0 {
        let rest = fields.drop_first();
        assert(rest[k - 1] == fields[k]);
        lemma_lookup_at(rest, k - 1);
    }
}

/// Character-for-character equality of two string slices.
pub fn str_eq(a: &str, b: &str) -> (r: bool)
    ensures
        r == (a@ == b@),
{
    let a_len = a.unicode_len();
    let b_len = b.unicode_len();
    if a_len != b_len {
        return false;
    }
    let mut i: usize = 0;
    while i < a_len
        invariant
            a_len == a@.len(),
            b_len == b@.len(),
            a_len == b_len,
            i <= a_len,
            forall|k: int| 0 <= k < i ==> a@[k] == b@[k],
        decreases a_len - i,
    {
        if a.get_char(i) != b.get_char(i) {
            return false;
        }
        i += 1;
    }
    proof {
        assert(a@ =~= b@);
    }
    true
}

/// Finds `key` among an object's fields.
pub fn lookup<'a>(fields: &'a Vec<(String, Json)>, key: &str) -> (r: Option<&'a Json>)
    ensures
        r matches Some(j) ==> spec_lookup(fields@, key@) == Some(*j),
        r is None ==> spec_lookup(fields@, key@) is None,
{
    let mut i: usize = 0;
    proof {
        assert(fields@.skip(0) =~= fields@);
    }
    while i < fields.len()
        invariant
            i <= fields@.len(),
            spec_lookup(fields@, key@) == spec_lookup(fields@.skip(i as int), key@),
        decreases fields@.len() - i,
    {
        if str_eq(fields[i].0.as_str(), key) {
            return Some(&fields[i].1);
        }
        proof {
            assert(fields@.skip(i as int).drop_first() =~= fields@.skip(i as int + 1));
        }
        i += 1;
    }
    proof {
        assert(fields@.skip(fields@.len() as int) =~= Seq::<(String, Json)>::empty());
    }
    None
}

/// The string under `key`, when the key is present and its value is a JSON
/// string; nothing otherwise.
pub open spec fn spec_get_str(fields: Seq<(String, Json)>, key: Seq<char>) -> Option<String> {
    match spec_lookup(fields, key) {
        Some(Json::Str(s)) => Some(s),
        _ => None,
    }
}

/// The boolean under `key`, when present and boolean.
pub open spec fn spec_get_bool(fields: Seq<(String, Json)>, key: Seq<char>) -> Option<bool> {
    match spec_lookup(fields, key) {
        Some(Json::Bool(b)) => Some(b),
        _ => None,
    }
}

/// The number text under `key`, when present and numeric.
pub open spec fn spec_get_num(fields: Seq<(String, Json)>, key: Seq<char>) -> Option<String> {
    match spec_lookup(fields, key) {
        Some(Json::Num(t)) => Some(t),
        _ => None,
    }
}

/// The field list under `key`, when present and an object.
pub open spec fn spec_get_obj(fields: Seq<(String, Json)>, key: Seq<char>) -> Option<
    Vec<(String, Json)>,
> {
    match spec_lookup(fields, key) {
        Some(Json::Obj(o)) => Some(o),
        _ => None,
    }
}

/// The element list under `key`, when present and an array.
pub open spec fn spec_get_arr(fields: Seq<(String, Json)>, key: Seq<char>) -> Option<Vec<Json>> {
    match spec_lookup(fields, key) {
        Some(Json::Arr(a)) => Some(a),
        _ => None,
    }
}

/// Reads the string field `key`, absent unless present with string shape.
pub fn get_str(fields: &Vec<(String, Json)>, key: &str) -> (r: Option<String>)
    ensures
        r == spec_get_str(fields@, key@),
{
    match lookup(fields, key) {
        Some(j) => match j {
            Json::Str(s) => Some(s.clone()),
            _ => None,
        },
        None => None,
    }
}

/// Reads the boolean field `key`, absent unless present with boolean shape.
pub fn get_bool(fields: &Vec<(String, Json)>, key: &str) -> (r: Option<bool>)
    ensures
        r == spec_get_bool(fields@, key@),
{
    match lookup(fields, key) {
        Some(j) => match j {
            Json::Bool(b) => Some(*b),
            _ => None,
        },
        None => None,
    }
}

/// Reads the numeric field `key` as its decimal text, absent unless present
/// with numeric shape.
pub fn get_num(fields: &Vec<(String, Json)>, key: &str) -> (r: Option<String>)
    ensures
        r == spec_get_num(fields@, key@),
{
    match lookup(fields, key) {
        Some(j) => match j {
            Json::Num(t) => Some(t.clone()),
            _ => None,
        },
        None => None,
    }
}

/// Reads the object field `key`, absent unless present with object shape.
pub fn get_obj<'a>(fields: &'a Vec<(String, Json)>, key: &str) -> (r: Option<
    &'a Vec<(String, Json)>,
>)
    ensures
        r matches Some(o) ==> spec_get_obj(fields@, key@) == Some(*o),
        r is None ==> spec_get_obj(fields@, key@) is None,
{
    match lookup(fields, key) {
        Some(j) => match j {
            Json::Obj(o) => Some(o),
            _ => None,
        },
        None => None,
    }
}

/// Reads the array field `key`, absent unless present with array shape.
pub fn get_arr<'a>(fields: &'a Vec<(String, Json)>, key: &str) -> (r: Option<&'a Vec<Json>>)
    ensures
        r matches Some(a) ==> spec_get_arr(fields@, key@) == Some(*a),
        r is None ==> spec_get_arr(fields@, key@) is None,
{
    match lookup(fields, key) {
        Some(j) => match j {
            Json::Arr(a) => Some(a),
            _ => None,
        },
        None => None,
    }
}

} // verus!
