//! A JSON document tree and the read accessors the library's logic uses.

use vstd::prelude::*;
use crate::text::str_eq;

verus! {

/// A JSON number as it was parsed: a non-negative integer, a negative
/// integer, or a floating-point number kept as its printed text.
#[derive(Debug, Clone, PartialEq)]
pub enum JsonNumber {
    PosInt(u64),
    NegInt(i64),
    Float(String),
}

/// A JSON value. Object members keep their order; a key is looked up at
/// its first occurrence.
#[derive(Debug)]
pub enum JsonValue {
    Null,
    Bool(bool),
    Number(JsonNumber),
    String(String),
    Array(Vec<JsonValue>),
    Object(Vec<(String, JsonValue)>),
}

/// Whether index `i` holds the first member named `k`.
pub open spec fn first_member(fields: Seq<(String, JsonValue)>, k: Seq<char>, i: int) -> bool {
    &&& 0 <= i < fields.len()
    &&& fields[i].0@ == k
    &&& forall|j: int| 0 <= j < i ==> fields[j].0@ != k
}

/// The member named `k` of an object's field list.
pub open spec fn member(fields: Seq<(String, JsonValue)>, k: Seq<char>) -> Option<JsonValue> {
    if exists|i: int| first_member(fields, k, i) {
        Some(fields[choose|i: int| first_member(fields, k, i)].1)
    } else {
        None
    }
}

/// `v.get(k)`: the member named `k` when `v` is an object holding one.
pub open spec fn json_get(v: JsonValue, k: Seq<char>) -> Option<JsonValue> {
    match v {
        JsonValue::Object(fields) => member(fields@, k),
        _ => None,
    }
}

/// `v.as_str()`.
pub open spec fn json_str(v: JsonValue) -> Option<Seq<char>> {
    match v {
        JsonValue::String(s) => Some(s@),
        _ => None,
    }
}

/// `v.as_bool()`.
pub open spec fn json_bool(v: JsonValue) -> Option<bool> {
    match v {
        JsonValue::Bool(b) => Some(b),
        _ => None,
    }
}

/// `v.as_i64()`: integers that fit in `i64`.
pub open spec fn json_i64(v: JsonValue) -> Option<int> {
    match v {
        JsonValue::Number(JsonNumber::PosInt(u)) => if u <= i64::MAX { Some(u as int) } else { None },
        JsonValue::Number(JsonNumber::NegInt(i)) => Some(i as int),
        _ => None,
    }
}

/// `k` looked up in `v` and read as a string.
pub open spec fn get_str(v: JsonValue, k: Seq<char>) -> Option<Seq<char>> {
    match json_get(v, k) {
        Some(x) => json_str(x),
        None => None,
    }
}

/// `k` looked up in `v` and read as a boolean.
pub open spec fn get_bool(v: JsonValue, k: Seq<char>) -> Option<bool> {
    match json_get(v, k) {
        Some(x) => json_bool(x),
        None => None,
    }
}

/// `k` looked up in `v` and read as an integer.
pub open spec fn get_i64(v: JsonValue, k: Seq<char>) -> Option<int> {
    match json_get(v, k) {
        Some(x) => json_i64(x),
        None => None,
    }
}

pub proof fn lemma_member_at(fields: Seq<(String, JsonValue)>, k: Seq<char>, i: int)
    requires
        first_member(fields, k, i),
    ensures
        member(fields, k) == Some(fields[i].1),
{
    let c = choose|j: int| first_member(fields, k, j);
    assert(first_member(fields, k, c));
    if c < i {
        assert(fields[c].0@ != k);
    } else if c > i {
        assert(fields[i].0@ != k);
    }
}

impl JsonValue {
    /// The member named `key`, when this is an object holding one.
    pub fn get(&self, key: &str) -> (r: Option<&JsonValue>)
        ensures
            r matches Some(x) ==> json_get(*self, key@) == Some(*x),
            r is None ==> json_get(*self, key@) is None,
    {
        match self {
            JsonValue::Object(fields) => {
                let mut i: usize = 0;
                while i < fields.len()
                    invariant
                        i <= fields@.len(),
                        json_get(*self, key@) == member(fields@, key@),
                        forall|j: int| 0 <= j < i ==> (#[trigger] fields@[j]).0@ != key@,
                    decreases fields@.len() - i,
                {
                    if str_eq(fields[i].0.as_str(), key) {
                        proof {
                            assert(first_member(fields@, key@, i as int));
                            lemma_member_at(fields@, key@, i as int);
                        }
                        return Some(&fields[i].1);
                    }
                    i = i + 1;
                }
                None
            },
            _ => None,
        }
    }

    /// Whether this is an object.
    pub fn is_object(&self) -> (r: bool)
        ensures
            r == (*self is Object),
    {
        match self {
            JsonValue::Object(_) => true,
            _ => false,
        }
    }

    /// The text, when this is a string.
    pub fn as_str(&self) -> (r: Option<&str>)
        ensures
            r matches Some(s) ==> json_str(*self) == Some(s@),
            r is None ==> json_str(*self) is None,
    {
        match self {
            JsonValue::String(s) => Some(s.as_str()),
            _ => None,
        }
    }

    /// The boolean, when this is one.
    pub fn as_bool(&self) -> (r: Option<bool>)
        ensures
            r matches Some(b) ==> json_bool(*self) == Some(b),
            r is None ==> json_bool(*self) is None,
    {
        match self {
            JsonValue::Bool(b) => Some(*b),
            _ => None,
        }
    }

    /// The integer, when this is an integer that fits in `i64`.
    pub fn as_i64(&self) -> (r: Option<i64>)
        ensures
            r matches Some(n) ==> json_i64(*self) == Some(n as int),
            r is None ==> json_i64(*self) is None,
    {
        match self {
            JsonValue::Number(JsonNumber::PosInt(u)) => {
                if *u <= 9223372036854775807u64 {
                    Some(*u as i64)
                } else {
                    None
                }
            },
            JsonValue::Number(JsonNumber::NegInt(i)) => Some(*i),
            _ => None,
        }
    }

    /// The elements, when this is an array.
    pub fn as_array(&self) -> (r: Option<&Vec<JsonValue>>)
        ensures
            r matches Some(a) ==> *self == JsonValue::Array(*a),
            r is None ==> !(*self is Array),
    {
        match self {
            JsonValue::Array(a) => Some(a),
            _ => None,
        }
    }
}

/// `v.get(k).and_then(as_str)`.
pub fn get_str_field<'a>(v: &'a JsonValue, key: &str) -> (r: Option<&'a str>)
    ensures
        r matches Some(s) ==> get_str(*v, key@) == Some(s@),
        r is None ==> get_str(*v, key@) is None,
{
    match v.get(key) {
        Some(x) => x.as_str(),
        None => None,
    }
}

/// `v.get(k).and_then(as_bool)`.
pub fn get_bool_field(v: &JsonValue, key: &str) -> (r: Option<bool>)
    ensures
        r == get_bool(*v, key@),
{
    match v.get(key) {
        Some(x) => x.as_bool(),
        None => None,
    }
}

/// `v.get(k).and_then(as_i64)`.
pub fn get_i64_field(v: &JsonValue, key: &str) -> (r: Option<i64>)
    ensures
        r matches Some(n) ==> get_i64(*v, key@) == Some(n as int),
        r is None ==> get_i64(*v, key@) is None,
{
    match v.get(key) {
        Some(x) => x.as_i64(),
        None => None,
    }
}

} // verus!
