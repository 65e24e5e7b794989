//! JSON documents as plain values, and reading members out of them.

use vstd::prelude::*;

use crate::text::{opt_view, str_eq};
use serde_json::Value;

verus! {

broadcast use vstd::string::group_string_axioms;

/// `serde_json::Value`, carried opaquely until it is converted.
#[verifier::external_type_specification]
#[verifier::external_body]
pub struct ExJsonValue(serde_json::Value);

/// A JSON number as `serde_json` holds it: a non-negative integer, a negative
/// integer, or a float (whose value this library never reads).
#[derive(Debug, Clone, Copy, PartialEq, Eq)]
pub enum JsonNumber {
    PosInt(u64),
    NegInt(i64),
    Float,
}

/// A JSON document. An object lists its members in order, each name once.
#[derive(Debug)]
pub enum JsonValue {
    Null,
    Bool(bool),
    Number(JsonNumber),
    Str(String),
    Array(Vec<JsonValue>),
    Object(Vec<(String, JsonValue)>),
}

/// The value of the first member named `key` among `members`.
pub open spec fn first_member(members: Seq<(String, JsonValue)>, key: Seq<char>) -> Option<JsonValue>
    decreases members.len(),
{
    if members.len() == 0 {
        None
    } else if members[0].0@ == key {
        Some(members[0].1)
    } else {
        first_member(members.drop_first(), key)
    }
}

/// The member named `key` of an object; `None` for a missing member or a
/// value that is no object.
pub open spec fn json_member(v: JsonValue, key: Seq<char>) -> Option<JsonValue> {
    match v {
        JsonValue::Object(members) => first_member(members@, key),
        _ => None,
    }
}

/// The text of a JSON string.
pub open spec fn spec_as_str(v: JsonValue) -> Option<Seq<char>> {
    match v {
        JsonValue::Str(s) => Some(s@),
        _ => None,
    }
}

/// A JSON integer that fits in an `i64`.
pub open spec fn spec_as_i64(v: JsonValue) -> Option<i64> {
    match v {
        JsonValue::Number(JsonNumber::PosInt(n)) => if n <= i64::MAX {
            Some(n as i64)
        } else {
            None
        },
        JsonValue::Number(JsonNumber::NegInt(n)) => Some(n),
        _ => None,
    }
}

/// A non-negative JSON integer.
pub open spec fn spec_as_u64(v: JsonValue) -> Option<u64> {
    match v {
        JsonValue::Number(JsonNumber::PosInt(n)) => Some(n),
        _ => None,
    }
}

/// The string member `key` of an object.
pub open spec fn spec_str_field(v: JsonValue, key: Seq<char>) -> Option<Seq<char>> {
    match json_member(v, key) {
        Some(f) => spec_as_str(f),
        None => None,
    }
}

/// The `i64` member `key` of an object.
pub open spec fn spec_i64_field(v: JsonValue, key: Seq<char>) -> Option<i64> {
    match json_member(v, key) {
        Some(f) => spec_as_i64(f),
        None => None,
    }
}

/// The `u64` member `key` of an object.
pub open spec fn spec_u64_field(v: JsonValue, key: Seq<char>) -> Option<u64> {
    match json_member(v, key) {
        Some(f) => spec_as_u64(f),
        None => None,
    }
}

impl JsonValue {
    /// The member named `key` of an object (as `serde_json::Value::get`).
    pub fn get(&self, key: &str) -> (res: Option<&JsonValue>)
        ensures
            match res {
                Some(f) => json_member(*self, key@) == Some(*f),
                None => json_member(*self, key@) is None,
            },
    {
        match self {
            JsonValue::Object(members) => {
                let mut i: usize = 0;
                assert(members@.subrange(0, members@.len() as int) =~= members@);
                while i < members.len()
                    invariant
                        0 <= i <= members@.len(),
                        json_member(*self, key@) == first_member(members@, key@),
                        first_member(members@, key@) == first_member(
                            members@.subrange(i as int, members@.len() as int),
                            key@,
                        ),
                    decreases members@.len() - i,
                {
                    let ghost rest = members@.subrange(i as int, members@.len() as int);
                    assert(rest[0] == members@[i as int]);
                    if str_eq(members[i].0.as_str(), key) {
                        assert(first_member(rest, key@) == Some(rest[0].1));
                        let found = &members[i].1;
                        assert(*found == members@[i as int].1);
                        return Some(found);
                    }
                    assert(rest.drop_first() =~= members@.subrange(i as int + 1, members@.len() as int));
                    i = i + 1;
                }
                None
            },
            _ => None,
        }
    }

    /// The text of a JSON string (as `serde_json::Value::as_str`).
    pub fn as_str(&self) -> (res: Option<&str>)
        ensures
            match res {
                Some(s) => spec_as_str(*self) == Some(s@),
                None => spec_as_str(*self) is None,
            },
    {
        match self {
            JsonValue::Str(s) => Some(s.as_str()),
            _ => None,
        }
    }

    /// A JSON integer that fits in an `i64` (as `serde_json::Value::as_i64`).
    pub fn as_i64(&self) -> (res: Option<i64>)
        ensures
            res == spec_as_i64(*self),
    {
        match self {
            JsonValue::Number(JsonNumber::PosInt(n)) => if *n <= i64::MAX as u64 {
                Some(*n as i64)
            } else {
                None
            },
            JsonValue::Number(JsonNumber::NegInt(n)) => Some(*n),
            _ => None,
        }
    }

    /// A non-negative JSON integer (as `serde_json::Value::as_u64`).
    pub fn as_u64(&self) -> (res: Option<u64>)
        ensures
            res == spec_as_u64(*self),
    {
        match self {
            JsonValue::Number(JsonNumber::PosInt(n)) => Some(*n),
            _ => None,
        }
    }
}

/// Converts a `serde_json::Value` into a `JsonValue`, variant for variant: a
/// number becomes `PosInt` where `as_u64` gives one, else `NegInt` where
/// `as_i64` gives one, else `Float`. Nothing is claimed of the result, the
/// argument being opaque here.
#[verifier::external_body]
pub(crate) fn json_from_serde(v: &Value) -> JsonValue {
    match v {
        Value::Null => JsonValue::Null,
        Value::Bool(b) => JsonValue::Bool(*b),
        Value::Number(n) => JsonValue::Number(match (n.as_u64(), n.as_i64()) {
            (Some(u), _) => JsonNumber::PosInt(u),
            (None, Some(i)) => JsonNumber::NegInt(i),
            (None, None) => JsonNumber::Float,
        }),
        Value::String(s) => JsonValue::Str(s.clone()),
        Value::Array(a) => JsonValue::Array(a.iter().map(json_from_serde).collect()),
        Value::Object(m) => JsonValue::Object(
            m.iter().map(|(k, f)| (k.clone(), json_from_serde(f))).collect(),
        ),
    }
}

/// The string under `key` of a JSON object, if there is one.
pub fn json_str_field(v: &JsonValue, key: &str) -> (res: Option<String>)
    ensures
        opt_view(res) == spec_str_field(*v, key@),
{
    match v.get(key) {
        Some(field) => match field.as_str() {
            Some(s) => Some(s.to_string()),
            None => None,
        },
        None => None,
    }
}

/// The signed integer under `key` of a JSON object, if there is one.
pub fn json_i64_field(v: &JsonValue, key: &str) -> (res: Option<i64>)
    ensures
        res == spec_i64_field(*v, key@),
{
    match v.get(key) {
        Some(field) => field.as_i64(),
        None => None,
    }
}

/// The unsigned integer under `key` of a JSON object, if there is one.
pub fn json_u64_field(v: &JsonValue, key: &str) -> (res: Option<u64>)
    ensures
        res == spec_u64_field(*v, key@),
{
    match v.get(key) {
        Some(field) => field.as_u64(),
        None => None,
    }
}

} // verus!
