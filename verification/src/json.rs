//! JSON documents as plain values, and reading fields out of them.

use vstd::prelude::*;
use crate::text::str_equals;

verus! {

/// A JSON value. A number carries what it reads as: an unsigned integer when it
/// is one, and the bit pattern of its `f64` reading (`f64::to_bits`). An
/// object's members keep the order the decoder lists them in.
#[derive(Debug, PartialEq, Eq)]
pub enum JsonValue {
    Null,
    Bool(bool),
    Number { as_u64: Option<u64>, f64_bits: Option<u64> },
    String(String),
    Array(Vec<JsonValue>),
    Object(Vec<(String, JsonValue)>),
}

/// The JSON value that `text` decodes to, if it is a JSON document.
pub uninterp spec fn json_value_of(text: Seq<char>) -> Option<JsonValue>;

/// The outside JSON value type, carried opaquely.
#[verifier::external_type_specification]
#[verifier::external_body]
pub struct ExSerdeJsonValue(serde_json::Value);

/// Decodes a JSON document; none when `text` is not one.
///
/// Trusted: calls `serde_json::from_str` into `serde_json::Value` and converts
/// the result one for one into a [`JsonValue`]. The contract names the result:
/// the same text always decodes to the same value.
#[verifier::external_body]
pub fn decode_json(text: &str) -> (r: Option<JsonValue>)
    ensures
        r == json_value_of(text@),
{
    match serde_json::from_str::<serde_json::Value>(text) {
        Ok(v) => Some(json_value_from_serde(v)),
        Err(_) => None,
    }
}

/// Converts an outside JSON value into a [`JsonValue`], variant for variant.
///
/// Trusted: part of the conversion in [`decode_json`]; it reads numbers with
/// `serde_json::Number::as_u64` and `as_f64` and says nothing of its result.
#[verifier::external_body]
fn json_value_from_serde(v: serde_json::Value) -> JsonValue {
    match v {
        serde_json::Value::Null => JsonValue::Null,
        serde_json::Value::Bool(b) => JsonValue::Bool(b),
        serde_json::Value::Number(n) => JsonValue::Number {
            as_u64: n.as_u64(),
            f64_bits: match n.as_f64() {
                Some(x) => Some(x.to_bits()),
                None => None,
            },
        },
        serde_json::Value::String(s) => JsonValue::String(s),
        serde_json::Value::Array(a) => JsonValue::Array(a.into_iter().map(json_value_from_serde).collect()),
        serde_json::Value::Object(m) => JsonValue::Object(m.into_iter().map(|(k, v)| (k, json_value_from_serde(v))).collect()),
    }
}

/// The value of the first member named `key` among `members`.
pub open spec fn member_value(members: Seq<(String, JsonValue)>, key: Seq<char>) -> Option<JsonValue>
    decreases members.len(),
{
    if members.len() == 0 {
        None
    } else if members[0].0@ == key {
        Some(members[0].1)
    } else {
        member_value(members.drop_first(), key)
    }
}

/// The value an optional reference points to.
pub open spec fn deref_opt(v: Option<&JsonValue>) -> Option<JsonValue> {
    match v {
        Some(y) => Some(*y),
        None => None,
    }
}

/// The member `key` of an object, if `v` is an object holding one.
#[verifier::opaque]
pub open spec fn spec_get(v: Option<JsonValue>, key: Seq<char>) -> Option<JsonValue> {
    match v {
        Some(JsonValue::Object(members)) => member_value(members@, key),
        _ => None,
    }
}

/// The string `v` holds, if it is a string.
pub open spec fn spec_as_string(v: Option<JsonValue>) -> Option<String> {
    match v {
        Some(JsonValue::String(s)) => Some(s),
        _ => None,
    }
}

/// The boolean `v` holds, if it is one.
pub open spec fn spec_as_bool(v: Option<JsonValue>) -> Option<bool> {
    match v {
        Some(JsonValue::Bool(b)) => Some(b),
        _ => None,
    }
}

/// The unsigned integer `v` reads as, if it is a number that is one.
pub open spec fn spec_as_u64(v: Option<JsonValue>) -> Option<u64> {
    match v {
        Some(JsonValue::Number { as_u64, .. }) => as_u64,
        _ => None,
    }
}

/// The `f64` bits `v` reads as, if it is a number.
pub open spec fn spec_as_f64_bits(v: Option<JsonValue>) -> Option<u64> {
    match v {
        Some(JsonValue::Number { f64_bits, .. }) => f64_bits,
        _ => None,
    }
}

/// The length of `v`, if it is an array.
pub open spec fn spec_array_len(v: Option<JsonValue>) -> Option<usize> {
    match v {
        Some(JsonValue::Array(a)) => Some(a@.len() as usize),
        _ => None,
    }
}

/// The member `key` of `v`, if `v` is an object holding one.
pub fn json_get<'a>(v: Option<&'a JsonValue>, key: &str) -> (r: Option<&'a JsonValue>)
    ensures
        match r {
            Some(x) => spec_get(deref_opt(v), key@) == Some(*x),
            None => spec_get(deref_opt(v), key@) is None,
        },
{
    reveal(spec_get);
    let members = match v {
        Some(JsonValue::Object(members)) => members,
        _ => return None,
    };
    let n = members.len();
    let mut i: usize = 0;
    assert(members@.subrange(0, n as int) =~= members@);
    while i < n
        invariant
            n == members@.len(),
            i <= n,
            member_value(members@, key@) == member_value(members@.subrange(i as int, n as int), key@),
            spec_get(deref_opt(v), key@) == member_value(members@, key@),
        decreases n - i,
    {
        assert(members@.subrange(i as int, n as int).drop_first() =~= members@.subrange(i + 1, n as int));
        if str_equals(members[i].0.as_str(), key) {
            assert(members@.subrange(i as int, n as int)[0] == members@[i as int]);
            return Some(&members[i].1);
        }
        i = i + 1;
    }
    None
}

/// The string `v` holds, if it is a string.
pub fn json_as_string(v: Option<&JsonValue>) -> (r: Option<String>)
    ensures
        r == spec_as_string(deref_opt(v)),
{
    match v {
        Some(JsonValue::String(s)) => Some(s.clone()),
        _ => None,
    }
}

/// The boolean `v` holds, if it is one.
pub fn json_as_bool(v: Option<&JsonValue>) -> (r: Option<bool>)
    ensures
        r == spec_as_bool(deref_opt(v)),
{
    match v {
        Some(JsonValue::Bool(b)) => Some(*b),
        _ => None,
    }
}

/// The unsigned integer `v` reads as, if any.
pub fn json_as_u64(v: Option<&JsonValue>) -> (r: Option<u64>)
    ensures
        r == spec_as_u64(deref_opt(v)),
{
    match v {
        Some(JsonValue::Number { as_u64, .. }) => *as_u64,
        _ => None,
    }
}

/// The `f64` bits `v` reads as, if it is a number.
pub fn json_as_f64_bits(v: Option<&JsonValue>) -> (r: Option<u64>)
    ensures
        r == spec_as_f64_bits(deref_opt(v)),
{
    match v {
        Some(JsonValue::Number { f64_bits, .. }) => *f64_bits,
        _ => None,
    }
}

/// The length of `v`, if it is an array.
pub fn json_array_len(v: Option<&JsonValue>) -> (r: Option<usize>)
    ensures
        r == spec_array_len(deref_opt(v)),
{
    match v {
        Some(JsonValue::Array(a)) => Some(a.len()),
        _ => None,
    }
}

} // verus!
