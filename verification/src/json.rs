//! The part of a JSON document that the probes read, and the JSON parser
//! that produces it.

use vstd::prelude::*;
use crate::text::str_equal;

verus! {

/// A JSON value as the probes see it: numbers are kept only as such, since
/// nothing here reads them; an object keeps its members in the order
/// serde_json's map holds them (sorted by key), each key once.
#[derive(Debug)]
pub enum JsonValue {
    Null,
    Bool(bool),
    Number,
    Str(String),
    Array(Vec<JsonValue>),
    Object(Vec<(String, JsonValue)>),
}

/// The value of the first member of `members` whose key is `key`.
pub open spec fn lookup(members: Seq<(String, JsonValue)>, key: Seq<char>) -> Option<JsonValue>
    decreases members.len(),
{
    if members.len() == 0 {
        None
    } else if members[0].0@ == key {
        Some(members[0].1)
    } else {
        lookup(members.drop_first(), key)
    }
}

/// `v[key]` when `v` is an object with that member (`serde_json::Value::get`
/// with a string key); nothing otherwise.
pub open spec fn json_get(v: JsonValue, key: Seq<char>) -> Option<JsonValue> {
    match v {
        JsonValue::Object(members) => lookup(members@, key),
        _ => None,
    }
}

/// The member `key` of `v`, if `v` is an object that has it.
pub fn get<'a>(v: &'a JsonValue, key: &str) -> (r: Option<&'a JsonValue>)
    ensures
        r is Some <==> json_get(*v, key@) is Some,
        r matches Some(x) ==> json_get(*v, key@) == Some(*x),
{
    match v {
        JsonValue::Object(members) => {
            let mut i: usize = 0;
            assert(members@.skip(0) =~= members@);
            while i < members.len()
                invariant
                    i <= members.len(),
                    json_get(*v, key@) == lookup(members@, key@),
                    lookup(members@, key@) == lookup(members@.skip(i as int), key@),
                decreases members.len() - i,
            {
                assert(members@.skip(i as int)[0] == members@[i as int]);
                assert(members@.skip(i as int).drop_first() =~= members@.skip(i + 1));
                if str_equal(members[i].0.as_str(), key) {
                    assert(lookup(members@.skip(i as int), key@) == Some(members@[i as int].1));
                    return Some(&members[i].1);
                }
                i = i + 1;
            }
            assert(members@.skip(i as int) =~= Seq::<(String, JsonValue)>::empty());
            None
        },
        _ => None,
    }
}

/// A value of the outside JSON library, carried through unread.
#[verifier::external_type_specification]
#[verifier::external_body]
pub struct ExSerdeJsonValue(serde_json::Value);

/// What serde_json makes of the text `text`, as the library's model; nothing
/// when the text is not JSON.
pub uninterp spec fn json_text_value(text: Seq<char>) -> Option<JsonValue>;

/// What serde_json makes of the bytes `bytes`, as the library's model;
/// nothing when they are not UTF-8 JSON.
pub uninterp spec fn json_bytes_value(bytes: Seq<u8>) -> Option<JsonValue>;

/// A serde_json value in the library's model: each variant to its
/// counterpart, array elements in order, object members in the order
/// serde_json's map holds them (sorted by key),
/// numbers without their value. Nothing is claimed of it: it only serves
/// the two parse wrappers below.
#[verifier::external_body]
fn model_of(v: serde_json::Value) -> JsonValue {
    match v {
        serde_json::Value::Null => JsonValue::Null,
        serde_json::Value::Bool(b) => JsonValue::Bool(b),
        serde_json::Value::Number(_) => JsonValue::Number,
        serde_json::Value::String(s) => JsonValue::Str(s),
        serde_json::Value::Array(a) => JsonValue::Array(a.into_iter().map(model_of).collect()),
        serde_json::Value::Object(m) => JsonValue::Object(
            m.into_iter().map(|(k, x)| (k, model_of(x))).collect(),
        ),
    }
}

/// `serde_json::from_str::<serde_json::Value>`: the parse of `text`, or
/// nothing on a syntax error. Claimed: the result depends on the text alone.
#[verifier::external_body]
pub(crate) fn parse_json_text(text: &str) -> (r: Option<JsonValue>)
    ensures
        r == json_text_value(text@),
{
    serde_json::from_str::<serde_json::Value>(text).ok().map(model_of)
}

/// `serde_json::from_slice::<serde_json::Value>`: the parse of `bytes`, or
/// nothing when they are not UTF-8 JSON. Claimed: the result depends on the
/// bytes alone.
#[verifier::external_body]
pub(crate) fn parse_json_bytes(bytes: &[u8]) -> (r: Option<JsonValue>)
    ensures
        r == json_bytes_value(bytes@),
{
    serde_json::from_slice::<serde_json::Value>(bytes).ok().map(model_of)
}

} // verus!
