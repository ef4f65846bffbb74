//! JSON documents as plain values, read with serde_json, and the lookups
//! that `serde_json::Value` offers on them.
use vstd::prelude::*;
use crate::text::{owned, same_text};

verus! {

broadcast use vstd::string::group_string_axioms;

/// A JSON value. A number is kept as the text serde_json writes for it; an
/// object keeps its members in serde_json's order, each key once.
#[derive(Debug)]
pub enum JsonValue {
    Null,
    Bool(bool),
    Number(String),
    String(String),
    Array(Vec<JsonValue>),
    Object(Vec<(String, JsonValue)>),
}

/// The name of what reading a text as JSON gives: the document, or `None`
/// when the text is not JSON. Parsing takes pages to write out.
pub uninterp spec fn json_parse(text: Seq<char>) -> Option<JsonValue>;

/// serde_json's own JSON value, carried through opaquely.
#[verifier::external_type_specification]
#[verifier::external_body]
pub struct ExSerdeValue(serde_json::Value);

/// A `serde_json::Value` as a `JsonValue`, variant for variant.
#[verifier::external_body]
fn json_of(v: serde_json::Value) -> JsonValue {
    match v {
        serde_json::Value::Null => JsonValue::Null,
        serde_json::Value::Bool(b) => JsonValue::Bool(b),
        serde_json::Value::Number(n) => JsonValue::Number(n.to_string()),
        serde_json::Value::String(s) => JsonValue::String(s),
        serde_json::Value::Array(a) => JsonValue::Array(a.into_iter().map(json_of).collect()),
        serde_json::Value::Object(m) => JsonValue::Object(m.into_iter().map(|(k, x)| (k, json_of(x))).collect()),
    }
}

/// Reads a text as JSON with `serde_json::from_str` into a
/// `serde_json::Value`, given back as a `JsonValue`. What it gives is named,
/// not stated.
#[verifier::external_body]
pub(crate) fn parse_json(text: &str) -> (r: Option<JsonValue>)
    ensures
        r == json_parse(text@),
{
    serde_json::from_str::<serde_json::Value>(text).ok().map(json_of)
}

/// The value of the first member named `key` among `members[i..]`.
pub open spec fn member_from(members: Seq<(String, JsonValue)>, key: Seq<char>, i: int) -> Option<JsonValue>
    decreases members.len() - i,
{
    if i < 0 || i >= members.len() {
        None
    } else if members[i].0@ == key {
        Some(members[i].1)
    } else {
        member_from(members, key, i + 1)
    }
}

/// The member `key` of an object; `None` for a missing member or a value
/// that is no object.
pub open spec fn member_spec(v: JsonValue, key: Seq<char>) -> Option<JsonValue> {
    match v {
        JsonValue::Object(m) => member_from(m@, key, 0),
        _ => None,
    }
}

/// What indexing a value by `key` gives (`value[key]`): the member, or null.
pub open spec fn index_spec(v: JsonValue, key: Seq<char>) -> JsonValue {
    match member_spec(v, key) {
        Some(x) => x,
        None => JsonValue::Null,
    }
}

/// The text of a string value (`Value::as_str`).
pub open spec fn as_str_spec(v: JsonValue) -> Option<Seq<char>> {
    match v {
        JsonValue::String(s) => Some(s@),
        _ => None,
    }
}

/// The elements of an array value (`Value::as_array`).
pub open spec fn as_array_spec(v: JsonValue) -> Option<Seq<JsonValue>> {
    match v {
        JsonValue::Array(a) => Some(a@),
        _ => None,
    }
}

/// The member `key` of an object.
pub fn member<'a>(v: &'a JsonValue, key: &str) -> (r: Option<&'a JsonValue>)
    ensures
        match r {
            Some(x) => member_spec(*v, key@) == Some(*x),
            None => member_spec(*v, key@) is None,
        },
{
    match v {
        JsonValue::Object(m) => {
            let n = m.len();
            let mut i: usize = 0;
            while i < n
                invariant
                    n == m@.len(),
                    i <= n,
                    member_spec(*v, key@) == member_from(m@, key@, 0),
                    member_from(m@, key@, 0) == member_from(m@, key@, i as int),
                decreases n - i,
            {
                if same_text(m[i].0.as_str(), key) {
                    assert(member_from(m@, key@, i as int) == Some(m@[i as int].1));
                    return Some(&m[i].1);
                }
                i = i + 1;
            }
            None
        },
        _ => None,
    }
}

/// The text of a string value, if it is one.
pub fn as_str(v: Option<&JsonValue>) -> (r: Option<String>)
    ensures
        match v {
            Some(x) => match r {
                Some(s) => as_str_spec(*x) == Some(s@),
                None => as_str_spec(*x) is None,
            },
            None => r is None,
        },
{
    match v {
        Some(JsonValue::String(s)) => Some(owned(s.as_str())),
        _ => None,
    }
}

} // verus!
