//! A plain model of JSON values, with parsing and pretty-printing done by
//! `serde_json`.

use vstd::prelude::*;
use crate::text::str_eq;

verus! {

/// `serde_json`'s number type, carried through unread.
#[verifier::external_type_specification]
#[verifier::external_body]
pub struct ExJsonNumber(serde_json::Number);

/// `serde_json`'s value type, seen only by the conversions below.
#[verifier::external_type_specification]
#[verifier::external_body]
pub struct ExJsonSerdeValue(serde_json::Value);

/// A JSON value. Object members keep the order in which the parser gave them.
#[derive(Debug)]
pub enum JsonValue {
    Null,
    Bool(bool),
    Number(serde_json::Number),
    Str(String),
    Array(Vec<JsonValue>),
    Object(Vec<(String, JsonValue)>),
}

/// What `serde_json::from_str::<serde_json::Value>` gives for a text:
/// `None` when the text is not one JSON value.
pub uninterp spec fn spec_parse_json(text: Seq<char>) -> Option<JsonValue>;

/// What `serde_json::to_string_pretty` gives for a value: `None` on a
/// serialisation error.
pub uninterp spec fn spec_pretty_json(v: JsonValue) -> Option<Seq<char>>;

/// Turns a `serde_json` value into the plain model, one node for one node.
#[verifier::external_body]
fn from_serde(v: serde_json::Value) -> JsonValue {
    match v {
        serde_json::Value::Null => JsonValue::Null,
        serde_json::Value::Bool(b) => JsonValue::Bool(b),
        serde_json::Value::Number(n) => JsonValue::Number(n),
        serde_json::Value::String(s) => JsonValue::Str(s),
        serde_json::Value::Array(a) => JsonValue::Array(a.into_iter().map(from_serde).collect()),
        serde_json::Value::Object(o) => JsonValue::Object(
            o.into_iter().map(|(k, x)| (k, from_serde(x))).collect(),
        ),
    }
}

/// Turns the plain model back into a `serde_json` value, one node for one node.
#[verifier::external_body]
fn to_serde(v: &JsonValue) -> serde_json::Value {
    match v {
        JsonValue::Null => serde_json::Value::Null,
        JsonValue::Bool(b) => serde_json::Value::Bool(*b),
        JsonValue::Number(n) => serde_json::Value::Number(n.clone()),
        JsonValue::Str(s) => serde_json::Value::String(s.clone()),
        JsonValue::Array(a) => serde_json::Value::Array(a.iter().map(to_serde).collect()),
        JsonValue::Object(o) => serde_json::Value::Object(
            o.iter().map(|(k, x)| (k.clone(), to_serde(x))).collect(),
        ),
    }
}

/// Calls `serde_json::from_str::<serde_json::Value>`; its result is named
/// `spec_parse_json` of the text. Nothing more is claimed of the parser.
#[verifier::external_body]
fn parse_json(text: &str) -> (r: Option<JsonValue>)
    ensures
        r == spec_parse_json(text@),
{
    match serde_json::from_str::<serde_json::Value>(text) {
        Ok(v) => Some(from_serde(v)),
        Err(_) => None,
    }
}

/// Calls `serde_json::to_string_pretty` on the value; its result is named
/// `spec_pretty_json` of the value. Beyond that, only what `serde_json`'s
/// pretty formatter plainly does is claimed: an empty array prints as `[]`.
#[verifier::external_body]
fn pretty_json(v: &JsonValue) -> (r: Option<String>)
    ensures
        r.deep_view() == spec_pretty_json(*v),
        (*v matches JsonValue::Array(items) && items@.len() == 0) ==> r.deep_view() == Some(
            "[]"@,
        ),
{
    match serde_json::to_string_pretty(&to_serde(v)) {
        Ok(s) => Some(s),
        Err(_) => None,
    }
}

/// The value of the first member named `key` among `members`.
pub open spec fn assoc(members: Seq<(String, JsonValue)>, key: Seq<char>) -> Option<JsonValue>
    decreases members.len(),
{
    if members.len() == 0 {
        None
    } else if members[0].0@ == key {
        Some(members[0].1)
    } else {
        assoc(members.drop_first(), key)
    }
}

/// Member lookup: the member `key` of an object; nothing for other values.
pub open spec fn spec_get(v: JsonValue, key: Seq<char>) -> Option<JsonValue> {
    match v {
        JsonValue::Object(members) => assoc(members@, key),
        _ => None,
    }
}

/// `spec_get` through an optional value.
pub open spec fn spec_get_opt(v: Option<JsonValue>, key: Seq<char>) -> Option<JsonValue> {
    match v {
        Some(x) => spec_get(x, key),
        None => None,
    }
}

/// The characters of a string value; nothing for other values.
pub open spec fn spec_as_str(v: Option<JsonValue>) -> Option<Seq<char>> {
    match v {
        Some(JsonValue::Str(s)) => Some(s@),
        _ => None,
    }
}

impl JsonValue {
    /// Parses one JSON value from `text` (`None` when it is not valid JSON).
    pub fn parse(text: &str) -> (r: Option<JsonValue>)
        ensures
            r == spec_parse_json(text@),
    {
        parse_json(text)
    }

    /// Pretty-prints the value as JSON text (`None` on a serialisation error).
    pub(crate) fn to_pretty(&self) -> (r: Option<String>)
        ensures
            r.deep_view() == spec_pretty_json(*self),
            (*self matches JsonValue::Array(items) && items@.len() == 0) ==> r.deep_view() == Some(
                "[]"@,
            ),
    {
        pretty_json(self)
    }

    /// The member `key` of an object; `None` for a missing member or a value
    /// that is not an object.
    pub fn get<'a>(&'a self, key: &str) -> (r: Option<&'a JsonValue>)
        ensures
            match r {
                Some(x) => spec_get(*self, key@) == Some(*x),
                None => spec_get(*self, key@) is None,
            },
    {
        match self {
            JsonValue::Object(members) => {
                let mut i: usize = 0;
                assert(members@.skip(0) =~= members@);
                while i < members.len()
                    invariant
                        i <= members@.len(),
                        spec_get(*self, key@) == assoc(members@, key@),
                        assoc(members@, key@) == assoc(members@.skip(i as int), key@),
                    decreases members@.len() - i,
                {
                    assert(members@.skip(i as int)[0] == members@[i as int]);
                    if str_eq(members[i].0.as_str(), key) {
                        assert(assoc(members@.skip(i as int), key@) == Some(members@[i as int].1));
                        return Some(&members[i].1);
                    }
                    assert(members@.skip(i as int).drop_first() =~= members@.skip(i as int + 1));
                    i = i + 1;
                }
                None
            },
            _ => None,
        }
    }

    /// The string held by a string value.
    pub fn as_str<'a>(&'a self) -> (r: Option<&'a str>)
        ensures
            match r {
                Some(s) => spec_as_str(Some(*self)) == Some(s@),
                None => spec_as_str(Some(*self)) is None,
            },
    {
        match self {
            JsonValue::Str(s) => Some(s.as_str()),
            _ => None,
        }
    }
}

} // verus!
