//! A JSON document tree, and the text parser that produces it.
use vstd::prelude::*;
use crate::error::Found;

verus! {

/// One JSON value. Numbers keep their decimal text; objects keep their
/// entries in the order in which the parser handed them over.
#[derive(Debug, PartialEq)]
pub enum Json {
    Null,
    Bool(bool),
    Number(String),
    Str(String),
    Array(Vec<Json>),
    Object(Vec<(String, Json)>),
}

/// The parser's own document tree, carried only from the parse to `from_value`.
#[verifier::external_type_specification]
#[verifier::external_body]
pub struct ExValue(serde_json::Value);

/// The document that the JSON parser builds from a text, or `None` where the
/// parser refuses the text (it is not one well-formed JSON document, or it
/// goes beyond the parser's own limits, such as its nesting depth).
pub uninterp spec fn parsed(text: Seq<char>) -> Option<Json>;

/// Relies on `serde_json::from_str` (into `serde_json::Value`): it parses the
/// whole text as one JSON document, and its answer depends on the text alone.
#[verifier::external_body]
pub(crate) fn parse_json(text: &str) -> (r: Result<Json, String>)
    ensures
        match r {
            Ok(j) => parsed(text@) == Some(j),
            Err(_) => parsed(text@) is None,
        },
{
    match serde_json::from_str::<serde_json::Value>(text) {
        Ok(v) => Ok(from_value(v)),
        Err(e) => Err(e.to_string()),
    }
}

/// Moves a `serde_json::Value` into the tree of this crate, node for node;
/// `parse_json`'s contract covers the two steps together.
#[verifier::external_body]
fn from_value(v: serde_json::Value) -> Json {
    match v {
        serde_json::Value::Null => Json::Null,
        serde_json::Value::Bool(b) => Json::Bool(b),
        serde_json::Value::Number(n) => Json::Number(n.to_string()),
        serde_json::Value::String(s) => Json::Str(s),
        serde_json::Value::Array(a) => Json::Array(a.into_iter().map(from_value).collect()),
        serde_json::Value::Object(m) => Json::Object(m.into_iter().map(|(k, x)| (k, from_value(x))).collect()),
    }
}

/// The value of the first entry whose key is `key`.
pub open spec fn lookup(es: Seq<(String, Json)>, key: Seq<char>) -> Option<Json>
    decreases es.len(),
{
    if es.len() == 0 {
        None
    } else if es[0].0@ == key {
        Some(es[0].1)
    } else {
        lookup(es.drop_first(), key)
    }
}

/// A shallow copy of a value, for error reports.
pub open spec fn found_of(j: Json) -> Found {
    match j {
        Json::Null => Found::Null,
        Json::Bool(b) => Found::Bool(b),
        Json::Number(t) => Found::Number(t),
        Json::Str(s) => Found::Str(s),
        Json::Array(a) => Found::Array(a@.len() as usize),
        Json::Object(o) => Found::Object(o@.len() as usize),
    }
}

impl Json {
    /// This value as an error report shows it: a scalar in full, an array or
    /// object by its size.
    pub fn found(&self) -> (r: Found)
        ensures
            r == found_of(*self),
    {
        match self {
            Json::Null => Found::Null,
            Json::Bool(b) => Found::Bool(*b),
            Json::Number(t) => Found::Number(t.clone()),
            Json::Str(s) => Found::Str(s.clone()),
            Json::Array(a) => Found::Array(a.len()),
            Json::Object(o) => Found::Object(o.len()),
        }
    }
}

/// Character-wise equality of two strings.
pub fn str_eq(a: &str, b: &str) -> (r: bool)
    ensures
        r == (a@ == b@),
{
    let n = a.unicode_len();
    if n != b.unicode_len() {
        return false;
    }
    let mut i: usize = 0;
    while i < n
        invariant
            n == a@.len(),
            n == b@.len(),
            i <= n,
            forall|k: int| 0 <= k < i ==> a@[k] == b@[k],
        decreases n - i,
    {
        if a.get_char(i) != b.get_char(i) {
            return false;
        }
        i = i + 1;
    }
    assert(a@ =~= b@);
    true
}

/// The first entry of `es` whose key is `key`.
pub fn get_field<'a>(es: &'a Vec<(String, Json)>, key: &str) -> (r: Option<&'a Json>)
    ensures
        match r {
            Some(j) => lookup(es@, key@) == Some(*j),
            None => lookup(es@, key@) is None,
        },
{
    let mut i: usize = 0;
    assert(es@.subrange(0, es@.len() as int) =~= es@);
    while i < es.len()
        invariant
            i <= es@.len(),
            lookup(es@, key@) == lookup(es@.subrange(i as int, es@.len() as int), key@),
        decreases es.len() - i,
    {
        let ghost rest = es@.subrange(i as int, es@.len() as int);
        assert(rest.drop_first() =~= es@.subrange(i + 1, es@.len() as int));
        if str_eq(es[i].0.as_str(), key) {
            return Some(&es[i].1);
        }
        i = i + 1;
    }
    None
}

} // verus!
