//! JSON documents, as the resolver reads them out of `package.json` and
//! `tsconfig.json` files.
//!
//! Parsing is done by serde_json; its result is carried over into
//! [`JsonValue`], a plain recursive value the verified interpretation code
//! walks. What the parse returns for a given text is named by [`json_of`]:
//! the trusted boundary states that the whole parse is a function of the
//! text's characters alone, and everything after it is verified.

use vstd::prelude::*;

verus! {

/// A parsed JSON value. Object member order is the document's order.
/// Numeric payloads play no part in resolution and are not carried.
#[derive(PartialEq, Debug)]
pub enum JsonValue {
    Null,
    Bool(bool),
    Number,
    String(String),
    Array(Vec<JsonValue>),
    Object(Vec<(String, JsonValue)>),
}

/// A JSON syntax failure, with the position serde_json reported.
#[derive(Clone, PartialEq, Eq, Debug)]
pub struct JsonSyntaxError {
    pub line: usize,
    pub column: usize,
    pub message: String,
}

/// Declares serde_json::Value so that the parse result can pass through the
/// trusted boundary; nothing inside a value is visible to verification.
#[verifier::external_type_specification]
#[verifier::external_body]
pub struct ExJsonValue(serde_json::Value);

/// What parsing a text as JSON yields: the name of the composite result of
/// `serde_json::from_str` rendered as a [`JsonValue`]. The parse depends on
/// the characters alone, so the name is a function.
pub uninterp spec fn json_of(s: Seq<char>) -> Result<JsonValue, JsonSyntaxError>;

/// Relies on serde_json::Value being a finite tree of the six JSON value
/// shapes: renders one as the library's own value, variant for variant,
/// dropping only numeric payloads. The converting half of [`parse_json`].
#[verifier::external_body]
fn value_to_json(v: serde_json::Value) -> JsonValue {
    match v {
        serde_json::Value::Null => JsonValue::Null,
        serde_json::Value::Bool(b) => JsonValue::Bool(b),
        serde_json::Value::Number(_) => JsonValue::Number,
        serde_json::Value::String(s) => JsonValue::String(s),
        serde_json::Value::Array(a) => JsonValue::Array(a.into_iter().map(value_to_json).collect()),
        serde_json::Value::Object(o) => JsonValue::Object(
            o.into_iter().map(|(k, x)| (k, value_to_json(x))).collect(),
        ),
    }
}

/// Relies on serde_json::from_str: parsing succeeds or fails, with the line,
/// column and message of a failure, as a function of the input text alone
/// (object member order is kept as written, per the preserve_order feature).
#[verifier::external_body]
pub fn parse_json(s: &str) -> (r: Result<JsonValue, JsonSyntaxError>)
    ensures
        r == json_of(s@),
{
    match serde_json::from_str::<serde_json::Value>(s) {
        Ok(v) => Ok(value_to_json(v)),
        Err(e) => Err(
            JsonSyntaxError { line: e.line(), column: e.column(), message: e.to_string() },
        ),
    }
}

/// The value of the first member named `key`, if any.
pub open spec fn spec_obj_get(entries: Seq<(String, JsonValue)>, key: Seq<char>) -> Option<
    JsonValue,
>
    decreases entries.len(),
{
    if entries.len() == 0 {
        None
    } else if entries.first().0@ == key {
        Some(entries.first().1)
    } else {
        spec_obj_get(entries.drop_first(), key)
    }
}

/// Looks a member up by name.
pub fn obj_get<'a>(entries: &'a Vec<(String, JsonValue)>, key: &str) -> (r: Option<&'a JsonValue>)
    ensures
        match r {
            Some(v) => spec_obj_get(entries@, key@) == Some(*v),
            None => spec_obj_get(entries@, key@) is None,
        },
{
    let mut i: usize = 0;
    assert(entries@.skip(0) =~= entries@);
    while i < entries.len()
        invariant
            i <= entries@.len(),
            spec_obj_get(entries@, key@) == spec_obj_get(entries@.skip(i as int), key@),
        decreases entries@.len() - i,
    {
        proof {
            let tail = entries@.skip(i as int);
            assert(tail.first() == entries@[i as int]);
            assert(tail.drop_first() =~= entries@.skip(i as int + 1));
        }
        if crate::strutil::str_eq(entries[i].0.as_str(), key) {
            return Some(&entries[i].1);
        }
        i += 1;
    }
    assert(entries@.skip(entries@.len() as int) =~= Seq::<(String, JsonValue)>::empty());
    None
}

} // verus!
