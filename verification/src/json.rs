//! JSON values, as `serde_json` holds them.
//!
//! A `serde_json::Value` is opaque to the verifier. Its content is named by
//! [`json_of`], a value of the mathematical type [`Json`], and every operation
//! that the library performs on a `Value` is declared below with a contract
//! over that name. Those contracts are not proved: they restate what
//! `serde_json` documents.

use vstd::prelude::*;

verus! {

/// `serde_json::Value`, carried through as an opaque value.
#[verifier::external_type_specification]
#[verifier::external_body]
pub struct ExValue(serde_json::Value);

/// The content of a JSON document.
///
/// Numbers come in two sorts, as `serde_json` keeps them: integers, and
/// numbers with a fraction or an exponent. The latter are identified by the
/// bits of their binary64 form, which nothing in this library inspects.
pub enum Json {
    Null,
    Bool(bool),
    Int(int),
    Real(int),
    Str(Seq<char>),
    Arr(Seq<Json>),
    Obj(Map<Seq<char>, Json>),
}

/// The content of `v`.
pub uninterp spec fn json_of(v: serde_json::Value) -> Json;

/// What `serde_json::from_str` makes of `text`: the document's content, or the
/// message of the error it reports.
pub uninterp spec fn json_parse(text: Seq<char>) -> Result<Json, Seq<char>>;

/// What `serde_json::to_string` writes for a value with content `j`: the
/// compact text, or the message of the error it reports.
pub uninterp spec fn json_text(j: Json) -> Result<Seq<char>, Seq<char>>;

/// The member `key` of an object; `None` for a missing member and for
/// anything that is not an object.
pub open spec fn member(j: Json, key: Seq<char>) -> Option<Json> {
    match j {
        Json::Obj(m) => if m.contains_key(key) {
            Some(m[key])
        } else {
            None
        },
        _ => None,
    }
}

/// The contents of a sequence of values.
pub open spec fn json_of_all(vs: Seq<serde_json::Value>) -> Seq<Json> {
    Seq::new(vs.len(), |i: int| json_of(vs[i]))
}

/// `serde_json::from_str::<Value>`: parses `text`. On failure the error is
/// handed back as its `Display` text.
#[verifier::external_body]
pub(crate) fn parse_value(text: &str) -> (r: Result<serde_json::Value, String>)
    ensures
        match r {
            Ok(v) => json_parse(text@) == Ok::<Json, Seq<char>>(json_of(v)),
            Err(e) => json_parse(text@) == Err::<Json, Seq<char>>(e@),
        },
{
    serde_json::from_str::<serde_json::Value>(text).map_err(|e| e.to_string())
}

/// `serde_json::to_string`, on a `Value`: the compact JSON text of `v`. On
/// failure the error is handed back as its `Display` text.
#[verifier::external_body]
pub(crate) fn render_value(v: &serde_json::Value) -> (r: Result<String, String>)
    ensures
        match r {
            Ok(s) => json_text(json_of(*v)) == Ok::<Seq<char>, Seq<char>>(s@),
            Err(e) => json_text(json_of(*v)) == Err::<Seq<char>, Seq<char>>(e@),
        },
{
    serde_json::to_string(v).map_err(|e| e.to_string())
}

/// `Value::get`, with a string index: the member `key` if `v` is an object
/// that has it, `None` otherwise.
#[verifier::external_body]
pub(crate) fn value_get<'a>(v: &'a serde_json::Value, key: &str) -> (r: Option<&'a serde_json::Value>)
    ensures
        match r {
            Some(x) => member(json_of(*v), key@) == Some(json_of(*x)),
            None => member(json_of(*v), key@) is None,
        },
{
    v.get(key)
}

/// `Value::as_str`: the text of a JSON string, `None` for any other value.
#[verifier::external_body]
pub(crate) fn value_as_str<'a>(v: &'a serde_json::Value) -> (r: Option<&'a str>)
    ensures
        match r {
            Some(s) => json_of(*v) == Json::Str(s@),
            None => !(json_of(*v) is Str),
        },
{
    v.as_str()
}

/// `Value::as_u64`: the value of an integer between zero and `u64::MAX`,
/// `None` for any other value.
#[verifier::external_body]
pub(crate) fn value_as_u64(v: &serde_json::Value) -> (r: Option<u64>)
    ensures
        match r {
            Some(n) => json_of(*v) == Json::Int(n as int),
            None => !(json_of(*v) matches Json::Int(n) && 0 <= n <= u64::MAX),
        },
{
    v.as_u64()
}

/// `Value::as_i64`: the value of an integer that fits in an `i64`, `None` for
/// any other value.
#[verifier::external_body]
pub(crate) fn value_as_i64(v: &serde_json::Value) -> (r: Option<i64>)
    ensures
        match r {
            Some(n) => json_of(*v) == Json::Int(n as int),
            None => !(json_of(*v) matches Json::Int(n) && i64::MIN <= n <= i64::MAX),
        },
{
    v.as_i64()
}

/// `Value::as_bool`: the value of a JSON boolean, `None` for any other value.
#[verifier::external_body]
pub(crate) fn value_as_bool(v: &serde_json::Value) -> (r: Option<bool>)
    ensures
        match r {
            Some(b) => json_of(*v) == Json::Bool(b),
            None => !(json_of(*v) is Bool),
        },
{
    v.as_bool()
}

/// `Value::as_array`: the elements of a JSON array, `None` for any other
/// value.
#[verifier::external_body]
pub(crate) fn value_as_array<'a>(v: &'a serde_json::Value) -> (r: Option<&'a Vec<serde_json::Value>>)
    ensures
        match r {
            Some(items) => json_of(*v) == Json::Arr(json_of_all(items@)),
            None => !(json_of(*v) is Arr),
        },
{
    v.as_array()
}

/// `Value::clone`: a value with the same content.
#[verifier::external_body]
pub(crate) fn value_clone(v: &serde_json::Value) -> (r: serde_json::Value)
    ensures
        json_of(r) == json_of(*v),
{
    v.clone()
}

/// `Value::Null`.
#[verifier::external_body]
pub(crate) fn value_null() -> (r: serde_json::Value)
    ensures
        json_of(r) == Json::Null,
{
    serde_json::Value::Null
}

/// `Value::Bool`.
#[verifier::external_body]
pub(crate) fn value_bool(b: bool) -> (r: serde_json::Value)
    ensures
        json_of(r) == Json::Bool(b),
{
    serde_json::Value::Bool(b)
}

/// `Value::from`, on a `u64`: the integer `n`.
#[verifier::external_body]
pub(crate) fn value_u64(n: u64) -> (r: serde_json::Value)
    ensures
        json_of(r) == Json::Int(n as int),
{
    serde_json::Value::from(n)
}

/// `Value::from`, on an `i64`: the integer `n`.
#[verifier::external_body]
pub(crate) fn value_i64(n: i64) -> (r: serde_json::Value)
    ensures
        json_of(r) == Json::Int(n as int),
{
    serde_json::Value::from(n)
}

/// `Value::String`.
#[verifier::external_body]
pub(crate) fn value_string(s: String) -> (r: serde_json::Value)
    ensures
        json_of(r) == Json::Str(s@),
{
    serde_json::Value::String(s)
}

/// `Value::Array`.
#[verifier::external_body]
pub(crate) fn value_array(items: Vec<serde_json::Value>) -> (r: serde_json::Value)
    ensures
        json_of(r) == Json::Arr(json_of_all(items@)),
{
    serde_json::Value::Array(items)
}

/// `Value::Object`, on `Map::new()`: the object without members.
#[verifier::external_body]
pub(crate) fn empty_object() -> (r: serde_json::Value)
    ensures
        json_of(r) == Json::Obj(Map::<Seq<char>, Json>::empty()),
{
    serde_json::Value::Object(serde_json::Map::new())
}

/// `Map::insert`, on the members of the object `obj`: sets the member `key`
/// to `val`, whether or not the object had such a member.
#[verifier::external_body]
pub(crate) fn object_insert(obj: &mut serde_json::Value, key: &str, val: serde_json::Value)
    requires
        json_of(*old(obj)) is Obj,
    ensures
        json_of(*final(obj)) == Json::Obj(json_of(*old(obj))->Obj_0.insert(key@, json_of(val))),
{
    if let serde_json::Value::Object(members) = obj {
        members.insert(key.to_owned(), val);
    }
}

} // verus!
