//! JSON documents as the command channel sees them.
//!
//! Reading and writing JSON text is left to `serde_json`. This module gives
//! its `Value` a mathematical content, [`Json`], and states for each call into
//! the crate what it does to that content. None of these statements is proved
//! here: they are the assumptions on which the wire format's proofs rest.

use vstd::prelude::*;

verus! {

/// `serde_json::Value`, of which nothing is seen but through [`json_of`].
#[verifier::external_type_specification]
#[verifier::external_body]
pub struct ExValue(serde_json::Value);

/// `serde_json::Number`, which is only carried along.
#[verifier::external_type_specification]
#[verifier::external_body]
pub struct ExNumber(serde_json::Number);

/// `serde_json::Error`, which is only carried along.
#[verifier::external_type_specification]
#[verifier::external_body]
pub struct ExJsonError(serde_json::Error);

/// The content of a JSON document.
pub enum Json {
    Null,
    Bool(bool),
    Number(serde_json::Number),
    Text(Seq<char>),
    List(Seq<Json>),
    Object(Map<Seq<char>, Json>),
}

/// The document that a `serde_json::Value` holds. An object is taken as
/// the map from its keys to its members, without an order: `serde_json`
/// keeps the members sorted by key unless it is built to preserve their
/// order, which this crate does not ask for.
pub uninterp spec fn json_of(value: serde_json::Value) -> Json;

/// The compact JSON text that `serde_json::to_string` writes for a document,
/// or `None` if it reports an error.
pub uninterp spec fn json_text(doc: Json) -> Option<Seq<char>>;

/// The document that `serde_json::from_str` reads from a text, or `None` if
/// it rejects the text.
pub uninterp spec fn json_parse(text: Seq<char>) -> Option<Json>;

/// Whether no two of the entries share a key.
pub open spec fn distinct_keys(entries: Seq<(String, serde_json::Value)>) -> bool {
    forall|i: int, j: int|
        0 <= i < j < entries.len() ==> (#[trigger] entries[i]).0@ != (#[trigger] entries[j]).0@
}

/// The members of the object made of `entries`.
pub open spec fn members_of(entries: Seq<(String, serde_json::Value)>) -> Map<Seq<char>, Json>
    decreases entries.len(),
{
    if entries.len() == 0 {
        Map::empty()
    } else {
        members_of(entries.drop_last()).insert(entries.last().0@, json_of(entries.last().1))
    }
}

/// The documents that a list of values holds.
pub open spec fn documents_of(items: Seq<serde_json::Value>) -> Seq<Json> {
    Seq::new(items.len(), |i: int| json_of(items[i]))
}

/// Calls `serde_json::from_str` for a `Value`. Assumed: the outcome depends
/// on the text alone; on success the value holds the document read.
#[verifier::external_body]
pub(crate) fn parse(text: &str) -> (r: Result<serde_json::Value, serde_json::Error>)
    ensures
        match r {
            Ok(value) => json_parse(text@) == Some(json_of(value)),
            Err(_) => json_parse(text@) is None,
        },
{
    serde_json::from_str::<serde_json::Value>(text)
}

/// Calls `serde_json::to_string` on a `Value`. Assumed: the outcome depends
/// on the document alone, and the text written holds no line feed, since the
/// compact form has no insignificant whitespace and strings are escaped.
#[verifier::external_body]
pub(crate) fn render(value: &serde_json::Value) -> (r: Result<String, serde_json::Error>)
    ensures
        match r {
            Ok(text) => json_text(json_of(*value)) == Some(text@) && !text@.contains('\n'),
            Err(_) => json_text(json_of(*value)) is None,
        },
{
    serde_json::to_string(value)
}

/// Calls `Value::get` with a string key. Assumed: it finds the member of that
/// name if the value is an object that has one, and nothing otherwise.
#[verifier::external_body]
pub(crate) fn member<'a>(value: &'a serde_json::Value, key: &str) -> (r: Option<
    &'a serde_json::Value,
>)
    ensures
        match r {
            Some(found) => json_of(*value) matches Json::Object(members) && members.contains_key(
                key@,
            ) && json_of(*found) == members[key@],
            None => !(json_of(*value) matches Json::Object(members) && members.contains_key(key@)),
        },
{
    value.get(key)
}

/// Calls `Value::as_bool`. Assumed: it yields the boolean of a boolean
/// document and nothing for any other.
#[verifier::external_body]
pub(crate) fn as_bool(value: &serde_json::Value) -> (r: Option<bool>)
    ensures
        match r {
            Some(b) => json_of(*value) == Json::Bool(b),
            None => !(json_of(*value) is Bool),
        },
{
    value.as_bool()
}

/// Calls `Value::as_str`. Assumed: it yields the text of a string document
/// and nothing for any other.
#[verifier::external_body]
pub(crate) fn as_text<'a>(value: &'a serde_json::Value) -> (r: Option<&'a str>)
    ensures
        match r {
            Some(text) => json_of(*value) == Json::Text(text@),
            None => !(json_of(*value) is Text),
        },
{
    value.as_str()
}

/// Calls `Value::is_object`. Assumed: it tells whether the document is an
/// object.
#[verifier::external_body]
pub(crate) fn is_object(value: &serde_json::Value) -> (r: bool)
    ensures
        r == (json_of(*value) is Object),
{
    value.is_object()
}

/// Calls `Value::as_array`. Assumed: it yields the items of an array
/// document and nothing for any other.
#[verifier::external_body]
pub(crate) fn as_list<'a>(value: &'a serde_json::Value) -> (r: Option<&'a Vec<serde_json::Value>>)
    ensures
        match r {
            Some(items) => json_of(*value) == Json::List(documents_of(items@)),
            None => !(json_of(*value) is List),
        },
{
    value.as_array()
}

/// Calls `Value::is_null`. Assumed: it tells whether the document is `null`.
#[verifier::external_body]
pub(crate) fn is_null(value: &serde_json::Value) -> (r: bool)
    ensures
        r == (json_of(*value) is Null),
{
    value.is_null()
}

/// `Value::clone`. Assumed: the copy equals the value it was made of.
pub assume_specification[ <serde_json::Value as Clone>::clone ](
    value: &serde_json::Value,
) -> (r: serde_json::Value)
    ensures
        r == *value,
;

/// Makes `Value::Null`. Assumed: it holds the `null` document.
#[verifier::external_body]
pub(crate) fn null() -> (r: serde_json::Value)
    ensures
        json_of(r) == Json::Null,
{
    serde_json::Value::Null
}

/// Makes `Value::Bool`. Assumed: it holds the given boolean.
#[verifier::external_body]
pub(crate) fn boolean(b: bool) -> (r: serde_json::Value)
    ensures
        json_of(r) == Json::Bool(b),
{
    serde_json::Value::Bool(b)
}

/// Makes `Value::String`. Assumed: it holds the given text.
#[verifier::external_body]
pub(crate) fn string(s: String) -> (r: serde_json::Value)
    ensures
        json_of(r) == Json::Text(s@),
{
    serde_json::Value::String(s)
}

/// Collects entries into a `serde_json::Map` and makes `Value::Object` of it.
/// Assumed: the object has exactly the given members. Entries with equal keys
/// are left out, so that nothing rests on which of them the map would keep.
#[verifier::external_body]
pub(crate) fn object(entries: Vec<(String, serde_json::Value)>) -> (r: serde_json::Value)
    requires
        distinct_keys(entries@),
    ensures
        json_of(r) == Json::Object(members_of(entries@)),
{
    serde_json::Value::Object(entries.into_iter().collect())
}

/// Calls `serde::de::Error::custom` for a `serde_json::Error`. Nothing is
/// assumed of the error made.
#[verifier::external_body]
pub(crate) fn decode_error(message: &str) -> serde_json::Error {
    <serde_json::Error as serde::de::Error>::custom(message)
}

} // verus!
