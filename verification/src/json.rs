//! JSON documents as mathematical values, and the `serde_json` calls that the
//! crate relies on.
//!
//! Verus cannot look inside a `serde_json::Value`. What a value holds is
//! described by [`document`], and each contract in this module that speaks of
//! `serde_json` is believed, not proved: it restates what the source of
//! `serde_json` shows. `serde_json` is built with `preserve_order`, so an
//! object keeps its members in the order in which they were inserted.

use vstd::prelude::*;

verus! {

/// A JSON document.
///
/// An object is the sequence of its members in their order.
pub enum JsonValue {
    Null,
    Bool(bool),
    /// A number that `serde_json` holds as an integer.
    Integer(int),
    /// Any other number, told apart by the 64 bits of the double that stands
    /// for it.
    Real(u64),
    Text(Seq<char>),
    Array(Seq<JsonValue>),
    Object(Seq<(Seq<char>, JsonValue)>),
}

/// No two members share a key.
pub open spec fn distinct_keys<V>(members: Seq<(Seq<char>, V)>) -> bool {
    forall|i: int, j: int|
        0 <= i < j < members.len() ==> (#[trigger] members[i]).0 != (#[trigger] members[j]).0
}

#[verifier::external_type_specification]
#[verifier::external_body]
pub struct ExValue(serde_json::Value);

#[verifier::external_type_specification]
#[verifier::external_body]
pub struct ExError(serde_json::Error);

/// The document that a `serde_json::Value` holds.
pub uninterp spec fn document(v: serde_json::Value) -> JsonValue;

/// What `serde_json::from_slice` reads out of `bytes`: the document, or
/// `None` where the bytes are not exactly one JSON document.
pub uninterp spec fn parsed(bytes: Seq<u8>) -> Option<JsonValue>;

/// The text that `serde_json` writes for a document when it leaves out all
/// white space.
pub uninterp spec fn compact_text(j: JsonValue) -> Seq<char>;

/// The text that `serde_json` writes for a document when it puts every member
/// and element on a line of its own, indented by two spaces for each level.
pub uninterp spec fn pretty_text(j: JsonValue) -> Seq<char>;

/// The documents of a run of values, one for one.
pub open spec fn documents(items: Seq<serde_json::Value>) -> Seq<JsonValue> {
    Seq::new(items.len(), |i: int| document(items[i]))
}

/// The members that a run of owned key and value pairs stands for.
pub open spec fn owned_members(pairs: Seq<(String, serde_json::Value)>) -> Seq<
    (Seq<char>, JsonValue),
> {
    Seq::new(pairs.len(), |i: int| (pairs[i].0@, document(pairs[i].1)))
}

/// The members that a run of borrowed key and value pairs stands for.
pub open spec fn borrowed_members<'a>(pairs: Seq<(&'a String, &'a serde_json::Value)>) -> Seq<
    (Seq<char>, JsonValue),
> {
    Seq::new(pairs.len(), |i: int| (pairs[i].0@, document(*pairs[i].1)))
}

/// `serde_json::from_slice`, asked for a `Value`. The outcome depends on the
/// bytes alone and goes by the name [`parsed`].
#[verifier::external_body]
pub(crate) fn parse(bytes: &[u8]) -> (r: Result<serde_json::Value, serde_json::Error>)
    ensures
        r matches Ok(v) ==> parsed(bytes@) == Some(document(v)),
        r is Err ==> parsed(bytes@) is None,
{
    serde_json::from_slice::<serde_json::Value>(bytes)
}

/// `Display` for `Value`, through `to_string`: the compact text of the
/// document. `Display` hands the value to `serde_json`'s writer, which fails
/// only where its sink does, and a `String` never does.
#[verifier::external_body]
pub(crate) fn compact(v: &serde_json::Value) -> (s: String)
    ensures
        s@ == compact_text(document(*v)),
{
    v.to_string()
}

/// `Display` for `Value` in its alternate form: the pretty text of the
/// document, from the writer behind `serde_json::to_writer_pretty`. As with
/// the compact form, writing into a `String` cannot fail.
#[verifier::external_body]
pub(crate) fn pretty(v: &serde_json::Value) -> (s: String)
    ensures
        s@ == pretty_text(document(*v)),
{
    format!("{:#}", v)
}

/// `Value::from` on a `String`: the string value with that text.
#[verifier::external_body]
pub(crate) fn text_value(s: String) -> (v: serde_json::Value)
    ensures
        document(v) == JsonValue::Text(s@),
{
    serde_json::Value::from(s)
}

/// `Value::from` on a `u8`: the number, held as an integer.
#[verifier::external_body]
pub(crate) fn integer_value(n: u8) -> (v: serde_json::Value)
    ensures
        document(v) == JsonValue::Integer(n as int),
{
    serde_json::Value::from(n)
}

/// `Value::Array` on its elements.
#[verifier::external_body]
pub(crate) fn array_value(items: Vec<serde_json::Value>) -> (v: serde_json::Value)
    ensures
        document(v) == JsonValue::Array(documents(items@)),
{
    serde_json::Value::Array(items)
}

/// `Value::Object` on a `Map` collected from the pairs. With `preserve_order`
/// the map inserts them one after the other, and pairs with keys that differ
/// stay in that order.
#[verifier::external_body]
pub(crate) fn object_value(pairs: Vec<(String, serde_json::Value)>) -> (v: serde_json::Value)
    requires
        distinct_keys(owned_members(pairs@)),
    ensures
        document(v) == JsonValue::Object(owned_members(pairs@)),
{
    serde_json::Value::Object(pairs.into_iter().collect())
}

/// `Value::as_object` and then `Map::iter`: the members of an object in their
/// order, `None` for every other value. A `Map` holds each key once.
#[verifier::external_body]
pub(crate) fn object_members<'a>(v: &'a serde_json::Value) -> (r: Option<
    Vec<(&'a String, &'a serde_json::Value)>,
>)
    ensures
        match r {
            Some(pairs) => document(*v) == JsonValue::Object(borrowed_members(pairs@))
                && distinct_keys(borrowed_members(pairs@)),
            None => !(document(*v) is Object),
        },
{
    v.as_object().map(|m| m.iter().collect())
}

/// `Value::as_str`: the text of a string value, `None` for every other value.
pub assume_specification<'a>[ serde_json::Value::as_str ](v: &'a serde_json::Value) -> (r: Option<
    &'a str,
>)
    ensures
        match r {
            Some(s) => document(*v) == JsonValue::Text(s@),
            None => !(document(*v) is Text),
        },
;

/// `Value::as_array`: the elements of an array, `None` for every other value.
pub assume_specification<'a>[ serde_json::Value::as_array ](v: &'a serde_json::Value) -> (r:
    Option<&'a Vec<serde_json::Value>>)
    ensures
        match r {
            Some(items) => document(*v) == JsonValue::Array(documents(items@)),
            None => !(document(*v) is Array),
        },
;

/// `Value::as_u64`: the number where the value is an integer from 0 to
/// `u64::MAX`, `None` for every other value.
pub assume_specification[ serde_json::Value::as_u64 ](v: &serde_json::Value) -> (r: Option<u64>)
    ensures
        match r {
            Some(n) => document(*v) == JsonValue::Integer(n as int),
            None => !(document(*v) matches JsonValue::Integer(i) && 0 <= i <= u64::MAX),
        },
;

} // verus!
