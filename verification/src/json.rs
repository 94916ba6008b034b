//! Reading JSON documents through `serde_json`.
//!
//! A parsed document stays a `serde_json::Value`. What the contracts say of
//! it is stated over the strings that it holds, each addressed by the path of
//! object keys and array positions that leads to it.

use vstd::prelude::*;

verus! {

/// A JSON value of `serde_json`; the verifier sees nothing inside it.
#[verifier::external_type_specification]
#[verifier::external_body]
pub struct ExJsonValue(serde_json::Value);

/// The error of `serde_json`; the verifier sees nothing inside it.
#[verifier::external_type_specification]
#[verifier::external_body]
pub struct ExJsonError(serde_json::Error);

/// One step from a JSON value into one of its children.
pub enum JsonStep {
    /// The member of an object under this key.
    Key(Seq<char>),
    /// The element of an array at this position.
    Index(nat),
}

/// A path of steps from the root of a document.
pub type JsonPath = Seq<JsonStep>;

/// The strings of a JSON value: a path is in the domain exactly when
/// following it from the value, through object members and array elements
/// only, ends at a JSON string, and it is mapped to that string.
pub uninterp spec fn value_strings(v: serde_json::Value) -> Map<JsonPath, Seq<char>>;

/// The strings of the document that a text parses to, or `None` where the
/// text is not one JSON document.
pub uninterp spec fn document_strings(data: Seq<char>) -> Option<Map<JsonPath, Seq<char>>>;

/// The strings below one step: those of `strings` whose path begins with
/// `step`, with that first step taken off.
pub open spec fn strings_below(strings: Map<JsonPath, Seq<char>>, step: JsonStep) -> Map<
    JsonPath,
    Seq<char>,
> {
    Map::new(
        |p: JsonPath| strings.contains_key(seq![step] + p),
        |p: JsonPath| strings[seq![step] + p],
    )
}

/// Parses a text as one JSON document.
///
/// Trusted: calls `serde_json::from_str::<serde_json::Value>`. The contract
/// claims that parsing depends on the text alone, and names the strings of
/// the parsed document.
#[verifier::external_body]
pub(crate) fn parse_document(data: &str) -> (r: Result<serde_json::Value, serde_json::Error>)
    ensures
        r is Ok <==> document_strings(data@) is Some,
        r matches Ok(v) ==> document_strings(data@) == Some(value_strings(v)),
{
    serde_json::from_str::<serde_json::Value>(data)
}

/// The member of `v` under `key`, or JSON null where `v` is no object or
/// has no such member.
///
/// Trusted: indexes a `serde_json::Value` by a string key. The contract
/// claims that the strings of the result are those of `v` below that key;
/// JSON null holds none.
#[verifier::external_body]
pub(crate) fn member<'a>(v: &'a serde_json::Value, key: &str) -> (r: &'a serde_json::Value)
    ensures
        value_strings(*r) == strings_below(value_strings(*v), JsonStep::Key(key@)),
{
    &v[key]
}

/// The element of `v` at `index`, or JSON null where `v` is no array or is
/// too short.
///
/// Trusted: indexes a `serde_json::Value` by a position. The contract claims
/// that the strings of the result are those of `v` below that position.
#[verifier::external_body]
pub(crate) fn element<'a>(v: &'a serde_json::Value, index: usize) -> (r: &'a serde_json::Value)
    ensures
        value_strings(*r) == strings_below(value_strings(*v), JsonStep::Index(index as nat)),
{
    &v[index]
}

/// The text of `v` where it is a JSON string.
///
/// Trusted: calls `serde_json::Value::as_str`. The contract claims that the
/// result is the string at the empty path, if the value has one.
#[verifier::external_body]
pub(crate) fn text_of<'a>(v: &'a serde_json::Value) -> (r: Option<&'a str>)
    ensures
        r is Some <==> value_strings(*v).contains_key(Seq::<JsonStep>::empty()),
        r matches Some(s) ==> s@ == value_strings(*v)[Seq::<JsonStep>::empty()],
{
    v.as_str()
}

} // verus!
