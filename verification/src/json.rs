//! JSON values, held and parsed by `serde_json`.
//!
//! Nothing here is proved: each item states what `serde_json` does, and the
//! rest of the library is proved against that.

use vstd::prelude::*;

verus! {

/// A JSON value, as `serde_json` holds it.
#[verifier::external_type_specification]
#[verifier::external_body]
pub struct ExJsonValue(serde_json::Value);

/// The error that `serde_json` reports for a text it cannot read.
#[verifier::external_type_specification]
#[verifier::external_body]
pub struct ExJsonError(serde_json::Error);

/// `Clone` of `serde_json::Value` (derived there), used by the derived
/// `Clone` of the types that hold one.  Trusted to return; nothing is
/// stated of the copy.
pub assume_specification[ <serde_json::Value as std::clone::Clone>::clone ](
    v: &serde_json::Value,
) -> serde_json::Value;

/// The JSON number that `text` spells, as `serde_json::Number::from_str`
/// reads it (`None` where it spells none), wrapped as `Value::Number`.
pub uninterp spec fn json_number_from_text(text: Seq<char>) -> Option<serde_json::Value>;

/// The JSON string `Value::String` holding `text`.
pub uninterp spec fn json_string(text: Seq<char>) -> serde_json::Value;

/// The JSON number `Value::from(n)` for an unsigned integer `n`.
pub uninterp spec fn json_u64(n: u64) -> serde_json::Value;

/// The JSON boolean `Value::from(b)`.
pub uninterp spec fn json_bool(b: bool) -> serde_json::Value;

/// The JSON object that `serde_json::Map` collected from `entries` holds,
/// wrapped as `Value::Object`.
pub uninterp spec fn json_object_of(entries: Seq<(Seq<char>, serde_json::Value)>) -> serde_json::Value;

/// The entries of a list of key-value pairs, keys as text.
pub open spec fn entries_view(entries: Seq<(String, serde_json::Value)>) -> Seq<(Seq<char>, serde_json::Value)> {
    entries.map_values(|e: (String, serde_json::Value)| (e.0@, e.1))
}

/// The JSON value of a list of command triples spelled by `text`: what
/// `serde_json::from_str::<Vec<(u8, u64, Value)>>` reads, written back with
/// `serde_json::to_value` (`None` where either step fails).
pub uninterp spec fn json_command_list_from_text(text: Seq<char>) -> Option<serde_json::Value>;

/// Reads `text` with `serde_json::Number::from_str` and wraps the number as
/// `serde_json::Value::Number`.
///
/// Trusted: an error exactly when `json_number_from_text` has none, and
/// otherwise the value it names.
#[verifier::external_body]
pub(crate) fn json_number(text: &str) -> (res: Result<serde_json::Value, serde_json::Error>)
    ensures
        res is Ok <==> json_number_from_text(text@) is Some,
        res matches Ok(v) ==> json_number_from_text(text@) == Some(v),
{
    Ok(serde_json::Value::Number(text.parse::<serde_json::Number>()?))
}

/// Wraps `text` as `serde_json::Value::String`.
///
/// Trusted: the value that `json_string` names.
#[verifier::external_body]
pub(crate) fn json_text(text: &str) -> (res: serde_json::Value)
    ensures
        res == json_string(text@),
{
    serde_json::Value::String(text.to_string())
}

/// Makes the JSON number `n` with `serde_json::Value::from`.
///
/// Trusted: the value that `json_u64` names.
#[verifier::external_body]
pub(crate) fn json_from_u64(n: u64) -> (res: serde_json::Value)
    ensures
        res == json_u64(n),
{
    serde_json::Value::from(n)
}

/// Makes the JSON boolean `b` with `serde_json::Value::from`.
///
/// Trusted: the value that `json_bool` names.
#[verifier::external_body]
pub(crate) fn json_from_bool(b: bool) -> (res: serde_json::Value)
    ensures
        res == json_bool(b),
{
    serde_json::Value::from(b)
}

/// Reads `v` as an unsigned integer with `serde_json::Value::as_u64`.
///
/// Trusted: `Some(n)` exactly when `v` is the JSON number `n` that
/// `json_u64` names (`as_u64` gives the number held as a non-negative
/// integer, and `Value::from(n)` holds `n` so); `None` for any other value.
#[verifier::external_body]
pub(crate) fn json_as_u64(v: &serde_json::Value) -> (res: Option<u64>)
    ensures
        forall|n: u64| res == Some(n) <==> *v == json_u64(n),
{
    v.as_u64()
}

/// Collects `entries` into a `serde_json::Map` and wraps it as
/// `serde_json::Value::Object`.
///
/// Trusted: the value that `json_object_of` names.
#[verifier::external_body]
pub(crate) fn json_object(entries: Vec<(String, serde_json::Value)>) -> (res: serde_json::Value)
    ensures
        res == json_object_of(entries_view(entries@)),
{
    serde_json::Value::Object(entries.into_iter().collect())
}

/// Reads `text` as a JSON list of command triples with
/// `serde_json::from_str` and turns it back into a value with
/// `serde_json::to_value`.
///
/// Trusted: an error exactly when `json_command_list_from_text` has none,
/// and otherwise the value it names.
#[verifier::external_body]
pub(crate) fn json_command_list(text: &str) -> (res: Result<serde_json::Value, serde_json::Error>)
    ensures
        res is Ok <==> json_command_list_from_text(text@) is Some,
        res matches Ok(v) ==> json_command_list_from_text(text@) == Some(v),
{
    let triples: Vec<(u8, u64, serde_json::Value)> = serde_json::from_str(text)?;
    serde_json::to_value(triples)
}

} // verus!
