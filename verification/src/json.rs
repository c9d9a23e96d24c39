//! The boundary to `serde_json`: JSON text is parsed, inspected and printed by
//! that crate, and everything stated about it here is believed, not proved.
//!
//! A `serde_json::Value` is opaque to the verifier. What it holds has a name,
//! `model`, and so has each result that takes pages to describe: what the
//! parser makes of a text, what the printers write for a value, and how an
//! error is worded. Each function below makes one call into `serde_json` and
//! says over those names what the call returns.

use vstd::prelude::*;

verus! {

/// `serde_json::Value`: one JSON value of any kind. Nothing inside it is
/// visible to the verifier.
#[verifier::external_type_specification]
#[verifier::external_body]
pub struct ExValue(serde_json::Value);

/// `serde_json::Error`: what the parser or the printer reports when it fails.
/// Nothing inside it is visible to the verifier.
#[verifier::external_type_specification]
#[verifier::external_body]
pub struct ExError(serde_json::Error);

/// A JSON value as contracts see it.
pub enum Json {
    Null,
    Bool(bool),
    /// A number. Which one is left open: nothing in the crate reads a number.
    Number,
    String(Seq<char>),
    /// The elements, in order.
    Array(Seq<Json>),
    /// The members, by key.
    Object(Map<Seq<char>, Json>),
}

/// The member of an object under a key. Only an object has members.
pub open spec fn member(json: Json, key: Seq<char>) -> Option<Json> {
    match json {
        Json::Object(members) => if members.contains_key(key) {
            Some(members[key])
        } else {
            None
        },
        _ => None,
    }
}

/// What a `serde_json::Value` holds.
pub uninterp spec fn model(value: serde_json::Value) -> Json;

/// What each value of a list holds.
pub open spec fn models(values: Seq<serde_json::Value>) -> Seq<Json> {
    Seq::new(values.len(), |i: int| model(values[i]))
}

/// What `serde_json::from_str` makes of a text when asked for a `Value`.
pub uninterp spec fn parsed(text: Seq<char>) -> Result<serde_json::Value, serde_json::Error>;

/// What `serde_json::to_string` prints for a value.
pub uninterp spec fn compact(value: serde_json::Value) -> Result<Seq<char>, serde_json::Error>;

/// What `serde_json::to_string_pretty` prints for a value.
pub uninterp spec fn pretty(value: serde_json::Value) -> Result<Seq<char>, serde_json::Error>;

/// What the `Display` impl of `serde_json::Error` writes for an error.
pub uninterp spec fn description(error: serde_json::Error) -> Seq<char>;

/// `Value::clone` copies a value: the copy is the same JSON as the value.
pub assume_specification[ <serde_json::Value as Clone>::clone ](
    value: &serde_json::Value,
) -> (copy: serde_json::Value)
    ensures
        copy == *value,
;

/// Parses a text as one JSON value with `serde_json::from_str`. The outcome
/// depends on the text alone and is named `parsed`; nothing is claimed about
/// which texts are accepted.
#[verifier::external_body]
pub(crate) fn parse(text: &str) -> (outcome: Result<serde_json::Value, serde_json::Error>)
    ensures
        outcome == parsed(text@),
{
    serde_json::from_str::<serde_json::Value>(text)
}

/// Prints a value on one line with `serde_json::to_string`. The outcome depends
/// on the value alone and is named `compact`; success is not promised.
#[verifier::external_body]
pub(crate) fn print_compact(
    value: &serde_json::Value,
) -> (outcome: Result<String, serde_json::Error>)
    ensures
        match outcome {
            Ok(text) => compact(*value) == Ok::<Seq<char>, serde_json::Error>(text@),
            Err(error) => compact(*value) == Err::<Seq<char>, serde_json::Error>(error),
        },
{
    serde_json::to_string(value)
}

/// Prints a value over several indented lines with
/// `serde_json::to_string_pretty`. The outcome depends on the value alone and is
/// named `pretty`; success is not promised.
#[verifier::external_body]
pub(crate) fn print_pretty(
    value: &serde_json::Value,
) -> (outcome: Result<String, serde_json::Error>)
    ensures
        match outcome {
            Ok(text) => pretty(*value) == Ok::<Seq<char>, serde_json::Error>(text@),
            Err(error) => pretty(*value) == Err::<Seq<char>, serde_json::Error>(error),
        },
{
    serde_json::to_string_pretty(value)
}

/// Looks a key up with `Value::get`, which borrows the member under the key
/// if the value is an object that has one, and yields nothing otherwise.
#[verifier::external_body]
pub(crate) fn get<'a>(
    value: &'a serde_json::Value,
    key: &str,
) -> (found: Option<&'a serde_json::Value>)
    ensures
        match found {
            Some(inner) => member(model(*value), key@) == Some(model(*inner)),
            None => member(model(*value), key@) is None,
        },
{
    value.get(key)
}

/// Borrows the elements of a JSON array with `Value::as_array`, which yields
/// nothing for any other kind of value.
#[verifier::external_body]
pub(crate) fn as_array(value: &serde_json::Value) -> (items: Option<&Vec<serde_json::Value>>)
    ensures
        match items {
            Some(inner) => model(*value) == Json::Array(models(inner@)),
            None => !(model(*value) is Array),
        },
{
    value.as_array()
}

/// Borrows the text of a JSON string with `Value::as_str`, which yields nothing
/// for any other kind of value.
#[verifier::external_body]
pub(crate) fn as_str(value: &serde_json::Value) -> (text: Option<&str>)
    ensures
        match text {
            Some(inner) => model(*value) == Json::String(inner@),
            None => !(model(*value) is String),
        },
{
    value.as_str()
}

/// Asks `Value::is_null` whether a value is the JSON `null`.
#[verifier::external_body]
pub(crate) fn is_null(value: &serde_json::Value) -> (answer: bool)
    ensures
        answer == (model(*value) is Null),
{
    value.is_null()
}

/// Makes a value with the `Default` impl of `Value`, which is the JSON `null`.
#[verifier::external_body]
pub(crate) fn null_value() -> (value: serde_json::Value)
    ensures
        model(value) is Null,
{
    serde_json::Value::default()
}

/// Asks `Value::is_object` whether a value is a JSON object.
#[verifier::external_body]
pub(crate) fn is_object(value: &serde_json::Value) -> (answer: bool)
    ensures
        answer == (model(*value) is Object),
{
    value.is_object()
}

/// Formats an error of `serde_json` through its `Display` impl. The text is
/// named `description`.
#[verifier::external_body]
pub(crate) fn describe(error: &serde_json::Error) -> (text: String)
    ensures
        text@ == description(*error),
{
    error.to_string()
}

} // verus!
