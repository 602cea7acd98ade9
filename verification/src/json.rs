//! The boundary to `serde_json`: the types it hands over, names for what its
//! functions return, and one thin wrapper per function called.
//!
//! Nothing in this file is proved. Every contract here is taken from the
//! source of `serde_json` and believed by the verifier.

use serde_json::de::{StrRead, StreamDeserializer};
use serde_json::{Error, Value};
use vstd::prelude::*;

verus! {

/// `serde_json::Value`, carried through the library as an opaque value.
#[verifier::external_type_specification]
#[verifier::external_body]
pub struct ExValue(serde_json::Value);

/// `serde_json::Error`, carried through as an opaque value.
#[verifier::external_type_specification]
#[verifier::external_body]
pub struct ExError(serde_json::Error);

/// `serde_json::de::StrRead`, the reader over a borrowed string.
#[verifier::external_type_specification]
#[verifier::external_body]
pub struct ExStrRead<'a>(serde_json::de::StrRead<'a>);

/// `serde_json::StreamDeserializer`, the iterator over a sequence of JSON
/// values that follow one another in one input.
#[verifier::external_type_specification]
#[verifier::external_body]
#[verifier::reject_recursive_types(R)]
#[verifier::reject_recursive_types(T)]
pub struct ExStreamDeserializer<'de, R, T>(serde_json::StreamDeserializer<'de, R, T>);

/// What `serde_json::from_str::<Vec<Value>>` decodes from `text`: the
/// elements of the array, or `None` where it reports an error.
pub uninterp spec fn array_items(text: Seq<char>) -> Option<Seq<Value>>;

/// What a `StreamDeserializer<_, StrRead, Value>` freshly made over `text`
/// yields, item by item, until it ends: `Some` of the value for each `Ok`,
/// `None` for an `Err`.
pub uninterp spec fn stream_items(text: Seq<char>) -> Seq<Option<Value>>;

/// The items that `stream` has yet to yield.
pub uninterp spec fn pending(stream: StreamDeserializer<'_, StrRead<'_>, Value>) -> Seq<Option<Value>>;

/// What `Value::get` finds in `value` under the string index `key`.
pub uninterp spec fn member(value: Value, key: Seq<char>) -> Option<Value>;

/// The text that `serde_json::to_string` makes of `value`.
pub uninterp spec fn encoding(value: Value) -> Seq<char>;

/// Calls `serde_json::from_str::<Vec<Value>>`. The result is `Ok` exactly
/// where `array_items` is `Some`, and then holds those elements.
#[verifier::external_body]
pub(crate) fn decode_array(text: &str) -> (r: Result<Vec<Value>, Error>)
    ensures
        match r {
            Ok(items) => array_items(text@) == Some(items@),
            Err(_) => array_items(text@) is None,
        },
{
    serde_json::from_str::<Vec<Value>>(text)
}

/// Calls `serde_json::Deserializer::from_str` and `Deserializer::into_iter`.
/// The iterator is about to yield `stream_items` of the text. Every item it
/// yields either moves it on by at least one byte of the text or is its
/// last, so the items are at most one more than the text has bytes, and
/// their number fits a `usize`.
#[verifier::external_body]
pub(crate) fn open_stream<'a>(text: &'a str) -> (r: StreamDeserializer<'a, StrRead<'a>, Value>)
    ensures
        pending(r) == stream_items(text@),
        pending(r).len() <= usize::MAX,
{
    serde_json::Deserializer::from_str(text).into_iter::<Value>()
}

/// Calls `StreamDeserializer::next`. It yields the first pending item and
/// leaves the rest pending; with nothing pending it yields `None` and stays
/// so.
#[verifier::external_body]
pub(crate) fn next_item<'a>(stream: &mut StreamDeserializer<'a, StrRead<'a>, Value>) -> (r: Option<
    Result<Value, Error>,
>)
    ensures
        match r {
            None => pending(*old(stream)).len() == 0 && pending(*final(stream)).len() == 0,
            Some(item) => {
                &&& pending(*old(stream)).len() > 0
                &&& pending(*final(stream)) == pending(*old(stream)).drop_first()
                &&& match item {
                    Ok(value) => pending(*old(stream))[0] == Some(value),
                    Err(_) => pending(*old(stream))[0] is None,
                }
            },
        },
{
    stream.next()
}

/// Calls `Value::get` with a string index.
#[verifier::external_body]
pub(crate) fn field<'v>(value: &'v Value, key: &str) -> (r: Option<&'v Value>)
    ensures
        match r {
            Some(found) => member(*value, key@) == Some(*found),
            None => member(*value, key@) is None,
        },
{
    value.get(key)
}

/// Calls `serde_json::to_string`, which does not fail on a `Value`. It
/// writes into a `Vec`, and every error of its serializer comes either from
/// the writer or from an object key that is no string; a `Vec` takes every
/// write, and the keys of a `Value` are strings.
#[verifier::external_body]
pub(crate) fn encode(value: &Value) -> (r: Result<String, Error>)
    ensures
        match r {
            Ok(text) => text@ == encoding(*value),
            Err(_) => false,
        },
{
    serde_json::to_string(value)
}

} // verus!
