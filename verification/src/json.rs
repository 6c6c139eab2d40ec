//! JSON documents, read through `serde_json`.
//!
//! A document is held as a `serde_json::Value`. What it holds is described
//! by three uninterpreted functions, one for each kind of content that this
//! library reads: text, elements and members. The contracts of the
//! accessors below are stated over them and are taken on trust; everything
//! built on the accessors is verified.

use vstd::prelude::*;
use vstd::string::*;

verus! {

/// `serde_json::Value`, carried as an opaque value.
#[verifier::external_type_specification]
#[verifier::external_body]
pub struct ExJsonValue(serde_json::Value);

/// `serde_json::Error`, carried as an opaque value.
#[verifier::external_type_specification]
#[verifier::external_body]
pub struct ExJsonError(serde_json::Error);

/// What `serde_json::from_str` makes of a text: the document, or the error
/// that it reports.
pub uninterp spec fn json_parsed(text: Seq<char>) -> Result<serde_json::Value, serde_json::Error>;

/// The message that a `serde_json::Error` displays.
pub uninterp spec fn json_error_text(error: serde_json::Error) -> Seq<char>;

/// The text of a value that is a JSON string; `None` for any other value.
pub uninterp spec fn json_string(value: serde_json::Value) -> Option<Seq<char>>;

/// The elements of a value that is a JSON array; `None` for any other value.
pub uninterp spec fn json_array(value: serde_json::Value) -> Option<Seq<serde_json::Value>>;

/// The members of a value that is a JSON object, by key; the empty map for
/// any other value.
pub uninterp spec fn json_object(value: serde_json::Value) -> Map<Seq<char>, serde_json::Value>;

/// A value that holds neither text nor elements nor members, as JSON `null`
/// does.
pub open spec fn json_is_blank(value: serde_json::Value) -> bool {
    &&& json_string(value) is None
    &&& json_array(value) is None
    &&& json_object(value) =~= Map::empty()
}

/// `serde_json::from_str` at type `Value`: parsing is a function of the text
/// alone.
#[verifier::external_body]
pub(crate) fn parse_json(text: &str) -> (r: Result<serde_json::Value, serde_json::Error>)
    ensures
        r == json_parsed(text@),
{
    serde_json::from_str::<serde_json::Value>(text)
}

/// `Display` of `serde_json::Error`: the message is a function of the error
/// alone.
#[verifier::external_body]
pub(crate) fn json_error_message(error: &serde_json::Error) -> (r: String)
    ensures
        r@ == json_error_text(*error),
{
    error.to_string()
}

/// `Index<&str>` of `Value`, written `value[key]`: the member under that key
/// where the value is an object that has one, and a null value otherwise.
#[verifier::external_body]
pub(crate) fn json_member<'a>(value: &'a serde_json::Value, key: &str) -> (r: &'a serde_json::Value)
    ensures
        json_object(*value).contains_key(key@) ==> *r == json_object(*value)[key@],
        !json_object(*value).contains_key(key@) ==> json_is_blank(*r),
{
    &value[key]
}

/// `Value::as_str` hands out the text of a JSON string and `None` for any
/// other value.
pub assume_specification<'a>[ serde_json::Value::as_str ](value: &'a serde_json::Value) -> (r: Option<&'a str>)
    ensures
        r is Some <==> json_string(*value) is Some,
        r matches Some(s) ==> json_string(*value) == Some(s@),
;

/// `Value::as_array` hands out the elements of a JSON array and `None` for
/// any other value.
pub assume_specification<'a>[ serde_json::Value::as_array ](value: &'a serde_json::Value) -> (r: Option<&'a Vec<serde_json::Value>>)
    ensures
        r is Some <==> json_array(*value) is Some,
        r matches Some(items) ==> json_array(*value) == Some(items@),
;

/// The text under `key`, where `value` is an object whose member of that
/// name is a string.
pub open spec fn member_text(value: serde_json::Value, key: Seq<char>) -> Option<Seq<char>> {
    if json_object(value).contains_key(key) {
        json_string(json_object(value)[key])
    } else {
        None
    }
}

/// Reads the string member `key` of `value`.
pub fn string_member(value: &serde_json::Value, key: &str) -> (r: Option<String>)
    ensures
        r is Some <==> member_text(*value, key@) is Some,
        r matches Some(s) ==> member_text(*value, key@) == Some(s@),
{
    match json_member(value, key).as_str() {
        Some(s) => Some(String::from_str(s)),
        None => None,
    }
}

} // verus!
