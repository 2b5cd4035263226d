//! Access to parsed JSON documents. The JSON encoding and decoding library
//! is an external collaborator: each call into it stands behind a small
//! trusted function whose contract names what the call returns, and the
//! decoding logic built on top is verified against those contracts.

use vstd::prelude::*;

use rustc_serialize::json::Json;

verus! {

#[verifier::external_type_specification]
#[verifier::external_body]
pub struct ExJson(Json);

/// Whether `Json::from_str` accepts `s`: `s` is one well-formed JSON
/// document.
pub uninterp spec fn json_wellformed(s: Seq<char>) -> bool;

/// The document `Json::from_str` builds from well-formed text, a function
/// of the text alone.
pub uninterp spec fn doc_of(s: Seq<char>) -> Json;

/// Whether the document is an object with a field named `key`.
pub uninterp spec fn has_field(j: Json, key: Seq<char>) -> bool;

/// The text of the field named `key`, when the document is an object, the
/// field is present, and its value is a JSON string.
pub uninterp spec fn str_field(j: Json, key: Seq<char>) -> Option<Seq<char>>;

/// The compact JSON encoding of the value of the field named `key`.
pub uninterp spec fn field_text(j: Json, key: Seq<char>) -> Seq<char>;

/// Whether the value of the field named `key` is itself a JSON object.
pub uninterp spec fn field_is_object(j: Json, key: Seq<char>) -> bool;

/// What `Json::as_string` returns: the text when the value is a JSON
/// string, nothing otherwise.
pub uninterp spec fn as_text(j: Json) -> Option<Seq<char>>;

/// What `Json::is_object` returns.
pub uninterp spec fn is_object_value(j: Json) -> bool;

/// The compact JSON encoding of a value, a function of the value alone.
pub uninterp spec fn encoded(j: Json) -> Seq<char>;

/// The text the bytes encode in UTF-8, when they are valid UTF-8.
pub uninterp spec fn utf8_text(b: Seq<u8>) -> Option<Seq<char>>;

/// Relies on `rustc_serialize::json::Json::from_str`, which builds a value
/// from one well-formed JSON document and fails on anything else.
#[verifier::external_body]
pub(crate) fn parse_json(s: &str) -> (r: Option<Json>)
    ensures
        r is Some <==> json_wellformed(s@),
        r matches Some(j) ==> j == doc_of(s@),
{
    match Json::from_str(s) {
        Ok(j) => Some(j),
        Err(_) => None,
    }
}

/// Relies on `rustc_serialize::json::Json::find`: on an object, the value
/// associated with `key`; `None` on a missing field or any other document.
#[verifier::external_body]
pub(crate) fn json_find<'a>(j: &'a Json, key: &str) -> (r: Option<&'a Json>)
    ensures
        r is Some <==> has_field(*j, key@),
        match r {
            Some(v) => str_field(*j, key@) == as_text(*v) && field_text(*j, key@) == encoded(*v)
                && field_is_object(*j, key@) == is_object_value(*v),
            None => str_field(*j, key@) is None,
        },
{
    j.find(key)
}

/// Relies on `rustc_serialize::json::Json::as_string`: the contained text
/// when the value is a JSON string, `None` otherwise.
#[verifier::external_body]
pub(crate) fn json_as_string(j: &Json) -> (r: Option<String>)
    ensures
        match r {
            Some(s) => as_text(*j) == Some(s@),
            None => as_text(*j) is None,
        },
{
    match j.as_string() {
        Some(s) => Some(s.to_owned()),
        None => None,
    }
}

/// Relies on `rustc_serialize::json::Json::is_object`.
#[verifier::external_body]
pub(crate) fn json_is_object(j: &Json) -> (r: bool)
    ensures
        r == is_object_value(*j),
{
    j.is_object()
}

/// Relies on the `Display` impl of `rustc_serialize::json::Json`, which
/// writes the value back out as one compact JSON document.
#[verifier::external_body]
pub(crate) fn json_encode(j: &Json) -> (r: String)
    ensures
        r@ == encoded(*j),
{
    format!("{}", j)
}

/// Relies on `String::from_utf8`: succeeds exactly on valid UTF-8, yielding
/// the text the bytes encode.
#[verifier::external_body]
pub(crate) fn utf8_string(bytes: Vec<u8>) -> (r: Option<String>)
    ensures
        match r {
            Some(s) => utf8_text(bytes@) == Some(s@),
            None => utf8_text(bytes@) is None,
        },
{
    match String::from_utf8(bytes) {
        Ok(s) => Some(s),
        Err(_) => None,
    }
}

} // verus!
