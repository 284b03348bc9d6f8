//! What the library reads of a JSON document.
//!
//! The documents are parsed and held by `serde_json`. Nothing in this file is
//! proved: each function here hands one question on to `serde_json`, and its
//! answer is given a name that the contracts of the loading functions speak
//! of.
use vstd::prelude::*;

verus! {

/// `serde_json::Value`, a JSON value of any kind, of which nothing is seen
/// here but through the functions below.
#[verifier::external_type_specification]
#[verifier::external_body]
pub struct ExValue(serde_json::Value);

/// The member `key` of the object `v`; nothing where `v` is no object or has
/// no such member.
pub uninterp spec fn member_of(v: serde_json::Value, key: Seq<char>) -> Option<serde_json::Value>;

/// The elements of the array `v`; nothing where `v` is no array.
pub uninterp spec fn items_of(v: serde_json::Value) -> Option<Seq<serde_json::Value>>;

/// The number `v` as an unsigned integer; nothing where `v` is no number, is
/// negative or has a fraction or an exponent.
pub uninterp spec fn unsigned_of(v: serde_json::Value) -> Option<u64>;

/// The characters of the string `v`; nothing where `v` is no string.
pub uninterp spec fn text_of(v: serde_json::Value) -> Option<Seq<char>>;

/// The boolean `v`; nothing where `v` is no boolean.
pub uninterp spec fn flag_of(v: serde_json::Value) -> Option<bool>;

/// Whether `v` is an object.
pub uninterp spec fn is_object_of(v: serde_json::Value) -> bool;

/// The JSON text of `v`, as `serde_json` prints it on one line.
pub uninterp spec fn printed(v: serde_json::Value) -> Seq<char>;

/// `serde_json::Value::get` with a string as index: the member of that name
/// of an object, and nothing for a value that is no object or an object
/// without that member.
#[verifier::external_body]
pub(crate) fn member<'a>(v: &'a serde_json::Value, key: &str) -> (r: Option<&'a serde_json::Value>)
    ensures
        match r {
            Some(found) => member_of(*v, key@) == Some(*found),
            None => member_of(*v, key@) is None,
        },
{
    v.get(key)
}

/// `serde_json::Value::as_array`: the elements of an array, and nothing for
/// any other value.
#[verifier::external_body]
pub(crate) fn items<'a>(v: &'a serde_json::Value) -> (r: Option<&'a Vec<serde_json::Value>>)
    ensures
        match r {
            Some(found) => items_of(*v) == Some(found@),
            None => items_of(*v) is None,
        },
{
    v.as_array()
}

/// `serde_json::Value::as_u64`: a number that was read as an integer and is
/// not negative, and nothing for any other value.
#[verifier::external_body]
pub(crate) fn unsigned(v: &serde_json::Value) -> (r: Option<u64>)
    ensures
        r == unsigned_of(*v),
{
    v.as_u64()
}

/// `serde_json::Value::as_str`: the text of a string, and nothing for any
/// other value.
#[verifier::external_body]
pub(crate) fn text<'a>(v: &'a serde_json::Value) -> (r: Option<&'a str>)
    ensures
        match r {
            Some(found) => text_of(*v) == Some(found@),
            None => text_of(*v) is None,
        },
{
    v.as_str()
}

/// `serde_json::Value::as_bool`: a boolean, and nothing for any other value.
#[verifier::external_body]
pub(crate) fn flag(v: &serde_json::Value) -> (r: Option<bool>)
    ensures
        r == flag_of(*v),
{
    v.as_bool()
}

/// `serde_json::Value::is_object`: whether the value is an object.
#[verifier::external_body]
pub(crate) fn is_object(v: &serde_json::Value) -> (r: bool)
    ensures
        r == is_object_of(*v),
{
    v.is_object()
}

/// The `to_string` that `serde_json::Value` has from its `Display`: the JSON
/// text of the value. A number comes out as it is written in JSON.
#[verifier::external_body]
pub(crate) fn print(v: &serde_json::Value) -> (r: String)
    ensures
        r@ == printed(*v),
{
    v.to_string()
}

} // verus!
