//! The JSON boundary: every call into `serde_json` stands here, behind a
//! small trusted wrapper whose result is a function of its arguments alone
//! and is therefore given a name that contracts elsewhere compose over.
//! All navigation of vendor payloads reduces to these accessors.

use vstd::prelude::*;

verus! {

/// The string value at a top-level key of a JSON object encoded by `data`.
pub uninterp spec fn json_str_of(data: Seq<u8>, key: Seq<char>) -> Option<Seq<char>>;

/// The unsigned integer value at a top-level key.
pub uninterp spec fn json_u64_of(data: Seq<u8>, key: Seq<char>) -> Option<u64>;

/// The boolean value at a top-level key.
pub uninterp spec fn json_bool_of(data: Seq<u8>, key: Seq<char>) -> Option<bool>;

/// The length of the array at a top-level key.
pub uninterp spec fn json_arr_len_of(data: Seq<u8>, key: Seq<char>) -> Option<usize>;

/// The serialized form of element `i` of the array at a top-level key.
pub uninterp spec fn json_item_of(data: Seq<u8>, key: Seq<char>, i: usize) -> Option<Seq<u8>>;

/// The string element `i` of the array at a top-level key.
pub uninterp spec fn json_item_str_of(data: Seq<u8>, key: Seq<char>, i: usize) -> Option<
    Seq<char>,
>;

/// The serialized form of the value at a top-level key.
pub uninterp spec fn json_sub_of(data: Seq<u8>, key: Seq<char>) -> Option<Seq<u8>>;

/// The string a JSON document denotes, where it is a top-level string.
pub uninterp spec fn json_top_str_of(data: Seq<u8>) -> Option<Seq<char>>;

/// The JSON string literal (quoted and escaped) denoting a text.
pub uninterp spec fn json_quoted(s: Seq<char>) -> Seq<char>;

/// The compact serialization of a JSON document, where `data` parses.
pub uninterp spec fn json_compact_of(data: Seq<u8>) -> Option<Seq<char>>;

/// The pretty-printed serialization of a JSON object, where `data` parses
/// to an object.
pub uninterp spec fn json_pretty_of(data: Seq<u8>) -> Option<Seq<char>>;

/// Relies on serde_json::from_slice and Value::get/as_str: the string at a
/// top-level key, a function of the bytes and the key alone.
#[verifier::external_body]
pub(crate) fn json_str_field(data: &[u8], key: &str) -> (r: Option<String>)
    ensures
        r matches Some(s) ==> json_str_of(data@, key@) == Some(s@),
        r is None ==> json_str_of(data@, key@) is None,
{
    let v: serde_json::Value = serde_json::from_slice(data).ok()?;
    Some(v.get(key)?.as_str()?.to_string())
}

/// Relies on serde_json::from_slice and Value::as_u64: the unsigned integer
/// at a top-level key.
#[verifier::external_body]
pub(crate) fn json_u64_field(data: &[u8], key: &str) -> (r: Option<u64>)
    ensures
        r == json_u64_of(data@, key@),
{
    let v: serde_json::Value = serde_json::from_slice(data).ok()?;
    v.get(key)?.as_u64()
}

/// Relies on serde_json::from_slice and Value::as_bool: the boolean at a
/// top-level key.
#[verifier::external_body]
pub(crate) fn json_bool_field(data: &[u8], key: &str) -> (r: Option<bool>)
    ensures
        r == json_bool_of(data@, key@),
{
    let v: serde_json::Value = serde_json::from_slice(data).ok()?;
    v.get(key)?.as_bool()
}

/// Relies on serde_json::from_slice and Value::as_array: the length of the
/// array at a top-level key.
#[verifier::external_body]
pub(crate) fn json_arr_len(data: &[u8], key: &str) -> (r: Option<usize>)
    ensures
        r == json_arr_len_of(data@, key@),
{
    let v: serde_json::Value = serde_json::from_slice(data).ok()?;
    Some(v.get(key)?.as_array()?.len())
}

/// Relies on serde_json::from_slice, Value::get and Value::to_string:
/// element `i` of the array at a top-level key, re-serialized. An element
/// exists exactly below the array's length.
#[verifier::external_body]
pub(crate) fn json_arr_item(data: &[u8], key: &str, i: usize) -> (r: Option<Vec<u8>>)
    ensures
        r matches Some(b) ==> json_item_of(data@, key@, i) == Some(b@),
        r is None ==> json_item_of(data@, key@, i) is None,
        r is Some <==> (json_arr_len_of(data@, key@) matches Some(n) && i < n),
{
    let v: serde_json::Value = serde_json::from_slice(data).ok()?;
    let arr = v.get(key)?.as_array()?;
    Some(arr.get(i)?.to_string().into_bytes())
}

/// Relies on serde_json::from_slice and Value::as_str: the string element
/// `i` of the array at a top-level key.
#[verifier::external_body]
pub(crate) fn json_arr_str(data: &[u8], key: &str, i: usize) -> (r: Option<String>)
    ensures
        r matches Some(s) ==> json_item_str_of(data@, key@, i) == Some(s@),
        r is None ==> json_item_str_of(data@, key@, i) is None,
{
    let v: serde_json::Value = serde_json::from_slice(data).ok()?;
    Some(v.get(key)?.get(i)?.as_str()?.to_string())
}

/// Relies on serde_json::from_slice, Value::get and Value::to_string: the
/// value at a top-level key, re-serialized. A JSON `null` value counts as
/// absent.
#[verifier::external_body]
pub(crate) fn json_sub_field(data: &[u8], key: &str) -> (r: Option<Vec<u8>>)
    ensures
        r matches Some(b) ==> json_sub_of(data@, key@) == Some(b@),
        r is None ==> json_sub_of(data@, key@) is None,
{
    let v: serde_json::Value = serde_json::from_slice(data).ok()?;
    let sub = v.get(key)?;
    if sub.is_null() {
        None
    } else {
        Some(sub.to_string().into_bytes())
    }
}

/// Relies on serde_json::from_slice and Value::as_str: the string a
/// document denotes at top level.
#[verifier::external_body]
pub(crate) fn json_top_str(data: &[u8]) -> (r: Option<String>)
    ensures
        r matches Some(s) ==> json_top_str_of(data@) == Some(s@),
        r is None ==> json_top_str_of(data@) is None,
{
    let v: serde_json::Value = serde_json::from_slice(data).ok()?;
    Some(v.as_str()?.to_string())
}

/// Relies on serde_json::to_string on `&str`: the quoted, escaped JSON
/// string literal for a text, a function of the characters alone.
#[verifier::external_body]
pub(crate) fn json_quote(s: &str) -> (r: String)
    ensures
        r@ == json_quoted(s@),
{
    serde_json::to_string(s).unwrap_or_else(|_| String::from("\"\""))
}

/// Relies on serde_json::from_slice and Value::to_string: the compact
/// serialization of a document that parses.
#[verifier::external_body]
pub(crate) fn json_compact(data: &[u8]) -> (r: Option<String>)
    ensures
        r matches Some(s) ==> json_compact_of(data@) == Some(s@),
        r is None ==> json_compact_of(data@) is None,
{
    let v: serde_json::Value = serde_json::from_slice(data).ok()?;
    Some(v.to_string())
}

/// Relies on serde_json::from_slice and serde_json::to_string_pretty: the
/// pretty serialization of a document that parses to an object.
#[verifier::external_body]
pub(crate) fn json_pretty(data: &[u8]) -> (r: Option<String>)
    ensures
        r matches Some(s) ==> json_pretty_of(data@) == Some(s@),
        r is None ==> json_pretty_of(data@) is None,
{
    let v: serde_json::Value = serde_json::from_slice(data).ok()?;
    if !v.is_object() {
        return None;
    }
    serde_json::to_string_pretty(&v).ok()
}

} // verus!
