//! The outside values that failures carry, and the calls that render or build
//! them. Nothing in this file is proved: each contract restates what the
//! outside code does.

use vstd::prelude::*;

verus! {

/// A cheaply cloneable, immutable run of bytes.
#[verifier::external_type_specification]
#[verifier::external_body]
pub struct ExBytes(bytes::Bytes);

/// A JSON document.
#[verifier::external_type_specification]
#[verifier::external_body]
pub struct ExJsonValue(serde_json::Value);

/// The bytes that a buffer holds, first to last.
pub uninterp spec fn bytes_content(body: bytes::Bytes) -> Seq<u8>;

/// What the `Debug` impl of `bytes::Bytes` writes for a buffer with this
/// content: a byte-string literal, in which printable ASCII stands for itself
/// and every other byte is escaped.
pub uninterp spec fn bytes_debug_text(content: Seq<u8>) -> Seq<char>;

/// What the `Debug` impl of a `Vec` of string slices writes for these
/// strings: a bracketed, comma-separated list of quoted and escaped strings.
pub uninterp spec fn name_list_debug_text(names: Seq<Seq<char>>) -> Seq<char>;

/// The JSON document that is the string with this text.
pub uninterp spec fn json_string_value(text: Seq<char>) -> serde_json::Value;

/// Calls `<bytes::Bytes as Debug>::fmt` through `format!`. The impl reads the
/// buffer as a slice and nothing else, so the text is a function of the
/// content alone; writing into a `String` cannot fail.
#[verifier::external_body]
pub(crate) fn debug_bytes(body: &bytes::Bytes) -> (text: String)
    ensures
        text@ == bytes_debug_text(bytes_content(*body)),
{
    format!("{:?}", body)
}

/// Calls `<Vec<&str> as Debug>::fmt` through `format!`. The text depends on
/// the strings and their order alone.
#[verifier::external_body]
pub(crate) fn debug_names(names: &Vec<&'static str>) -> (text: String)
    ensures
        text@ == name_list_debug_text(names@.map_values(|name: &'static str| name@)),
{
    format!("{:?}", names)
}

/// Calls `<serde_json::Value as From<&str>>::from`, which copies the text
/// into a `Value::String`.
#[verifier::external_body]
pub(crate) fn json_string(text: &str) -> (value: serde_json::Value)
    ensures
        value == json_string_value(text@),
{
    serde_json::Value::from(text)
}

} // verus!
