//! JSON documents as the `serde_json` crate reads, holds and writes them.

use vstd::prelude::*;

verus! {

/// A JSON document as the `serde_json` crate holds it.
#[verifier::external_type_specification]
#[verifier::external_body]
pub struct ExJsonValue(serde_json::Value);

/// The document that a text is, or what is wrong with the text in the words of
/// the `serde_json` crate.
pub uninterp spec fn json_document(text: Seq<char>) -> Result<serde_json::Value, Seq<char>>;

/// Calls `serde_json::from_str` for a `serde_json::Value`. The document, or the
/// error's text where there is none, depends on the text alone.
#[verifier::external_body]
pub(crate) fn parse_json(text: &str) -> (result: Result<serde_json::Value, String>)
    ensures
        json_document(text@) == match result {
            Ok(document) => Ok::<serde_json::Value, Seq<char>>(document),
            Err(error) => Err::<serde_json::Value, Seq<char>>(error@),
        },
{
    serde_json::from_str(text).map_err(|error| error.to_string())
}

/// The document that some bytes are, or what is wrong with them in the words
/// of the `serde_json` crate.
pub uninterp spec fn bytes_document(bytes: Seq<u8>) -> Result<serde_json::Value, Seq<char>>;

/// Calls `serde_json::from_slice` for a `serde_json::Value`. The document, or
/// the error's text where there is none, depends on the bytes alone.
#[verifier::external_body]
pub(crate) fn parse_json_bytes(bytes: &[u8]) -> (result: Result<serde_json::Value, String>)
    ensures
        bytes_document(bytes@) == match result {
            Ok(document) => Ok::<serde_json::Value, Seq<char>>(document),
            Err(error) => Err::<serde_json::Value, Seq<char>>(error@),
        },
{
    serde_json::from_slice(bytes).map_err(|error| error.to_string())
}

/// The items of a document that is an array.
pub uninterp spec fn document_items(document: serde_json::Value) -> Option<Seq<serde_json::Value>>;

/// Calls `serde_json::Value::as_array`. The items, if the document is an
/// array, depend on the document alone.
#[verifier::external_body]
pub(crate) fn as_array(document: &serde_json::Value) -> (items: Option<&Vec<serde_json::Value>>)
    ensures
        document_items(*document) == match items {
            Some(items) => Some(items@),
            None => None,
        },
{
    document.as_array()
}

/// The member of a document, or the null document where it has none of that
/// name.
pub uninterp spec fn document_member(
    document: serde_json::Value,
    name: Seq<char>,
) -> serde_json::Value;

/// Indexes a `serde_json::Value` by a name. This gives the null document where
/// the document is no object or has no member of that name, and does not panic.
/// The member depends on the document and the name alone.
#[verifier::external_body]
pub(crate) fn member_of<'a>(
    document: &'a serde_json::Value,
    name: &str,
) -> (member: &'a serde_json::Value)
    ensures
        *member == document_member(*document, name@),
{
    &document[name]
}

/// The characters of a document that is a text.
pub uninterp spec fn document_text(document: serde_json::Value) -> Option<Seq<char>>;

/// Calls `serde_json::Value::as_str`. The characters, if the document is a
/// text, depend on the document alone.
#[verifier::external_body]
pub(crate) fn as_text(document: &serde_json::Value) -> (text: Option<String>)
    ensures
        document_text(*document) == match text {
            Some(text) => Some(text@),
            None => None,
        },
{
    document.as_str().map(|text| text.to_owned())
}

/// The bytes that a document is written as, or why it cannot be written, in the
/// words of the `serde_json` crate.
pub uninterp spec fn document_bytes(document: serde_json::Value) -> Result<Seq<u8>, Seq<char>>;

/// Calls `serde_json::to_vec`. The bytes, or the error's text where there are
/// none, depend on the document alone.
#[verifier::external_body]
pub(crate) fn write_json(document: &serde_json::Value) -> (result: Result<Vec<u8>, String>)
    ensures
        document_bytes(*document) == match result {
            Ok(bytes) => Ok::<Seq<u8>, Seq<char>>(bytes@),
            Err(error) => Err::<Seq<u8>, Seq<char>>(error@),
        },
{
    serde_json::to_vec(document).map_err(|error| error.to_string())
}

} // verus!
