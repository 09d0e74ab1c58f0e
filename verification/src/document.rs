use crate::error::DocumentError;
use crate::json::{json_parse, json_pretty, parsed_json, pretty_json, JsonValue};
use crate::percent::{decode, decoded, has_escape, lemma_decode_fixes_plain_text};
use vstd::prelude::*;
use vstd::utf8::encode_utf8;

verus! {

/// A text outcome by its characters.
pub open spec fn text_outcome(outcome: Result<String, DocumentError>) -> Result<
    Seq<char>,
    DocumentError,
> {
    match outcome {
        Ok(text) => Ok(text@),
        Err(error) => Err(error),
    }
}

/// The canonical text of a parsed document.
pub open spec fn written(document: JsonValue) -> Result<Seq<char>, DocumentError> {
    match pretty_json(document) {
        Some(text) => Ok(text),
        None => Err(DocumentError::FormatFailure),
    }
}

/// The canonical text of a JSON text: parsed, then written out again with
/// indentation.
pub open spec fn formatted(text: Seq<char>) -> Result<Seq<char>, DocumentError> {
    match parsed_json(text) {
        Some(document) => written(document),
        None => Err(DocumentError::InvalidDocumentJson),
    }
}

/// The canonical text of a document as it was fetched: percent-decoded, then
/// formatted.
pub open spec fn normalized(raw: Seq<char>) -> Result<Seq<char>, DocumentError> {
    match decoded(raw) {
        Some(text) => formatted(text),
        None => Err(DocumentError::DecodeFailure),
    }
}

/// The document in a fetched text, for the JSON report: `None` where the text
/// does not decode or is not JSON.
pub open spec fn embedded(raw: Seq<char>) -> Option<JsonValue> {
    match decoded(raw) {
        Some(text) => parsed_json(text),
        None => None,
    }
}

/// Normalizing a text that holds no escape is formatting it: parsing, then
/// writing out again.
pub proof fn lemma_normalize_plain(text: Seq<char>)
    requires
        !has_escape(encode_utf8(text)),
    ensures
        normalized(text) == formatted(text),
{
    lemma_decode_fixes_plain_text(text);
}

/// Where a fetched document decodes to a text without escapes, normalizing
/// the decoded text gives what normalizing the document gives: the parsed
/// and rewritten text.
pub proof fn lemma_normalize_decoded(raw: Seq<char>, text: Seq<char>)
    requires
        decoded(raw) == Some(text),
        !has_escape(encode_utf8(text)),
    ensures
        normalized(text) == normalized(raw),
        normalized(raw) == formatted(text),
{
    lemma_decode_fixes_plain_text(text);
}

/// Writes a parsed document as indented text.
pub fn write_document(document: &serde_json::Value) -> (outcome: Result<String, DocumentError>)
    ensures
        text_outcome(outcome) == written(crate::json::json_model(*document)),
{
    match json_pretty(document) {
        Ok(text) => Ok(text),
        Err(_) => Err(DocumentError::FormatFailure),
    }
}

/// Formats a JSON text with indentation.
pub fn format_json(text: &str) -> (outcome: Result<String, DocumentError>)
    ensures
        text_outcome(outcome) == formatted(text@),
{
    match json_parse(text) {
        Ok(document) => write_document(&document),
        Err(_) => Err(DocumentError::InvalidDocumentJson),
    }
}

/// Normalizes a policy document as the policy service hands it out:
/// percent-decodes it and formats the JSON it holds.
pub fn normalize(raw: &str) -> (outcome: Result<String, DocumentError>)
    ensures
        text_outcome(outcome) == normalized(raw@),
{
    match decode(raw) {
        Some(text) => format_json(text.as_str()),
        None => Err(DocumentError::DecodeFailure),
    }
}

/// Decodes and parses a fetched document for the JSON report.
pub fn parse_document(raw: &str) -> (document: Option<serde_json::Value>)
    ensures
        document is Some <==> embedded(raw@) is Some,
        document matches Some(value) ==> embedded(raw@) == Some(crate::json::json_model(value)),
{
    match decode(raw) {
        Some(text) => match json_parse(text.as_str()) {
            Ok(value) => Some(value),
            Err(_) => None,
        },
        None => None,
    }
}

} // verus!
