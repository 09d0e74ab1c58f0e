use crate::error::Listing;
use std::iter::FromIterator;
use vstd::prelude::*;
use vstd::string::*;

verus! {

/// A JSON document as a mathematical value.
pub enum JsonValue {
    Null,
    Bool(bool),
    /// A number, by the characters it is written with.
    Number(Seq<char>),
    Text(Seq<char>),
    List(Seq<JsonValue>),
    /// An object: at most one value for each key, in no order of its own.
    Record(Map<Seq<char>, JsonValue>),
}

/// `serde_json::Value`, a parsed JSON document. Nothing of its inside is
/// assumed here: what it holds is named by [`json_model`].
#[verifier::external_type_specification]
#[verifier::external_body]
pub struct ExValue(serde_json::Value);

/// `serde_json::Error`, carried from a failed call to where it is mapped to
/// an error of this library. Nothing is assumed of it.
#[verifier::external_type_specification]
#[verifier::external_body]
pub struct ExError(serde_json::Error);

/// The document that a `serde_json::Value` holds: its variant, and what the
/// variant carries. An object holds one value for each of its keys.
pub uninterp spec fn json_model(value: serde_json::Value) -> JsonValue;

/// What `serde_json::from_str` makes of a text: the document it reads, or
/// `None` where it rejects the text.
pub uninterp spec fn parsed_json(text: Seq<char>) -> Option<JsonValue>;

/// What `serde_json::to_string_pretty` writes for a document, or `None` where
/// it reports an error.
pub uninterp spec fn pretty_json(document: JsonValue) -> Option<Seq<char>>;

/// The documents that a sequence of values holds, one by one.
pub open spec fn models(values: Seq<serde_json::Value>) -> Seq<JsonValue> {
    values.map_values(|value: serde_json::Value| json_model(value))
}

/// The keys and documents of a sequence of object fields.
pub open spec fn field_models(fields: Seq<(String, serde_json::Value)>) -> Seq<
    (Seq<char>, JsonValue),
> {
    fields.map_values(|field: (String, serde_json::Value)| (field.0@, json_model(field.1)))
}

/// The object that holds the given fields.
pub open spec fn record_of(fields: Seq<(Seq<char>, JsonValue)>) -> Map<Seq<char>, JsonValue>
    decreases fields.len(),
{
    if fields.len() == 0 {
        Map::empty()
    } else {
        record_of(fields.drop_last()).insert(fields.last().0, fields.last().1)
    }
}

/// `serde_json::from_str`, read as a `serde_json::Value`.
///
/// Trusted: whether the text is accepted, and the document read from it,
/// depend on the text alone.
#[verifier::external_body]
pub(crate) fn json_parse(text: &str) -> (outcome: Result<serde_json::Value, serde_json::Error>)
    ensures
        outcome is Ok <==> parsed_json(text@) is Some,
        outcome matches Ok(value) ==> parsed_json(text@) == Some(json_model(value)),
{
    serde_json::from_str::<serde_json::Value>(text)
}

/// `serde_json::to_string_pretty` on a `serde_json::Value`.
///
/// Trusted: the outcome depends on the document alone. An object keeps its
/// entries sorted by key, so the order in which it was filled does not show.
#[verifier::external_body]
pub(crate) fn json_pretty(value: &serde_json::Value) -> (outcome: Result<
    String,
    serde_json::Error,
>)
    ensures
        outcome is Ok <==> pretty_json(json_model(*value)) is Some,
        outcome matches Ok(text) ==> pretty_json(json_model(*value)) == Some(text@),
{
    serde_json::to_string_pretty(value)
}

/// `serde_json::Value::from` on a string slice.
///
/// Trusted: the value is the JSON string with these characters.
#[verifier::external_body]
pub(crate) fn json_text(text: &str) -> (value: serde_json::Value)
    ensures
        json_model(value) == JsonValue::Text(text@),
{
    serde_json::Value::from(text)
}

/// `serde_json::Value::from` on a vector of values.
///
/// Trusted: the value is the JSON array of these values, in their order.
#[verifier::external_body]
pub(crate) fn json_list(items: Vec<serde_json::Value>) -> (value: serde_json::Value)
    ensures
        json_model(value) == JsonValue::List(models(items@)),
{
    serde_json::Value::from(items)
}

/// `serde_json::Value::from_iter` on key and value pairs.
///
/// Trusted: the value is the JSON object with these fields. The keys are
/// required to differ, so that none of the pairs is dropped.
#[verifier::external_body]
pub(crate) fn json_record(fields: Vec<(String, serde_json::Value)>) -> (value: serde_json::Value)
    requires
        forall|i: int, j: int| 0 <= i < j < fields.len() ==> fields[i].0@ != fields[j].0@,
    ensures
        json_model(value) == JsonValue::Record(record_of(field_models(fields@))),
{
    serde_json::Value::from_iter(fields)
}

/// The key under which an entry of a listing names its policy.
pub open spec fn entry_key(listing: Listing) -> Seq<char> {
    match listing {
        Listing::Managed => "arn"@,
        Listing::Inline => "name"@,
    }
}

/// The JSON object for one policy: its ARN or name, and its document.
pub open spec fn entry_document(listing: Listing, label: Seq<char>, document: JsonValue) -> JsonValue {
    JsonValue::Record(
        Map::empty().insert(entry_key(listing), JsonValue::Text(label)).insert(
            "document"@,
            document,
        ),
    )
}

/// The JSON object for a whole report.
pub open spec fn report_document(
    role_name: Seq<char>,
    managed: Seq<JsonValue>,
    inline: Seq<JsonValue>,
) -> JsonValue {
    JsonValue::Record(
        Map::empty().insert("role_name"@, JsonValue::Text(role_name)).insert(
            "managed_policies"@,
            JsonValue::List(managed),
        ).insert("inline_policies"@, JsonValue::List(inline)),
    )
}

/// Builds the JSON object for one policy from its label and parsed document.
pub fn entry_value(listing: Listing, label: &str, document: serde_json::Value) -> (value:
    serde_json::Value)
    ensures
        json_model(value) == entry_document(listing, label@, json_model(document)),
{
    let key = match listing {
        Listing::Managed => "arn",
        Listing::Inline => "name",
    };
    let mut fields: Vec<(String, serde_json::Value)> = Vec::new();
    fields.push((key.to_owned(), json_text(label)));
    fields.push(("document".to_owned(), document));
    proof {
        reveal_strlit("arn");
        reveal_strlit("name");
        reveal_strlit("document");
        reveal_with_fuel(record_of, 3);
        assert(fields[0].0@.len() <= 4 && fields[1].0@.len() == 8);
    }
    json_record(fields)
}

/// Builds the JSON object for a report from its role name and the objects of
/// its policies.
pub fn report_value(
    role_name: &str,
    managed: Vec<serde_json::Value>,
    inline: Vec<serde_json::Value>,
) -> (value: serde_json::Value)
    ensures
        json_model(value) == report_document(role_name@, models(managed@), models(inline@)),
{
    let mut fields: Vec<(String, serde_json::Value)> = Vec::new();
    fields.push(("role_name".to_owned(), json_text(role_name)));
    fields.push(("managed_policies".to_owned(), json_list(managed)));
    fields.push(("inline_policies".to_owned(), json_list(inline)));
    proof {
        reveal_strlit("role_name");
        reveal_strlit("managed_policies");
        reveal_strlit("inline_policies");
        reveal_with_fuel(record_of, 4);
        assert(fields[0].0@.len() == 9 && fields[1].0@.len() == 16 && fields[2].0@.len() == 15);
    }
    json_record(fields)
}

} // verus!
