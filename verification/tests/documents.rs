use canido::document::{format_json, normalize, parse_document, write_document};
use canido::error::{DocumentError, Listing, Lookup, ReportError};
use canido::json::{entry_value, report_value};
use canido::percent::decode;

#[test]
fn encoded_document_normalizes_to_indented_json() {
    let raw = "%7B%22Version%22%3A%222012-10-17%22%7D";
    assert_eq!(
        normalize(raw),
        Ok("{\n  \"Version\": \"2012-10-17\"\n}".to_string())
    );
}

#[test]
fn decode_turns_escapes_into_bytes() {
    assert_eq!(
        decode("%7B%22Version%22%3A%222012-10-17%22%7D"),
        Some("{\"Version\":\"2012-10-17\"}".to_string())
    );
    assert_eq!(decode("a%20b"), Some("a b".to_string()));
    assert_eq!(decode("%7b%7D"), Some("{}".to_string()));
}

#[test]
fn decode_leaves_plain_text_alone() {
    assert_eq!(decode(""), Some(String::new()));
    assert_eq!(decode("{\"a\": 1}"), Some("{\"a\": 1}".to_string()));
    assert_eq!(decode("a+b"), Some("a+b".to_string()));
}

#[test]
fn decode_keeps_a_stray_percent_sign() {
    assert_eq!(decode("100%"), Some("100%".to_string()));
    assert_eq!(decode("%4"), Some("%4".to_string()));
    assert_eq!(decode("%zz"), Some("%zz".to_string()));
    assert_eq!(decode("%4g"), Some("%4g".to_string()));
    assert_eq!(decode("%%41"), Some("%A".to_string()));
    assert_eq!(decode("%4%41"), Some("%4A".to_string()));
}

#[test]
fn decode_is_not_applied_twice() {
    assert_eq!(decode("%2541"), Some("%41".to_string()));
}

#[test]
fn decode_reads_multibyte_characters() {
    assert_eq!(decode("%F0%9F%91%BE%20ok"), Some("\u{1F47E} ok".to_string()));
    assert_eq!(decode("caf%C3%A9"), Some("café".to_string()));
}

#[test]
fn decode_rejects_bytes_that_are_not_utf8() {
    assert_eq!(decode("%FF"), None);
    assert_eq!(decode("abc%C3"), None);
}

#[test]
fn normalize_reports_a_decode_failure() {
    assert_eq!(normalize("%FF%FE"), Err(DocumentError::DecodeFailure));
}

#[test]
fn normalize_reports_invalid_json() {
    assert_eq!(normalize("%7Bnot%20json"), Err(DocumentError::InvalidDocumentJson));
    assert_eq!(normalize(""), Err(DocumentError::InvalidDocumentJson));
}

#[test]
fn normalize_is_stable_on_its_own_output() {
    let once = normalize("%7B%22b%22%3A%5B1%2C2%5D%2C%22a%22%3Anull%7D").unwrap();
    assert_eq!(once, "{\n  \"a\": null,\n  \"b\": [\n    1,\n    2\n  ]\n}");
    assert_eq!(normalize(&once), Ok(once.clone()));
}

#[test]
fn format_json_indents_and_sorts_keys() {
    assert_eq!(
        format_json("{\"b\":true,\"a\":{\"x\":\"y\"}}"),
        Ok("{\n  \"a\": {\n    \"x\": \"y\"\n  },\n  \"b\": true\n}".to_string())
    );
    assert_eq!(format_json("[]"), Ok("[]".to_string()));
    assert_eq!(format_json("{oops"), Err(DocumentError::InvalidDocumentJson));
}

#[test]
fn format_json_does_not_decode() {
    assert_eq!(
        format_json("%7B%7D"),
        Err(DocumentError::InvalidDocumentJson)
    );
}

#[test]
fn write_document_writes_a_parsed_value() {
    let value = serde_json::Value::from(vec![serde_json::Value::from("a")]);
    assert_eq!(write_document(&value), Ok("[\n  \"a\"\n]".to_string()));
}

#[test]
fn parse_document_decodes_then_parses() {
    let value = parse_document("%7B%22a%22%3A1%7D").unwrap();
    assert_eq!(serde_json::to_string(&value).unwrap(), "{\"a\":1}");
    assert!(parse_document("%7B").is_none());
    assert!(parse_document("%FF").is_none());
}

#[test]
fn entry_value_names_the_policy_and_holds_its_document() {
    let document = serde_json::from_str::<serde_json::Value>("{\"Version\":\"2012-10-17\"}").unwrap();
    let managed = entry_value(Listing::Managed, "arn:aws:iam::aws:policy/ReadOnlyAccess", document.clone());
    assert_eq!(
        serde_json::to_string(&managed).unwrap(),
        "{\"arn\":\"arn:aws:iam::aws:policy/ReadOnlyAccess\",\"document\":{\"Version\":\"2012-10-17\"}}"
    );
    let inline = entry_value(Listing::Inline, "InlineA", document);
    assert_eq!(
        serde_json::to_string(&inline).unwrap(),
        "{\"document\":{\"Version\":\"2012-10-17\"},\"name\":\"InlineA\"}"
    );
}

#[test]
fn report_value_has_the_three_fields() {
    let value = report_value(
        "DeployRole",
        vec![serde_json::Value::from("m")],
        vec![serde_json::Value::from("i"), serde_json::Value::from("j")],
    );
    assert_eq!(
        serde_json::to_string(&value).unwrap(),
        "{\"inline_policies\":[\"i\",\"j\"],\"managed_policies\":[\"m\"],\"role_name\":\"DeployRole\"}"
    );
}

#[test]
fn document_errors_have_their_notices() {
    assert_eq!(DocumentError::Unavailable(Lookup::Policy).message(), "Failed to get policy");
    assert_eq!(
        DocumentError::Unavailable(Lookup::DefaultVersion).message(),
        "Failed to get default version ID"
    );
    assert_eq!(
        DocumentError::Unavailable(Lookup::PolicyVersion).message(),
        "Failed to get policy version"
    );
    assert_eq!(
        DocumentError::Unavailable(Lookup::VersionDocument).message(),
        "Failed to get policy document"
    );
    assert_eq!(
        DocumentError::Unavailable(Lookup::RolePolicy).message(),
        "Failed to get inline policy"
    );
    assert_eq!(DocumentError::DecodeFailure.message(), "Failed to decode policy document");
    assert_eq!(DocumentError::InvalidDocumentJson.message(), "Failed to parse JSON");
    assert_eq!(DocumentError::FormatFailure.message(), "Failed to format JSON");
}

#[test]
fn report_errors_have_their_notices() {
    assert_eq!(
        ReportError::IdentityUnavailable.message(),
        "Failed to get caller identity. Please check your AWS credentials (e.g., run 'aws sso login')."
    );
    assert_eq!(ReportError::IdentityAbsent.message(), "ARN not found in caller identity");
    assert_eq!(
        ReportError::MalformedIdentity.message(),
        "Failed to extract role name from ARN"
    );
    assert_eq!(
        ReportError::PolicyListFailure { role: "R".to_string(), listing: Listing::Managed }.message(),
        "Failed to list managed policies"
    );
    assert_eq!(
        ReportError::PolicyListFailure { role: "R".to_string(), listing: Listing::Inline }.message(),
        "Failed to list inline policies"
    );
    assert_eq!(
        ReportError::UnexpectedReply.message(),
        "Received an answer to a call that was not made"
    );
    assert_eq!(ReportError::RenderFailure.message(), "Failed to format JSON");
}
