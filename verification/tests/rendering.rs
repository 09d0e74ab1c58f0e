use canido::error::{DocumentError, Listing, Lookup};
use canido::render::{
    credentials_banner, human_entry_lines, human_section_lines, json_entry_values, render_human,
    render_json, render_short, role_banner, section_header_lines, short_section_lines, Line, Span,
    Style,
};
use canido::report::{PolicyEntry, Report};

const RULE: &str = "==================================================";
const SEPARATOR: &str = "--------------------------------------------------";
const ENCODED: &str = "%7B%22Version%22%3A%222012-10-17%22%7D";
const PRETTY: &str = "{\n  \"Version\": \"2012-10-17\"\n}";

fn styled(style: Style, text: &str) -> Line {
    Line { spans: vec![Span { style, text: text.to_string() }] }
}

fn pair(first: (Style, &str), second: (Style, &str)) -> Line {
    Line {
        spans: vec![
            Span { style: first.0, text: first.1.to_string() },
            Span { style: second.0, text: second.1.to_string() },
        ],
    }
}

fn header(title: &str) -> Vec<Line> {
    vec![
        styled(Style::Blue, RULE),
        styled(Style::BlueBold, &format!("  {}", title)),
        styled(Style::Blue, RULE),
    ]
}

fn entry(label: &str, document: Result<&str, DocumentError>) -> PolicyEntry {
    PolicyEntry { label: label.to_string(), document: document.map(|text| text.to_string()) }
}

#[test]
fn rules_are_fifty_characters_wide() {
    assert_eq!(RULE.len(), 50);
    assert_eq!(SEPARATOR.len(), 50);
}

#[test]
fn section_header_is_three_blue_lines() {
    assert_eq!(section_header_lines("1. Managed Policies"), header("1. Managed Policies"));
    assert_eq!(section_header_lines(""), header(""));
}

#[test]
fn banners_name_the_credentials_check_and_the_role() {
    assert_eq!(
        credentials_banner(),
        styled(Style::Dimmed, "--- Checking AWS credentials ---")
    );
    assert_eq!(
        role_banner("DeployRole"),
        vec![
            pair((Style::Plain, "Target role: "), (Style::Green, "DeployRole")),
            Line { spans: vec![] },
        ]
    );
}

#[test]
fn human_entry_shows_label_document_and_rule() {
    assert_eq!(
        human_entry_lines(Listing::Managed, "arn:aws:iam::aws:policy/X", Ok(PRETTY.to_string())),
        vec![
            pair((Style::Plain, "[Policy ARN]: "), (Style::Cyan, "arn:aws:iam::aws:policy/X")),
            styled(Style::Plain, PRETTY),
            styled(Style::Dimmed, SEPARATOR),
        ]
    );
    assert_eq!(
        human_entry_lines(Listing::Inline, "InlineA", Ok("[]".to_string())),
        vec![
            pair((Style::Plain, "[Policy Name]: "), (Style::Cyan, "InlineA")),
            styled(Style::Plain, "[]"),
            styled(Style::Dimmed, SEPARATOR),
        ]
    );
}

#[test]
fn human_entry_shows_an_error_notice() {
    assert_eq!(
        human_entry_lines(
            Listing::Managed,
            "arn:x",
            Err(DocumentError::Unavailable(Lookup::PolicyVersion))
        ),
        vec![
            pair((Style::Plain, "[Policy ARN]: "), (Style::Cyan, "arn:x")),
            pair((Style::Red, "Error"), (Style::Plain, ": Failed to get policy version")),
            styled(Style::Dimmed, SEPARATOR),
        ]
    );
}

#[test]
fn human_section_normalizes_each_document() {
    let entries = vec![entry("arn:a", Ok(ENCODED)), entry("arn:b", Ok("%7Bbad"))];
    let mut expected = header("1. Managed Policies");
    expected.push(pair((Style::Plain, "[Policy ARN]: "), (Style::Cyan, "arn:a")));
    expected.push(styled(Style::Plain, PRETTY));
    expected.push(styled(Style::Dimmed, SEPARATOR));
    expected.push(pair((Style::Plain, "[Policy ARN]: "), (Style::Cyan, "arn:b")));
    expected.push(pair((Style::Red, "Error"), (Style::Plain, ": Failed to parse JSON")));
    expected.push(styled(Style::Dimmed, SEPARATOR));
    assert_eq!(human_section_lines(Listing::Managed, &entries), expected);
}

#[test]
fn empty_listings_get_distinct_notices_in_human_mode() {
    let report = Report { role_name: "R".to_string(), managed: vec![], inline: vec![] };
    let mut expected = header("1. Managed Policies");
    expected.push(styled(Style::Dimmed, "(No managed policies attached)"));
    expected.push(Line { spans: vec![] });
    expected.extend(header("2. Inline Policies"));
    expected.push(styled(Style::Dimmed, "(No inline policies attached)"));
    assert_eq!(render_human(&report), expected);
}

#[test]
fn empty_listings_get_distinct_notices_in_short_mode() {
    let mut expected = header("1. Managed Policies");
    expected.push(styled(Style::Dimmed, "(No managed policies attached)"));
    expected.push(Line { spans: vec![] });
    expected.extend(header("2. Inline Policies"));
    expected.push(styled(Style::Dimmed, "(No inline policies attached)"));
    assert_eq!(render_short(&vec![], &vec![]), expected);
}

#[test]
fn empty_listings_are_empty_arrays_in_json_mode() {
    let report = Report { role_name: "R".to_string(), managed: vec![], inline: vec![] };
    assert_eq!(
        render_json(&report),
        Ok(vec![styled(
            Style::Plain,
            "{\n  \"inline_policies\": [],\n  \"managed_policies\": [],\n  \"role_name\": \"R\"\n}"
        )])
    );
}

#[test]
fn short_mode_lists_notice_and_names() {
    let lines = render_short(&vec![], &vec!["InlineA".to_string()]);
    let mut expected = header("1. Managed Policies");
    expected.push(styled(Style::Dimmed, "(No managed policies attached)"));
    expected.push(Line { spans: vec![] });
    expected.extend(header("2. Inline Policies"));
    expected.push(styled(Style::Plain, "InlineA"));
    assert_eq!(lines, expected);
}

#[test]
fn short_section_lists_names_in_order() {
    let names = vec!["b".to_string(), "a".to_string(), "b".to_string()];
    let mut expected = header("2. Inline Policies");
    expected.push(styled(Style::Plain, "b"));
    expected.push(styled(Style::Plain, "a"));
    expected.push(styled(Style::Plain, "b"));
    assert_eq!(short_section_lines(Listing::Inline, &names), expected);
}

#[test]
fn human_report_has_both_sections() {
    let report = Report {
        role_name: "DeployRole".to_string(),
        managed: vec![entry("arn:a", Ok(ENCODED))],
        inline: vec![entry("InlineA", Err(DocumentError::Unavailable(Lookup::RolePolicy)))],
    };
    let mut expected = header("1. Managed Policies");
    expected.push(pair((Style::Plain, "[Policy ARN]: "), (Style::Cyan, "arn:a")));
    expected.push(styled(Style::Plain, PRETTY));
    expected.push(styled(Style::Dimmed, SEPARATOR));
    expected.push(Line { spans: vec![] });
    expected.extend(header("2. Inline Policies"));
    expected.push(pair((Style::Plain, "[Policy Name]: "), (Style::Cyan, "InlineA")));
    expected.push(pair((Style::Red, "Error"), (Style::Plain, ": Failed to get inline policy")));
    expected.push(styled(Style::Dimmed, SEPARATOR));
    assert_eq!(render_human(&report), expected);
}

#[test]
fn json_report_holds_parsed_documents() {
    let report = Report {
        role_name: "DeployRole".to_string(),
        managed: vec![entry("arn:aws:iam::aws:policy/ReadOnlyAccess", Ok(ENCODED))],
        inline: vec![entry("InlineA", Ok("%5B%5D"))],
    };
    let expected = "{\n  \"inline_policies\": [\n    {\n      \"document\": [],\n      \"name\": \"InlineA\"\n    }\n  ],\n  \"managed_policies\": [\n    {\n      \"arn\": \"arn:aws:iam::aws:policy/ReadOnlyAccess\",\n      \"document\": {\n        \"Version\": \"2012-10-17\"\n      }\n    }\n  ],\n  \"role_name\": \"DeployRole\"\n}";
    assert_eq!(render_json(&report), Ok(vec![styled(Style::Plain, expected)]));
}

#[test]
fn failed_item_shows_in_human_mode_and_is_left_out_of_json() {
    let entries = || {
        vec![
            entry("arn:first", Ok(ENCODED)),
            entry("arn:broken", Err(DocumentError::Unavailable(Lookup::PolicyVersion))),
            entry("arn:last", Ok(ENCODED)),
        ]
    };
    let report = Report { role_name: "R".to_string(), managed: entries(), inline: vec![] };

    let human = render_human(&report);
    let mut expected = header("1. Managed Policies");
    for label in ["arn:first", "arn:broken", "arn:last"] {
        expected.push(pair((Style::Plain, "[Policy ARN]: "), (Style::Cyan, label)));
        if label == "arn:broken" {
            expected.push(pair((Style::Red, "Error"), (Style::Plain, ": Failed to get policy version")));
        } else {
            expected.push(styled(Style::Plain, PRETTY));
        }
        expected.push(styled(Style::Dimmed, SEPARATOR));
    }
    expected.push(Line { spans: vec![] });
    expected.extend(header("2. Inline Policies"));
    expected.push(styled(Style::Dimmed, "(No inline policies attached)"));
    assert_eq!(human, expected);

    let values = json_entry_values(Listing::Managed, &entries());
    let labels: Vec<String> = values
        .iter()
        .map(|value| value["arn"].as_str().unwrap().to_string())
        .collect();
    assert_eq!(labels, vec!["arn:first".to_string(), "arn:last".to_string()]);
    let json = render_json(&report).unwrap();
    assert_eq!(json.len(), 1);
    assert!(!json[0].spans[0].text.contains("arn:broken"));
    assert!(json[0].spans[0].text.contains("arn:first"));
    assert!(json[0].spans[0].text.contains("arn:last"));
}

#[test]
fn json_leaves_out_documents_that_do_not_decode_or_parse() {
    let entries = vec![
        entry("a", Ok("%FF")),
        entry("b", Ok("not json")),
        entry("c", Ok("%7B%7D")),
    ];
    let values = json_entry_values(Listing::Inline, &entries);
    assert_eq!(values.len(), 1);
    assert_eq!(serde_json::to_string(&values[0]).unwrap(), "{\"document\":{},\"name\":\"c\"}");
}
