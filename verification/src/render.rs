use crate::document::{embedded, normalize, normalized, parse_document, text_outcome};
use crate::error::{DocumentError, Listing, ReportError};
use crate::json::{
    entry_document, entry_value, json_pretty, models, pretty_json, report_document, report_value,
    JsonValue,
};
use crate::report::{entries_view, names_view, EntryView, PolicyEntry, Report, ReportView};
use vstd::prelude::*;
use vstd::string::*;

verus! {

/// How a piece of output is to be set off on a terminal.
#[derive(Clone, Copy, Debug, PartialEq, Eq, Structural)]
pub enum Style {
    Plain,
    Blue,
    BlueBold,
    Dimmed,
    Cyan,
    Green,
    Red,
}

/// A run of text in one style.
#[derive(Debug, PartialEq, Eq)]
pub struct Span {
    pub style: Style,
    pub text: String,
}

/// A span as a mathematical value.
pub struct SpanView {
    pub style: Style,
    pub text: Seq<char>,
}

impl View for Span {
    type V = SpanView;

    open spec fn view(&self) -> SpanView {
        SpanView { style: self.style, text: self.text@ }
    }
}

/// One line of output: its spans side by side, then a line break.
#[derive(Debug, PartialEq, Eq)]
pub struct Line {
    pub spans: Vec<Span>,
}

impl View for Line {
    type V = Seq<SpanView>;

    open spec fn view(&self) -> Seq<SpanView> {
        self.spans@.map_values(|span: Span| span@)
    }
}

/// The lines of a page, one by one.
pub open spec fn shown(lines: Seq<Line>) -> Seq<Seq<SpanView>> {
    lines.map_values(|line: Line| line@)
}

/// A line without text.
pub open spec fn blank() -> Seq<SpanView> {
    Seq::empty()
}

/// A line in one style.
pub open spec fn styled(style: Style, text: Seq<char>) -> Seq<SpanView> {
    seq![SpanView { style, text }]
}

/// A line that begins with a plain caption and goes on in a style.
pub open spec fn captioned(caption: Seq<char>, style: Style, text: Seq<char>) -> Seq<SpanView> {
    seq![SpanView { style: Style::Plain, text: caption }, SpanView { style, text }]
}

/// The line that tells of a missing document.
pub open spec fn error_notice(error: DocumentError) -> Seq<SpanView> {
    seq![
        SpanView { style: Style::Red, text: "Error"@ },
        SpanView { style: Style::Plain, text: ": "@ + error.notice() },
    ]
}

/// The heavy rule above and below a section title.
pub open spec fn rule() -> Seq<char> {
    "=================================================="@
}

/// The light rule that closes a policy.
pub open spec fn separator() -> Seq<char> {
    "--------------------------------------------------"@
}

/// The three lines that head a section.
pub open spec fn section_header(title: Seq<char>) -> Seq<Seq<SpanView>> {
    seq![
        styled(Style::Blue, rule()),
        styled(Style::BlueBold, "  "@ + title),
        styled(Style::Blue, rule()),
    ]
}

/// The title of a listing's section.
pub open spec fn title(listing: Listing) -> Seq<char> {
    match listing {
        Listing::Managed => "1. Managed Policies"@,
        Listing::Inline => "2. Inline Policies"@,
    }
}

/// The notice shown in place of an empty listing.
pub open spec fn empty_notice(listing: Listing) -> Seq<char> {
    match listing {
        Listing::Managed => "(No managed policies attached)"@,
        Listing::Inline => "(No inline policies attached)"@,
    }
}

/// The caption before a policy's ARN or name.
pub open spec fn caption(listing: Listing) -> Seq<char> {
    match listing {
        Listing::Managed => "[Policy ARN]: "@,
        Listing::Inline => "[Policy Name]: "@,
    }
}

/// The line printed before the identity service is asked.
pub open spec fn credentials_notice() -> Seq<SpanView> {
    styled(Style::Dimmed, "--- Checking AWS credentials ---"@)
}

/// The lines that name the role once it is known.
pub open spec fn role_notice(role_name: Seq<char>) -> Seq<Seq<SpanView>> {
    seq![captioned("Target role: "@, Style::Green, role_name), blank()]
}

/// What is shown of a policy's document: its canonical text, or the error
/// that kept it from being fetched, decoded or parsed.
pub open spec fn outcome_of(document: Result<Seq<char>, DocumentError>) -> Result<
    Seq<char>,
    DocumentError,
> {
    match document {
        Ok(raw) => normalized(raw),
        Err(error) => Err(error),
    }
}

/// The three lines of one policy in a human-readable report.
pub open spec fn human_entry(
    listing: Listing,
    label: Seq<char>,
    outcome: Result<Seq<char>, DocumentError>,
) -> Seq<Seq<SpanView>> {
    seq![
        captioned(caption(listing), Style::Cyan, label),
        match outcome {
            Ok(text) => styled(Style::Plain, text),
            Err(error) => error_notice(error),
        },
        styled(Style::Dimmed, separator()),
    ]
}

/// The lines of the policies of one listing, each policy after the other.
pub open spec fn human_entries(listing: Listing, entries: Seq<EntryView>) -> Seq<Seq<SpanView>>
    decreases entries.len(),
{
    if entries.len() == 0 {
        Seq::empty()
    } else {
        human_entries(listing, entries.drop_last()) + human_entry(
            listing,
            entries.last().label,
            outcome_of(entries.last().document),
        )
    }
}

/// One section of a human-readable report.
pub open spec fn human_section(listing: Listing, entries: Seq<EntryView>) -> Seq<Seq<SpanView>> {
    section_header(title(listing)) + if entries.len() == 0 {
        seq![styled(Style::Dimmed, empty_notice(listing))]
    } else {
        human_entries(listing, entries)
    }
}

/// A whole human-readable report.
pub open spec fn human_report(report: ReportView) -> Seq<Seq<SpanView>> {
    human_section(Listing::Managed, report.managed) + seq![blank()] + human_section(
        Listing::Inline,
        report.inline,
    )
}

/// The lines of a list of names, one plain line each.
pub open spec fn name_lines(names: Seq<Seq<char>>) -> Seq<Seq<SpanView>> {
    names.map_values(|name: Seq<char>| styled(Style::Plain, name))
}

/// One section of a name-only report.
pub open spec fn short_section(listing: Listing, names: Seq<Seq<char>>) -> Seq<Seq<SpanView>> {
    section_header(title(listing)) + if names.len() == 0 {
        seq![styled(Style::Dimmed, empty_notice(listing))]
    } else {
        name_lines(names)
    }
}

/// A whole name-only report.
pub open spec fn short_report(managed: Seq<Seq<char>>, inline: Seq<Seq<char>>) -> Seq<
    Seq<SpanView>,
> {
    short_section(Listing::Managed, managed) + seq![blank()] + short_section(
        Listing::Inline,
        inline,
    )
}

/// The JSON objects of the policies of one listing: one for each policy whose
/// document was fetched, decodes and parses, in the listing's order. The
/// others are left out.
pub open spec fn json_entries(listing: Listing, entries: Seq<EntryView>) -> Seq<JsonValue>
    decreases entries.len(),
{
    if entries.len() == 0 {
        Seq::empty()
    } else {
        let before = json_entries(listing, entries.drop_last());
        match entries.last().document {
            Ok(raw) => match embedded(raw) {
                Some(document) => before.push(
                    entry_document(listing, entries.last().label, document),
                ),
                None => before,
            },
            Err(_) => before,
        }
    }
}

/// The JSON object of a whole report.
pub open spec fn json_report(report: ReportView) -> JsonValue {
    report_document(
        report.role_name,
        json_entries(Listing::Managed, report.managed),
        json_entries(Listing::Inline, report.inline),
    )
}

/// A report without managed and without inline policies.
pub open spec fn bare_report(role_name: Seq<char>) -> ReportView {
    ReportView { role_name, managed: Seq::empty(), inline: Seq::empty() }
}

/// Empty listings are no error in any mode. In the human-readable and the
/// name-only report each section shows its own notice, and the two notices
/// differ; in the JSON report both arrays are there and empty.
pub proof fn lemma_empty_listings_are_shown(role_name: Seq<char>)
    ensures
        human_report(bare_report(role_name)) == section_header(title(Listing::Managed)) + seq![
            styled(Style::Dimmed, empty_notice(Listing::Managed)),
            blank(),
        ] + section_header(title(Listing::Inline)) + seq![
            styled(Style::Dimmed, empty_notice(Listing::Inline)),
        ],
        short_report(Seq::empty(), Seq::empty()) == human_report(bare_report(role_name)),
        json_report(bare_report(role_name)) == report_document(
            role_name,
            Seq::empty(),
            Seq::empty(),
        ),
        empty_notice(Listing::Managed) != empty_notice(Listing::Inline),
{
    reveal_strlit("(No managed policies attached)");
    reveal_strlit("(No inline policies attached)");
    assert(empty_notice(Listing::Managed).len() != empty_notice(Listing::Inline).len());
}

/// In a human-readable section every policy has its own three lines: the
/// lines of two listings, one after the other, are the lines of the first and
/// then the lines of the second.
pub proof fn lemma_human_entries_concat(
    listing: Listing,
    first: Seq<EntryView>,
    second: Seq<EntryView>,
)
    ensures
        human_entries(listing, first + second) == human_entries(listing, first) + human_entries(
            listing,
            second,
        ),
    decreases second.len(),
{
    if second.len() > 0 {
        lemma_human_entries_concat(listing, first, second.drop_last());
        assert((first + second).drop_last() == first + second.drop_last());
    }
}

/// In the JSON report the objects of two listings, one after the other, are
/// the objects of the first and then the objects of the second.
pub proof fn lemma_json_entries_concat(
    listing: Listing,
    first: Seq<EntryView>,
    second: Seq<EntryView>,
)
    ensures
        json_entries(listing, first + second) == json_entries(listing, first) + json_entries(
            listing,
            second,
        ),
    decreases second.len(),
{
    if second.len() > 0 {
        lemma_json_entries_concat(listing, first, second.drop_last());
        assert((first + second).drop_last() == first + second.drop_last());
    }
}

/// A policy whose document could not be fetched is shown with an error
/// notice in the human-readable report and is left out of the JSON report;
/// the policies before and after it are rendered as if it were not there.
pub proof fn lemma_failed_entry_is_isolated(
    listing: Listing,
    before: Seq<EntryView>,
    failed: EntryView,
    after: Seq<EntryView>,
)
    requires
        failed.document is Err,
    ensures
        human_entries(listing, before.push(failed) + after) == human_entries(listing, before)
            + human_entry(listing, failed.label, failed.document) + human_entries(listing, after),
        human_entry(listing, failed.label, failed.document)[1] == error_notice(
            failed.document->Err_0,
        ),
        json_entries(listing, before.push(failed) + after) == json_entries(listing, before)
            + json_entries(listing, after),
{
    lemma_human_entries_concat(listing, before.push(failed), after);
    lemma_json_entries_concat(listing, before.push(failed), after);
    assert(before.push(failed).drop_last() == before);
}

impl Line {
    /// A line without text.
    pub fn blank() -> (line: Line)
        ensures
            line@ == blank(),
    {
        Line { spans: Vec::new() }
    }

    /// A line in one style.
    pub fn styled(style: Style, text: String) -> (line: Line)
        ensures
            line@ == styled(style, text@),
    {
        let mut spans: Vec<Span> = Vec::new();
        spans.push(Span { style, text });
        Line { spans }
    }

    /// A line of two spans.
    pub fn pair(first: Span, second: Span) -> (line: Line)
        ensures
            line@ == seq![first@, second@],
    {
        let mut spans: Vec<Span> = Vec::new();
        spans.push(first);
        spans.push(second);
        Line { spans }
    }
}

fn title_text(listing: Listing) -> (text: &'static str)
    ensures
        text@ == title(listing),
{
    match listing {
        Listing::Managed => "1. Managed Policies",
        Listing::Inline => "2. Inline Policies",
    }
}

fn empty_notice_text(listing: Listing) -> (text: &'static str)
    ensures
        text@ == empty_notice(listing),
{
    match listing {
        Listing::Managed => "(No managed policies attached)",
        Listing::Inline => "(No inline policies attached)",
    }
}

fn caption_text(listing: Listing) -> (text: &'static str)
    ensures
        text@ == caption(listing),
{
    match listing {
        Listing::Managed => "[Policy ARN]: ",
        Listing::Inline => "[Policy Name]: ",
    }
}

/// The line to print before the identity service is asked.
pub fn credentials_banner() -> (line: Line)
    ensures
        line@ == credentials_notice(),
{
    Line::styled(Style::Dimmed, "--- Checking AWS credentials ---".to_owned())
}

/// The lines to print once the role is known.
pub fn role_banner(role_name: &str) -> (lines: Vec<Line>)
    ensures
        shown(lines@) == role_notice(role_name@),
{
    let mut lines: Vec<Line> = Vec::new();
    lines.push(
        Line::pair(
            Span { style: Style::Plain, text: "Target role: ".to_owned() },
            Span { style: Style::Green, text: role_name.to_owned() },
        ),
    );
    lines.push(Line::blank());
    lines
}

/// The three lines that head a section.
pub fn section_header_lines(title: &str) -> (lines: Vec<Line>)
    ensures
        shown(lines@) == section_header(title@),
{
    let mut lines: Vec<Line> = Vec::new();
    lines.push(
        Line::styled(Style::Blue, "==================================================".to_owned()),
    );
    lines.push(Line::styled(Style::BlueBold, "  ".to_owned().concat(title)));
    lines.push(
        Line::styled(Style::Blue, "==================================================".to_owned()),
    );
    lines
}

/// The three lines of one policy in a human-readable report: its label, then
/// its document or an error notice, then a rule.
pub fn human_entry_lines(
    listing: Listing,
    label: &str,
    outcome: Result<String, DocumentError>,
) -> (lines: Vec<Line>)
    ensures
        shown(lines@) == human_entry(listing, label@, text_outcome(outcome)),
{
    let mut lines: Vec<Line> = Vec::new();
    lines.push(
        Line::pair(
            Span { style: Style::Plain, text: caption_text(listing).to_owned() },
            Span { style: Style::Cyan, text: label.to_owned() },
        ),
    );
    match outcome {
        Ok(text) => {
            lines.push(Line::styled(Style::Plain, text));
        },
        Err(error) => {
            lines.push(
                Line::pair(
                    Span { style: Style::Red, text: "Error".to_owned() },
                    Span {
                        style: Style::Plain,
                        text: ": ".to_owned().concat(error.message().as_str()),
                    },
                ),
            );
        },
    }
    lines.push(
        Line::styled(
            Style::Dimmed,
            "--------------------------------------------------".to_owned(),
        ),
    );
    lines
}

/// One section of a human-readable report: the heading, then every policy
/// with its normalized document, or a notice where the listing is empty. A
/// policy whose document is missing or unusable gets an error notice and
/// leaves the other policies as they are.
pub fn human_section_lines(listing: Listing, entries: &Vec<PolicyEntry>) -> (lines: Vec<Line>)
    ensures
        shown(lines@) == human_section(listing, entries_view(entries@)),
{
    let mut lines = section_header_lines(title_text(listing));
    let ghost all = entries_view(entries@);
    if entries.len() == 0 {
        lines.push(Line::styled(Style::Dimmed, empty_notice_text(listing).to_owned()));
    } else {
        let mut done: usize = 0;
        while done < entries.len()
            invariant
                done <= entries.len(),
                all == entries_view(entries@),
                shown(lines@) == section_header(title(listing)) + human_entries(
                    listing,
                    all.take(done as int),
                ),
            decreases entries.len() - done,
        {
            let entry = &entries[done];
            let outcome = match &entry.document {
                Ok(raw) => normalize(raw.as_str()),
                Err(error) => Err(*error),
            };
            let mut more = human_entry_lines(listing, entry.label.as_str(), outcome);
            let ghost before = lines@;
            let ghost added = more@;
            lines.append(&mut more);
            proof {
                assert(all.take(done + 1).drop_last() =~= all.take(done as int));
                assert(shown(before + added) =~= shown(before) + shown(added));
            }
            done = done + 1;
        }
        assert(all.take(done as int) =~= all);
    }
    lines
}

/// A whole human-readable report.
pub fn render_human(report: &Report) -> (lines: Vec<Line>)
    ensures
        shown(lines@) == human_report(report@),
{
    let mut lines = human_section_lines(Listing::Managed, &report.managed);
    lines.push(Line::blank());
    let mut second = human_section_lines(Listing::Inline, &report.inline);
    lines.append(&mut second);
    lines
}

/// One section of a name-only report: the heading, then one line for each
/// name, or a notice where there is none.
pub fn short_section_lines(listing: Listing, names: &Vec<String>) -> (lines: Vec<Line>)
    ensures
        shown(lines@) == short_section(listing, names_view(names@)),
{
    let mut lines = section_header_lines(title_text(listing));
    let ghost all = names_view(names@);
    if names.len() == 0 {
        lines.push(Line::styled(Style::Dimmed, empty_notice_text(listing).to_owned()));
    } else {
        let mut done: usize = 0;
        while done < names.len()
            invariant
                done <= names.len(),
                all == names_view(names@),
                shown(lines@) == section_header(title(listing)) + name_lines(
                    all.take(done as int),
                ),
            decreases names.len() - done,
        {
            let ghost before = lines@;
            lines.push(Line::styled(Style::Plain, names[done].clone()));
            proof {
                assert(shown(lines@) =~= shown(before).push(styled(Style::Plain, all[done as int])));
            }
            done = done + 1;
        }
    }
    lines
}

/// A whole name-only report.
pub fn render_short(managed: &Vec<String>, inline: &Vec<String>) -> (lines: Vec<Line>)
    ensures
        shown(lines@) == short_report(names_view(managed@), names_view(inline@)),
{
    let mut lines = short_section_lines(Listing::Managed, managed);
    lines.push(Line::blank());
    let mut second = short_section_lines(Listing::Inline, inline);
    lines.append(&mut second);
    lines
}

/// The JSON objects of one listing: one for each policy whose document was
/// fetched, decodes and parses; the others are left out without a trace.
pub fn json_entry_values(listing: Listing, entries: &Vec<PolicyEntry>) -> (values: Vec<
    serde_json::Value,
>)
    ensures
        models(values@) == json_entries(listing, entries_view(entries@)),
{
    let mut values: Vec<serde_json::Value> = Vec::new();
    let ghost all = entries_view(entries@);
    let mut done: usize = 0;
    while done < entries.len()
        invariant
            done <= entries.len(),
            all == entries_view(entries@),
            models(values@) == json_entries(listing, all.take(done as int)),
        decreases entries.len() - done,
    {
        let entry = &entries[done];
        proof {
            assert(all.take(done + 1).drop_last() =~= all.take(done as int));
        }
        match &entry.document {
            Ok(raw) => {
                match parse_document(raw.as_str()) {
                    Some(document) => {
                        let value = entry_value(listing, entry.label.as_str(), document);
                        values.push(value);
                    },
                    None => {},
                }
            },
            Err(_) => {},
        }
        done = done + 1;
    }
    assert(all.take(done as int) =~= all);
    values
}

/// A whole JSON report: one object, written with indentation, as a single
/// line of output.
pub fn render_json(report: &Report) -> (outcome: Result<Vec<Line>, ReportError>)
    ensures
        match pretty_json(json_report(report@)) {
            Some(text) => outcome is Ok && shown(outcome->Ok_0@) == seq![
                styled(Style::Plain, text),
            ],
            None => outcome == Err::<Vec<Line>, ReportError>(ReportError::RenderFailure),
        },
{
    let managed = json_entry_values(Listing::Managed, &report.managed);
    let inline = json_entry_values(Listing::Inline, &report.inline);
    let value = report_value(report.role_name.as_str(), managed, inline);
    match json_pretty(&value) {
        Ok(text) => {
            let mut lines: Vec<Line> = Vec::new();
            lines.push(Line::styled(Style::Plain, text));
            Ok(lines)
        },
        Err(_) => Err(ReportError::RenderFailure),
    }
}

} // verus!
