use crate::document::text_outcome;
use crate::error::DocumentError;
use vstd::prelude::*;

verus! {

/// One policy of a report: its ARN or name, and the document that was fetched
/// for it, still percent-encoded, or the reason why there is none.
#[derive(Debug, PartialEq, Eq)]
pub struct PolicyEntry {
    pub label: String,
    pub document: Result<String, DocumentError>,
}

/// A policy entry as a mathematical value.
pub struct EntryView {
    pub label: Seq<char>,
    pub document: Result<Seq<char>, DocumentError>,
}

impl View for PolicyEntry {
    type V = EntryView;

    open spec fn view(&self) -> EntryView {
        EntryView { label: self.label@, document: text_outcome(self.document) }
    }
}

/// The entries of a listing, one by one.
pub open spec fn entries_view(entries: Seq<PolicyEntry>) -> Seq<EntryView> {
    entries.map_values(|entry: PolicyEntry| entry@)
}

/// The texts of a list of names, one by one.
pub open spec fn names_view(names: Seq<String>) -> Seq<Seq<char>> {
    names.map_values(|name: String| name@)
}

/// Everything a report shows: the role, its managed policies and its inline
/// policies, each listing in the order in which the policy service gave it.
#[derive(Debug, PartialEq, Eq)]
pub struct Report {
    pub role_name: String,
    pub managed: Vec<PolicyEntry>,
    pub inline: Vec<PolicyEntry>,
}

/// A report as a mathematical value.
pub struct ReportView {
    pub role_name: Seq<char>,
    pub managed: Seq<EntryView>,
    pub inline: Seq<EntryView>,
}

impl View for Report {
    type V = ReportView;

    open spec fn view(&self) -> ReportView {
        ReportView {
            role_name: self.role_name@,
            managed: entries_view(self.managed@),
            inline: entries_view(self.inline@),
        }
    }
}

} // verus!
