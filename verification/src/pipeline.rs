use crate::document::text_outcome;
use crate::error::{DocumentError, Listing, Lookup, ReportError, ReportErrorView};
use crate::exchange::{
    continues, copy_text_option, listed_arns, listed_names, listing_continues,
    managed_policy_arns, managed_policy_names, text_option, AttachedPolicyView, Reply, ReplyView,
    Request, RequestView,
};
use crate::identity::{resolve_role_name, segments};
use crate::json::pretty_json;
use crate::mode::Mode;
use crate::render::{
    credentials_banner, credentials_notice, human_report, json_report, render_human, render_json,
    render_short, role_banner, role_notice, short_report, shown, styled, Line, SpanView, Style,
};
use crate::report::{names_view, EntryView, PolicyEntry, Report, ReportView};
use vstd::prelude::*;

verus! {

/// Where a report stands: which answer it waits for, or how it ended.
#[derive(Clone, Copy, Debug, PartialEq, Eq, Structural)]
pub enum Phase {
    /// Waiting for the caller's identity.
    Identity,
    /// Waiting for a page of managed policies.
    ListManaged,
    /// Waiting for a page of inline policy names.
    ListInline,
    /// Waiting for a managed policy, to learn its default version.
    FetchPolicy,
    /// Waiting for that version, to learn its document.
    FetchVersion,
    /// Waiting for an inline policy.
    FetchInline,
    /// The report was written.
    Finished,
    /// The report was given up.
    Aborted,
}

/// What the program around the library is to do next.
#[derive(Debug, PartialEq, Eq)]
pub enum Next {
    /// Make this call and hand its answer to [`Pipeline::step`].
    Call(Request),
    /// Nothing more: the report is complete.
    Finish,
    /// Nothing more: the report failed, for this reason.
    Abort(ReportError),
}

/// A next action as a mathematical value.
pub enum NextView {
    Call(RequestView),
    Finish,
    Abort(ReportErrorView),
}

impl View for Next {
    type V = NextView;

    open spec fn view(&self) -> NextView {
        match *self {
            Next::Call(request) => NextView::Call(request@),
            Next::Finish => NextView::Finish,
            Next::Abort(error) => NextView::Abort(error@),
        }
    }
}

/// The outcome of one step: lines to print now, and what to do next.
#[derive(Debug, PartialEq, Eq)]
pub struct Step {
    pub output: Vec<Line>,
    pub next: Next,
}

/// A step as a mathematical value.
pub struct StepView {
    pub output: Seq<Seq<SpanView>>,
    pub next: NextView,
}

impl View for Step {
    type V = StepView;

    open spec fn view(&self) -> StepView {
        StepView { output: shown(self.output@), next: self.next@ }
    }
}

/// The state of a report as a mathematical value.
pub struct PipelineView {
    pub mode: Mode,
    pub phase: Phase,
    /// The marker with which the page now awaited was asked for.
    pub marker: Option<Seq<char>>,
    /// The managed policies listed so far: ARNs, or display names in
    /// name-only mode.
    pub managed: Seq<Seq<char>>,
    /// The inline policy names listed so far.
    pub inline: Seq<Seq<char>>,
    /// The role and the policies whose documents are settled.
    pub report: ReportView,
}

/// What a page of managed policies adds to the listing: display names in
/// name-only mode, ARNs otherwise.
pub open spec fn wanted(mode: Mode, policies: Seq<AttachedPolicyView>) -> Seq<Seq<char>> {
    if mode == Mode::Short {
        listed_names(policies)
    } else {
        listed_arns(policies)
    }
}

/// The state in which every report begins.
pub open spec fn initial(mode: Mode) -> PipelineView {
    PipelineView {
        mode,
        phase: Phase::Identity,
        marker: None,
        managed: Seq::empty(),
        inline: Seq::empty(),
        report: ReportView { role_name: Seq::empty(), managed: Seq::empty(), inline: Seq::empty() },
    }
}

/// The step with which every report begins.
pub open spec fn first_step() -> StepView {
    StepView {
        output: seq![credentials_notice()],
        next: NextView::Call(RequestView::CallerIdentity),
    }
}

impl PipelineView {
    /// What holds of every state that a report can reach: the settled
    /// policies are the first of the listed ones, in the same order, and the
    /// phase agrees with how far the documents have come.
    pub open spec fn wf(self) -> bool {
        &&& self.report.managed.len() <= self.managed.len()
        &&& self.report.inline.len() <= self.inline.len()
        &&& forall|i: int|
            0 <= i < self.report.managed.len() ==> (#[trigger] self.report.managed[i]).label
                == self.managed[i]
        &&& forall|i: int|
            0 <= i < self.report.inline.len() ==> (#[trigger] self.report.inline[i]).label
                == self.inline[i]
        &&& match self.phase {
            Phase::Identity | Phase::ListManaged | Phase::ListInline => {
                self.report.managed.len() == 0 && self.report.inline.len() == 0
            },
            Phase::FetchPolicy | Phase::FetchVersion => {
                &&& self.mode != Mode::Short
                &&& self.report.managed.len() < self.managed.len()
                &&& self.report.inline.len() == 0
            },
            Phase::FetchInline => {
                &&& self.mode != Mode::Short
                &&& self.report.managed.len() == self.managed.len()
                &&& self.report.inline.len() < self.inline.len()
            },
            Phase::Finished => if self.mode == Mode::Short {
                self.report.managed.len() == 0 && self.report.inline.len() == 0
            } else {
                self.report.managed.len() == self.managed.len() && self.report.inline.len()
                    == self.inline.len()
            },
            Phase::Aborted => true,
        }
    }

    /// Giving the report up: nothing is printed.
    pub open spec fn abort(self, error: ReportErrorView) -> (PipelineView, StepView) {
        (
            PipelineView { phase: Phase::Aborted, ..self },
            StepView { output: Seq::empty(), next: NextView::Abort(error) },
        )
    }

    /// Going on with a call, in the phase that waits for its answer.
    pub open spec fn call(self, phase: Phase, request: RequestView) -> (PipelineView, StepView) {
        (
            PipelineView { phase, ..self },
            StepView { output: Seq::empty(), next: NextView::Call(request) },
        )
    }

    /// Writing the report once everything is gathered.
    pub open spec fn conclude(self) -> (PipelineView, StepView) {
        let done = PipelineView { phase: Phase::Finished, ..self };
        match self.mode {
            Mode::Short => (
                done,
                StepView { output: short_report(self.managed, self.inline), next: NextView::Finish },
            ),
            Mode::Human => (
                done,
                StepView { output: human_report(self.report), next: NextView::Finish },
            ),
            Mode::Json => match pretty_json(json_report(self.report)) {
                Some(text) => (
                    done,
                    StepView { output: seq![styled(Style::Plain, text)], next: NextView::Finish },
                ),
                None => self.abort(ReportErrorView::RenderFailure),
            },
        }
    }

    /// Going on once a listing or a document is settled: name-only mode
    /// fetches nothing; otherwise the first policy without a settled document
    /// is looked up, managed policies before inline ones; with none left the
    /// report is written.
    pub open spec fn proceed(self) -> (PipelineView, StepView) {
        if self.mode == Mode::Short {
            self.conclude()
        } else if self.report.managed.len() < self.managed.len() {
            self.call(
                Phase::FetchPolicy,
                RequestView::Policy { arn: self.managed[self.report.managed.len() as int] },
            )
        } else if self.report.inline.len() < self.inline.len() {
            self.call(
                Phase::FetchInline,
                RequestView::RolePolicy {
                    role: self.report.role_name,
                    name: self.inline[self.report.inline.len() as int],
                },
            )
        } else {
            self.conclude()
        }
    }

    /// Settling the document of the policy now looked up, then going on.
    pub open spec fn record(self, listing: Listing, document: Result<Seq<char>, DocumentError>) -> (
        PipelineView,
        StepView,
    ) {
        match listing {
            Listing::Managed => PipelineView {
                report: ReportView {
                    managed: self.report.managed.push(
                        EntryView {
                            label: self.managed[self.report.managed.len() as int],
                            document,
                        },
                    ),
                    ..self.report
                },
                ..self
            }.proceed(),
            Listing::Inline => PipelineView {
                report: ReportView {
                    inline: self.report.inline.push(
                        EntryView { label: self.inline[self.report.inline.len() as int], document },
                    ),
                    ..self.report
                },
                ..self
            }.proceed(),
        }
    }

    /// The answer to the identity call: the role name is the second
    /// slash-separated segment of the identity string.
    pub open spec fn on_identity(self, reply: ReplyView) -> (PipelineView, StepView) {
        match reply {
            ReplyView::CallerIdentity { arn: Some(arn) } => if segments(arn).len() >= 2 {
                let role = segments(arn)[1];
                (
                    PipelineView {
                        phase: Phase::ListManaged,
                        report: ReportView { role_name: role, ..self.report },
                        ..self
                    },
                    StepView {
                        output: role_notice(role),
                        next: NextView::Call(RequestView::AttachedPolicies { role, marker: None }),
                    },
                )
            } else {
                self.abort(ReportErrorView::MalformedIdentity)
            },
            ReplyView::CallerIdentity { arn: None } => self.abort(ReportErrorView::IdentityAbsent),
            ReplyView::Failure => self.abort(ReportErrorView::IdentityUnavailable),
            _ => self.abort(ReportErrorView::UnexpectedReply),
        }
    }

    /// The answer to a call for a page of managed policies.
    pub open spec fn on_managed_page(self, reply: ReplyView) -> (PipelineView, StepView) {
        match reply {
            ReplyView::AttachedPolicies { policies, marker } => {
                let managed = self.managed + wanted(self.mode, policies);
                if continues(self.marker, marker) {
                    PipelineView { managed, marker, ..self }.call(
                        Phase::ListManaged,
                        RequestView::AttachedPolicies { role: self.report.role_name, marker },
                    )
                } else {
                    PipelineView { managed, marker: None, ..self }.call(
                        Phase::ListInline,
                        RequestView::InlinePolicies { role: self.report.role_name, marker: None },
                    )
                }
            },
            ReplyView::Failure => self.abort(
                ReportErrorView::PolicyListFailure {
                    role: self.report.role_name,
                    listing: Listing::Managed,
                },
            ),
            _ => self.abort(ReportErrorView::UnexpectedReply),
        }
    }

    /// The answer to a call for a page of inline policy names.
    pub open spec fn on_inline_page(self, reply: ReplyView) -> (PipelineView, StepView) {
        match reply {
            ReplyView::InlinePolicies { names, marker } => {
                let inline = self.inline + names;
                if continues(self.marker, marker) {
                    PipelineView { inline, marker, ..self }.call(
                        Phase::ListInline,
                        RequestView::InlinePolicies { role: self.report.role_name, marker },
                    )
                } else {
                    PipelineView { inline, marker: None, ..self }.proceed()
                }
            },
            ReplyView::Failure => self.abort(
                ReportErrorView::PolicyListFailure {
                    role: self.report.role_name,
                    listing: Listing::Inline,
                },
            ),
            _ => self.abort(ReportErrorView::UnexpectedReply),
        }
    }

    /// The answer to the call for a managed policy: with a default version,
    /// that version is asked for; without, the policy has no document.
    pub open spec fn on_policy(self, reply: ReplyView) -> (PipelineView, StepView) {
        match reply {
            ReplyView::Policy { default_version_id: Some(version_id) } => self.call(
                Phase::FetchVersion,
                RequestView::PolicyVersion {
                    arn: self.managed[self.report.managed.len() as int],
                    version_id,
                },
            ),
            ReplyView::Policy { default_version_id: None } => self.record(
                Listing::Managed,
                Err(DocumentError::Unavailable(Lookup::DefaultVersion)),
            ),
            ReplyView::Failure => self.record(
                Listing::Managed,
                Err(DocumentError::Unavailable(Lookup::Policy)),
            ),
            _ => self.abort(ReportErrorView::UnexpectedReply),
        }
    }

    /// The answer to the call for a policy version.
    pub open spec fn on_version(self, reply: ReplyView) -> (PipelineView, StepView) {
        match reply {
            ReplyView::PolicyVersion { document: Some(document) } => self.record(
                Listing::Managed,
                Ok(document),
            ),
            ReplyView::PolicyVersion { document: None } => self.record(
                Listing::Managed,
                Err(DocumentError::Unavailable(Lookup::VersionDocument)),
            ),
            ReplyView::Failure => self.record(
                Listing::Managed,
                Err(DocumentError::Unavailable(Lookup::PolicyVersion)),
            ),
            _ => self.abort(ReportErrorView::UnexpectedReply),
        }
    }

    /// The answer to the call for an inline policy.
    pub open spec fn on_role_policy(self, reply: ReplyView) -> (PipelineView, StepView) {
        match reply {
            ReplyView::RolePolicy { policy_document } => self.record(
                Listing::Inline,
                Ok(policy_document),
            ),
            ReplyView::Failure => self.record(
                Listing::Inline,
                Err(DocumentError::Unavailable(Lookup::RolePolicy)),
            ),
            _ => self.abort(ReportErrorView::UnexpectedReply),
        }
    }

    /// The state after the given answers have come one after the other.
    pub open spec fn after_all(self, replies: Seq<ReplyView>) -> PipelineView
        decreases replies.len(),
    {
        if replies.len() == 0 {
            self
        } else {
            self.after_all(replies.drop_last()).after(replies.last()).0
        }
    }

    /// The state and the step that follow when `reply` arrives.
    pub open spec fn after(self, reply: ReplyView) -> (PipelineView, StepView) {
        match self.phase {
            Phase::Identity => self.on_identity(reply),
            Phase::ListManaged => self.on_managed_page(reply),
            Phase::ListInline => self.on_inline_page(reply),
            Phase::FetchPolicy => self.on_policy(reply),
            Phase::FetchVersion => self.on_version(reply),
            Phase::FetchInline => self.on_role_policy(reply),
            Phase::Finished | Phase::Aborted => self.abort(ReportErrorView::UnexpectedReply),
        }
    }
}

/// Every report begins in a well-formed state.
pub proof fn lemma_initial_wf(mode: Mode)
    ensures
        initial(mode).wf(),
{
}

/// A step leads from a well-formed state to a well-formed state, whatever
/// the answer.
pub proof fn lemma_step_keeps_wf(pre: PipelineView, reply: ReplyView)
    requires
        pre.wf(),
    ensures
        pre.after(reply).0.wf(),
{
}

/// The state that a report is in after the given answers, in their order.
pub open spec fn reached(mode: Mode, replies: Seq<ReplyView>) -> PipelineView {
    initial(mode).after_all(replies)
}

/// Whatever answers come, the report stays in a well-formed state.
pub proof fn lemma_reached_wf(mode: Mode, replies: Seq<ReplyView>)
    ensures
        reached(mode, replies).wf(),
    decreases replies.len(),
{
    if replies.len() > 0 {
        lemma_reached_wf(mode, replies.drop_last());
        lemma_step_keeps_wf(reached(mode, replies.drop_last()), replies.last());
    }
}

/// The marker that a page names for the page after it.
pub open spec fn page_marker(page: ReplyView) -> Option<Seq<char>> {
    match page {
        ReplyView::AttachedPolicies { marker, .. } => marker,
        ReplyView::InlinePolicies { marker, .. } => marker,
        _ => None,
    }
}

/// What a page adds to its listing.
pub open spec fn page_labels(mode: Mode, page: ReplyView) -> Seq<Seq<char>> {
    match page {
        ReplyView::AttachedPolicies { policies, .. } => wanted(mode, policies),
        ReplyView::InlinePolicies { names, .. } => names,
        _ => Seq::empty(),
    }
}

/// What the given pages add to their listing, page after page.
pub open spec fn gathered(mode: Mode, pages: Seq<ReplyView>) -> Seq<Seq<char>>
    decreases pages.len(),
{
    if pages.len() == 0 {
        Seq::empty()
    } else {
        gathered(mode, pages.drop_last()) + page_labels(mode, pages.last())
    }
}

/// The marker with which the page after the given ones is asked for, where
/// the first of them was asked for with `asked`.
pub open spec fn marker_after(asked: Option<Seq<char>>, pages: Seq<ReplyView>) -> Option<
    Seq<char>,
> {
    if pages.len() == 0 {
        asked
    } else {
        page_marker(pages.last())
    }
}

/// Whether the listing goes on after each of the given pages.
pub open spec fn all_continue(asked: Option<Seq<char>>, pages: Seq<ReplyView>) -> bool
    decreases pages.len(),
{
    pages.len() == 0 || (all_continue(asked, pages.drop_last()) && continues(
        marker_after(asked, pages.drop_last()),
        page_marker(pages.last()),
    ))
}

/// While the pages of a listing name new markers, the report stays in the
/// listing and gathers what they hold, in their order.
pub proof fn lemma_pages_are_gathered(pre: PipelineView, pages: Seq<ReplyView>)
    requires
        pre.phase == Phase::ListManaged || pre.phase == Phase::ListInline,
        pre.phase == Phase::ListManaged ==> forall|i: int|
            0 <= i < pages.len() ==> pages[i] is AttachedPolicies,
        pre.phase == Phase::ListInline ==> forall|i: int|
            0 <= i < pages.len() ==> pages[i] is InlinePolicies,
        all_continue(pre.marker, pages),
    ensures
        pre.phase == Phase::ListManaged ==> pre.after_all(pages) == (PipelineView {
            managed: pre.managed + gathered(pre.mode, pages),
            marker: marker_after(pre.marker, pages),
            ..pre
        }),
        pre.phase == Phase::ListInline ==> pre.after_all(pages) == (PipelineView {
            inline: pre.inline + gathered(pre.mode, pages),
            marker: marker_after(pre.marker, pages),
            ..pre
        }),
    decreases pages.len(),
{
    if pages.len() > 0 {
        let earlier = pages.drop_last();
        lemma_pages_are_gathered(pre, earlier);
        assert(pre.managed + gathered(pre.mode, earlier) + page_labels(pre.mode, pages.last())
            == pre.managed + gathered(pre.mode, pages));
        assert(pre.inline + gathered(pre.mode, earlier) + page_labels(pre.mode, pages.last())
            == pre.inline + gathered(pre.mode, pages));
    }
}

/// The listing of managed policies is drained: when the pages but the last
/// name new markers and the last does not, the listing holds what all of them
/// hold, in the order in which they came, and the inline policies are asked
/// for next.
pub proof fn lemma_managed_listing_is_drained(
    pre: PipelineView,
    pages: Seq<ReplyView>,
    last: ReplyView,
)
    requires
        pre.phase == Phase::ListManaged,
        forall|i: int| 0 <= i < pages.len() ==> pages[i] is AttachedPolicies,
        last is AttachedPolicies,
        all_continue(pre.marker, pages),
        !continues(marker_after(pre.marker, pages), page_marker(last)),
    ensures
        pre.after_all(pages.push(last)) == (PipelineView {
            phase: Phase::ListInline,
            managed: pre.managed + gathered(pre.mode, pages.push(last)),
            marker: None,
            ..pre
        }),
        pre.after_all(pages).after(last).1.next == NextView::Call(
            RequestView::InlinePolicies { role: pre.report.role_name, marker: None },
        ),
{
    lemma_pages_are_gathered(pre, pages);
    assert(pages.push(last).drop_last() == pages);
    assert(pre.managed + gathered(pre.mode, pages) + page_labels(pre.mode, last) == pre.managed
        + gathered(pre.mode, pages.push(last)));
}

/// The listing of inline policies is drained in the same way; after its last
/// page the report goes on to the documents, or is written.
pub proof fn lemma_inline_listing_is_drained(
    pre: PipelineView,
    pages: Seq<ReplyView>,
    last: ReplyView,
)
    requires
        pre.phase == Phase::ListInline,
        forall|i: int| 0 <= i < pages.len() ==> pages[i] is InlinePolicies,
        last is InlinePolicies,
        all_continue(pre.marker, pages),
        !continues(marker_after(pre.marker, pages), page_marker(last)),
    ensures
        pre.after_all(pages).after(last) == (PipelineView {
            inline: pre.inline + gathered(pre.mode, pages.push(last)),
            marker: None,
            ..pre
        }).proceed(),
{
    lemma_pages_are_gathered(pre, pages);
    assert(pages.push(last).drop_last() == pages);
    assert(pre.inline + gathered(pre.mode, pages) + page_labels(pre.mode, last) == pre.inline
        + gathered(pre.mode, pages.push(last)));
}

/// Whether a request asks for a policy document or for a step towards one.
pub open spec fn asks_for_document(request: RequestView) -> bool {
    request is Policy || request is PolicyVersion || request is RolePolicy
}

/// A report that is given up prints nothing in its last step, and ends in
/// the aborted phase.
pub proof fn lemma_abort_prints_nothing(pre: PipelineView, reply: ReplyView)
    ensures
        pre.after(reply).1.next is Abort ==> pre.after(reply).1.output.len() == 0 && pre.after(
            reply,
        ).0.phase == Phase::Aborted,
{
}

/// Nothing but the role notice is printed before the report is finished: a
/// failed identity call or listing ends the report before any section.
pub proof fn lemma_sections_come_last(pre: PipelineView, reply: ReplyView)
    ensures
        pre.after(reply).1.output.len() > 0 ==> pre.after(reply).1.next is Finish || (pre.phase
            == Phase::Identity && pre.after(reply).1.output == role_notice(
            pre.after(reply).0.report.role_name,
        )),
        pre.after(reply).1.next is Finish ==> pre.after(reply).0.phase == Phase::Finished,
{
}

/// A failed identity call or listing ends the report, with the error that
/// names the call.
pub proof fn lemma_failed_call_is_fatal(pre: PipelineView)
    ensures
        pre.phase == Phase::Identity ==> pre.after(ReplyView::Failure).1.next == NextView::Abort(
            ReportErrorView::IdentityUnavailable,
        ),
        pre.phase == Phase::ListManaged ==> pre.after(ReplyView::Failure).1.next
            == NextView::Abort(
            ReportErrorView::PolicyListFailure {
                role: pre.report.role_name,
                listing: Listing::Managed,
            },
        ),
        pre.phase == Phase::ListInline ==> pre.after(ReplyView::Failure).1.next == NextView::Abort(
            ReportErrorView::PolicyListFailure {
                role: pre.report.role_name,
                listing: Listing::Inline,
            },
        ),
{
}

/// A document lookup that fails does not end the report. The failure is
/// settled as the document of the policy that was looked up, the policies
/// settled before stay as they were, and the report goes on; only writing
/// the finished JSON report can still fail.
pub proof fn lemma_lookup_failure_is_isolated(pre: PipelineView)
    requires
        pre.wf(),
        pre.phase == Phase::FetchPolicy || pre.phase == Phase::FetchVersion || pre.phase
            == Phase::FetchInline,
    ensures
        ({
            let (post, step) = pre.after(ReplyView::Failure);
            let lookup = match pre.phase {
                Phase::FetchPolicy => Lookup::Policy,
                Phase::FetchVersion => Lookup::PolicyVersion,
                _ => Lookup::RolePolicy,
            };
            let failed = Err::<Seq<char>, DocumentError>(DocumentError::Unavailable(lookup));
            &&& step.next is Abort ==> pre.mode == Mode::Json && step.next == NextView::Abort(
                ReportErrorView::RenderFailure,
            )
            &&& pre.phase == Phase::FetchInline ==> post.report.managed == pre.report.managed
                && post.report.inline == pre.report.inline.push(
                EntryView { label: pre.inline[pre.report.inline.len() as int], document: failed },
            )
            &&& pre.phase != Phase::FetchInline ==> post.report.inline == pre.report.inline
                && post.report.managed == pre.report.managed.push(
                EntryView { label: pre.managed[pre.report.managed.len() as int], document: failed },
            )
        }),
{
}

/// In name-only mode no document is ever asked for.
pub proof fn lemma_short_mode_fetches_nothing(pre: PipelineView, reply: ReplyView)
    requires
        pre.wf(),
        pre.mode == Mode::Short,
    ensures
        pre.after(reply).0.mode == Mode::Short,
        pre.after(reply).1.next matches NextView::Call(request) ==> !asks_for_document(request),
{
}

/// A policy version is asked for only after the policy itself has named it:
/// the second lookup is never tried without the first having succeeded.
pub proof fn lemma_version_follows_policy(pre: PipelineView, reply: ReplyView)
    requires
        pre.after(reply).1.next matches NextView::Call(request) && request is PolicyVersion,
    ensures
        pre.phase == Phase::FetchPolicy,
        reply matches ReplyView::Policy { default_version_id: Some(version_id) }
            && pre.after(reply).1.next == NextView::Call(
            RequestView::PolicyVersion {
                arn: pre.managed[pre.report.managed.len() as int],
                version_id,
            },
        ),
{
}

/// A finished report covers the listings: in the modes that show documents,
/// every listed policy has its entry, under its own label and in the
/// listing's order.
pub proof fn lemma_finished_report_is_complete(pre: PipelineView, reply: ReplyView)
    requires
        pre.wf(),
        pre.mode != Mode::Short,
        pre.after(reply).0.phase == Phase::Finished,
    ensures
        ({
            let post = pre.after(reply).0;
            &&& post.report.managed.len() == post.managed.len()
            &&& post.report.inline.len() == post.inline.len()
            &&& forall|i: int|
                0 <= i < post.managed.len() ==> (#[trigger] post.report.managed[i]).label
                    == post.managed[i]
            &&& forall|i: int|
                0 <= i < post.inline.len() ==> (#[trigger] post.report.inline[i]).label
                    == post.inline[i]
        }),
{
    lemma_step_keeps_wf(pre, reply);
}

struct State {
    mode: Mode,
    phase: Phase,
    marker: Option<String>,
    managed: Vec<String>,
    inline: Vec<String>,
    report: Report,
}

impl View for State {
    type V = PipelineView;

    closed spec fn view(&self) -> PipelineView {
        PipelineView {
            mode: self.mode,
            phase: self.phase,
            marker: text_option(self.marker),
            managed: names_view(self.managed@),
            inline: names_view(self.inline@),
            report: self.report@,
        }
    }
}

fn quiet(next: Next) -> (step: Step)
    ensures
        step@ == (StepView { output: Seq::empty(), next: next@ }),
{
    let step = Step { output: Vec::new(), next };
    assert(step@.output =~= Seq::empty());
    step
}

fn abort(state: &mut State, error: ReportError) -> (step: Step)
    ensures
        (final(state)@, step@) == old(state)@.abort(error@),
{
    state.phase = Phase::Aborted;
    quiet(Next::Abort(error))
}

fn conclude(state: &mut State) -> (step: Step)
    ensures
        (final(state)@, step@) == old(state)@.conclude(),
{
    match state.mode {
        Mode::Short => {
            let output = render_short(&state.managed, &state.inline);
            state.phase = Phase::Finished;
            Step { output, next: Next::Finish }
        },
        Mode::Human => {
            let output = render_human(&state.report);
            state.phase = Phase::Finished;
            Step { output, next: Next::Finish }
        },
        Mode::Json => match render_json(&state.report) {
            Ok(output) => {
                state.phase = Phase::Finished;
                Step { output, next: Next::Finish }
            },
            Err(error) => abort(state, error),
        },
    }
}

fn proceed(state: &mut State) -> (step: Step)
    ensures
        (final(state)@, step@) == old(state)@.proceed(),
{
    let settled_managed: usize = state.report.managed.len();
    let settled_inline: usize = state.report.inline.len();
    match state.mode {
        Mode::Short => conclude(state),
        _ => {
            if settled_managed < state.managed.len() {
                let arn = state.managed[settled_managed].clone();
                state.phase = Phase::FetchPolicy;
                quiet(Next::Call(Request::Policy { arn }))
            } else if settled_inline < state.inline.len() {
                let name = state.inline[settled_inline].clone();
                let role = state.report.role_name.clone();
                state.phase = Phase::FetchInline;
                quiet(Next::Call(Request::RolePolicy { role, name }))
            } else {
                conclude(state)
            }
        },
    }
}

fn record(state: &mut State, listing: Listing, document: Result<String, DocumentError>) -> (step:
    Step)
    requires
        listing == Listing::Managed ==> old(state).report.managed.len() < old(state).managed.len(),
        listing == Listing::Inline ==> old(state).report.inline.len() < old(state).inline.len(),
    ensures
        (final(state)@, step@) == old(state)@.record(listing, text_outcome(document)),
{
    let ghost before = state@;
    match listing {
        Listing::Managed => {
            let label = state.managed[state.report.managed.len()].clone();
            let entry = PolicyEntry { label, document };
            state.report.managed.push(entry);
            assert(state@.report.managed =~= before.report.managed.push(entry@));
        },
        Listing::Inline => {
            let label = state.inline[state.report.inline.len()].clone();
            let entry = PolicyEntry { label, document };
            state.report.inline.push(entry);
            assert(state@.report.inline =~= before.report.inline.push(entry@));
        },
    }
    proceed(state)
}

fn on_identity(state: &mut State, reply: Reply) -> (step: Step)
    ensures
        (final(state)@, step@) == old(state)@.on_identity(reply@),
{
    match reply {
        Reply::CallerIdentity { arn: Some(arn) } => match resolve_role_name(arn.as_str()) {
            Ok(role) => {
                let output = role_banner(role.as_str());
                let request = Request::AttachedPolicies { role: role.clone(), marker: None };
                state.report.role_name = role;
                state.phase = Phase::ListManaged;
                Step { output, next: Next::Call(request) }
            },
            Err(error) => abort(state, error),
        },
        Reply::CallerIdentity { arn: None } => abort(state, ReportError::IdentityAbsent),
        Reply::Failure => abort(state, ReportError::IdentityUnavailable),
        _ => abort(state, ReportError::UnexpectedReply),
    }
}

fn on_managed_page(state: &mut State, reply: Reply) -> (step: Step)
    ensures
        (final(state)@, step@) == old(state)@.on_managed_page(reply@),
{
    match reply {
        Reply::AttachedPolicies { policies, marker } => {
            let mut labels = match state.mode {
                Mode::Short => managed_policy_names(&policies),
                _ => managed_policy_arns(&policies),
            };
            let ghost added = labels@;
            let ghost listed = state.managed@;
            state.managed.append(&mut labels);
            assert(names_view(listed + added) =~= names_view(listed) + names_view(added));
            let role = state.report.role_name.clone();
            if listing_continues(&state.marker, &marker) {
                let request = Request::AttachedPolicies { role, marker: copy_text_option(&marker) };
                state.marker = marker;
                state.phase = Phase::ListManaged;
                quiet(Next::Call(request))
            } else {
                state.marker = None;
                state.phase = Phase::ListInline;
                quiet(Next::Call(Request::InlinePolicies { role, marker: None }))
            }
        },
        Reply::Failure => {
            let role = state.report.role_name.clone();
            abort(state, ReportError::PolicyListFailure { role, listing: Listing::Managed })
        },
        _ => abort(state, ReportError::UnexpectedReply),
    }
}

fn on_inline_page(state: &mut State, reply: Reply) -> (step: Step)
    ensures
        (final(state)@, step@) == old(state)@.on_inline_page(reply@),
{
    match reply {
        Reply::InlinePolicies { names, marker } => {
            let mut names = names;
            let ghost added = names@;
            let ghost listed = state.inline@;
            state.inline.append(&mut names);
            assert(names_view(listed + added) =~= names_view(listed) + names_view(added));
            if listing_continues(&state.marker, &marker) {
                let role = state.report.role_name.clone();
                let request = Request::InlinePolicies { role, marker: copy_text_option(&marker) };
                state.marker = marker;
                state.phase = Phase::ListInline;
                quiet(Next::Call(request))
            } else {
                state.marker = None;
                proceed(state)
            }
        },
        Reply::Failure => {
            let role = state.report.role_name.clone();
            abort(state, ReportError::PolicyListFailure { role, listing: Listing::Inline })
        },
        _ => abort(state, ReportError::UnexpectedReply),
    }
}

fn on_policy(state: &mut State, reply: Reply) -> (step: Step)
    requires
        old(state).report.managed.len() < old(state).managed.len(),
    ensures
        (final(state)@, step@) == old(state)@.on_policy(reply@),
{
    match reply {
        Reply::Policy { default_version_id: Some(version_id) } => {
            let arn = state.managed[state.report.managed.len()].clone();
            state.phase = Phase::FetchVersion;
            quiet(Next::Call(Request::PolicyVersion { arn, version_id }))
        },
        Reply::Policy { default_version_id: None } => record(
            state,
            Listing::Managed,
            Err(DocumentError::Unavailable(Lookup::DefaultVersion)),
        ),
        Reply::Failure => record(
            state,
            Listing::Managed,
            Err(DocumentError::Unavailable(Lookup::Policy)),
        ),
        _ => abort(state, ReportError::UnexpectedReply),
    }
}

fn on_version(state: &mut State, reply: Reply) -> (step: Step)
    requires
        old(state).report.managed.len() < old(state).managed.len(),
    ensures
        (final(state)@, step@) == old(state)@.on_version(reply@),
{
    match reply {
        Reply::PolicyVersion { document: Some(document) } => record(
            state,
            Listing::Managed,
            Ok(document),
        ),
        Reply::PolicyVersion { document: None } => record(
            state,
            Listing::Managed,
            Err(DocumentError::Unavailable(Lookup::VersionDocument)),
        ),
        Reply::Failure => record(
            state,
            Listing::Managed,
            Err(DocumentError::Unavailable(Lookup::PolicyVersion)),
        ),
        _ => abort(state, ReportError::UnexpectedReply),
    }
}

fn on_role_policy(state: &mut State, reply: Reply) -> (step: Step)
    requires
        old(state).report.inline.len() < old(state).inline.len(),
    ensures
        (final(state)@, step@) == old(state)@.on_role_policy(reply@),
{
    match reply {
        Reply::RolePolicy { policy_document } => record(state, Listing::Inline, Ok(policy_document)),
        Reply::Failure => record(
            state,
            Listing::Inline,
            Err(DocumentError::Unavailable(Lookup::RolePolicy)),
        ),
        _ => abort(state, ReportError::UnexpectedReply),
    }
}

/// A report in the making. It asks for one call at a time and is moved on by
/// the answer; it never makes a call itself.
pub struct Pipeline {
    state: State,
}

impl View for Pipeline {
    type V = PipelineView;

    closed spec fn view(&self) -> PipelineView {
        self.state@
    }
}

impl Pipeline {
    #[verifier::type_invariant]
    spec fn well_formed(self) -> bool {
        self.state@.wf()
    }

    /// Begins a report in the given mode: prints the notice that credentials
    /// are being checked and asks for the caller's identity.
    pub fn start(mode: Mode) -> (outcome: (Pipeline, Step))
        ensures
            outcome.0@ == initial(mode),
            outcome.1@ == first_step(),
    {
        let state = State {
            mode,
            phase: Phase::Identity,
            marker: None,
            managed: Vec::new(),
            inline: Vec::new(),
            report: Report { role_name: String::new(), managed: Vec::new(), inline: Vec::new() },
        };
        assert(state@.managed =~= Seq::empty() && state@.inline =~= Seq::empty());
        assert(state@.report.managed =~= Seq::empty() && state@.report.inline =~= Seq::empty());
        let mut output: Vec<Line> = Vec::new();
        output.push(credentials_banner());
        let step = Step { output, next: Next::Call(Request::CallerIdentity) };
        assert(step@.output =~= first_step().output);
        (Pipeline { state }, step)
    }

    /// Takes the answer to the call that the last step asked for, and says
    /// what to print and what to do next.
    ///
    /// A failed identity call or listing ends the report. A failed document
    /// lookup is noted with its policy, and the report goes on.
    pub fn step(self, reply: Reply) -> (outcome: (Pipeline, Step))
        ensures
            (outcome.0@, outcome.1@) == self@.after(reply@),
    {
        proof {
            use_type_invariant(&self);
            lemma_step_keeps_wf(self@, reply@);
        }
        let mut state = self.state;
        let step = match state.phase {
            Phase::Identity => on_identity(&mut state, reply),
            Phase::ListManaged => on_managed_page(&mut state, reply),
            Phase::ListInline => on_inline_page(&mut state, reply),
            Phase::FetchPolicy => on_policy(&mut state, reply),
            Phase::FetchVersion => on_version(&mut state, reply),
            Phase::FetchInline => on_role_policy(&mut state, reply),
            Phase::Finished | Phase::Aborted => abort(&mut state, ReportError::UnexpectedReply),
        };
        (Pipeline { state }, step)
    }

    /// The phase the report is in.
    pub fn phase(&self) -> (phase: Phase)
        ensures
            phase == self@.phase,
    {
        self.state.phase
    }

    /// The role and the policies whose documents are settled so far.
    pub fn report(&self) -> (report: &Report)
        ensures
            report@ == self@.report,
    {
        &self.state.report
    }
}

} // verus!
