//! The report against a service that gives the same answer whenever it is
//! asked the same: what the pipeline ends with, stated over the service's
//! answers alone.

use crate::error::{DocumentError, Lookup};
use crate::exchange::{ReplyView, RequestView};
use crate::mode::Mode;
use crate::exchange::AttachedPolicyView;
use crate::identity::segments;
use crate::pipeline::{first_step, initial, wanted, NextView, Phase, PipelineView, StepView};
use crate::report::{EntryView, ReportView};
use vstd::prelude::*;

verus! {

/// Whether every answer of the service is a failure or of the kind that its
/// request asks for.
pub open spec fn answers_in_kind(service: spec_fn(RequestView) -> ReplyView) -> bool {
    forall|request: RequestView|
        (#[trigger] service(request)) is Failure || match request {
            RequestView::CallerIdentity => service(request) is CallerIdentity,
            RequestView::AttachedPolicies { .. } => service(request) is AttachedPolicies,
            RequestView::InlinePolicies { .. } => service(request) is InlinePolicies,
            RequestView::Policy { .. } => service(request) is Policy,
            RequestView::PolicyVersion { .. } => service(request) is PolicyVersion,
            RequestView::RolePolicy { .. } => service(request) is RolePolicy,
        }
}

/// The document of a managed policy as the service gives it: the policy is
/// asked for its default version, then that version for its document. A step
/// that fails or comes back empty is the reason why there is no document.
pub open spec fn managed_document(service: spec_fn(RequestView) -> ReplyView, arn: Seq<char>)
    -> Result<Seq<char>, DocumentError> {
    match service(RequestView::Policy { arn }) {
        ReplyView::Policy { default_version_id: Some(version_id) } => match service(
            RequestView::PolicyVersion { arn, version_id },
        ) {
            ReplyView::PolicyVersion { document: Some(document) } => Ok(document),
            ReplyView::PolicyVersion { document: None } => Err(
                DocumentError::Unavailable(Lookup::VersionDocument),
            ),
            _ => Err(DocumentError::Unavailable(Lookup::PolicyVersion)),
        },
        ReplyView::Policy { default_version_id: None } => Err(
            DocumentError::Unavailable(Lookup::DefaultVersion),
        ),
        _ => Err(DocumentError::Unavailable(Lookup::Policy)),
    }
}

/// The document of an inline policy as the service gives it.
pub open spec fn inline_document(
    service: spec_fn(RequestView) -> ReplyView,
    role: Seq<char>,
    name: Seq<char>,
) -> Result<Seq<char>, DocumentError> {
    match service(RequestView::RolePolicy { role, name }) {
        ReplyView::RolePolicy { policy_document } => Ok(policy_document),
        _ => Err(DocumentError::Unavailable(Lookup::RolePolicy)),
    }
}

/// The entries of the listed managed policies, each with the document that
/// the service gives for it.
pub open spec fn managed_entries(service: spec_fn(RequestView) -> ReplyView, arns: Seq<Seq<char>>)
    -> Seq<EntryView> {
    Seq::new(
        arns.len(),
        |i: int| EntryView { label: arns[i], document: managed_document(service, arns[i]) },
    )
}

/// The entries of the listed inline policies, each with the document that
/// the service gives for it.
pub open spec fn inline_entries(
    service: spec_fn(RequestView) -> ReplyView,
    role: Seq<char>,
    names: Seq<Seq<char>>,
) -> Seq<EntryView> {
    Seq::new(
        names.len(),
        |i: int| EntryView { label: names[i], document: inline_document(service, role, names[i]) },
    )
}

/// Where a report stands after at most `calls` further calls, each answered
/// by the service: it stops earlier when no call is asked for.
pub open spec fn run(
    service: spec_fn(RequestView) -> ReplyView,
    state: PipelineView,
    step: StepView,
    calls: nat,
) -> (PipelineView, StepView)
    decreases calls,
{
    if calls == 0 {
        (state, step)
    } else {
        match step.next {
            NextView::Call(request) => {
                let (following, next_step) = state.after(service(request));
                run(service, following, next_step, (calls - 1) as nat)
            },
            _ => (state, step),
        }
    }
}

/// The state in which every listed policy has its entry.
pub open spec fn settled(service: spec_fn(RequestView) -> ReplyView, state: PipelineView)
    -> PipelineView {
    PipelineView {
        report: ReportView {
            managed: managed_entries(service, state.managed),
            inline: inline_entries(service, state.report.role_name, state.inline),
            ..state.report
        },
        ..state
    }
}

/// From a state in which the first `managed` managed policies and the first
/// `inline` inline policies are settled as the service gives them, the
/// report settles the others and is written.
proof fn lemma_remaining_documents(
    service: spec_fn(RequestView) -> ReplyView,
    state: PipelineView,
    managed: nat,
    inline: nat,
    calls: nat,
)
    requires
        answers_in_kind(service),
        state.mode != Mode::Short,
        managed <= state.managed.len(),
        inline <= state.inline.len(),
        managed < state.managed.len() ==> inline == 0,
        state.report.managed == managed_entries(service, state.managed).take(managed as int),
        state.report.inline == inline_entries(service, state.report.role_name, state.inline).take(
            inline as int,
        ),
        calls >= 2 * (state.managed.len() - managed) + (state.inline.len() - inline),
    ensures
        run(service, state.proceed().0, state.proceed().1, calls) == settled(
            service,
            state,
        ).conclude(),
    decreases (state.managed.len() - managed) + (state.inline.len() - inline),
{
    reveal_with_fuel(run, 3);
    let role = state.report.role_name;
    let all_managed = managed_entries(service, state.managed);
    let all_inline = inline_entries(service, role, state.inline);
    if managed < state.managed.len() {
        let arn = state.managed[managed as int];
        let document = managed_document(service, arn);
        let next = PipelineView {
            report: ReportView {
                managed: state.report.managed.push(EntryView { label: arn, document }),
                ..state.report
            },
            ..state
        };
        assert(all_managed.take(managed as int + 1) == all_managed.take(managed as int).push(
            all_managed[managed as int],
        ));
        let first = service(RequestView::Policy { arn });
        if let ReplyView::Policy { default_version_id: Some(version_id) } = first {
            lemma_remaining_documents(service, next, managed + 1, inline, (calls - 2) as nat);
        } else {
            lemma_remaining_documents(service, next, managed + 1, inline, (calls - 1) as nat);
        }
        assert(settled(service, next) == settled(service, state));
    } else if inline < state.inline.len() {
        let name = state.inline[inline as int];
        let document = inline_document(service, role, name);
        let next = PipelineView {
            report: ReportView {
                inline: state.report.inline.push(EntryView { label: name, document }),
                ..state.report
            },
            ..state
        };
        assert(all_inline.take(inline as int + 1) == all_inline.take(inline as int).push(
            all_inline[inline as int],
        ));
        lemma_remaining_documents(service, next, managed, inline + 1, (calls - 1) as nat);
        assert(settled(service, next) == settled(service, state));
    } else {
        assert(all_managed.take(managed as int) == all_managed);
        assert(all_inline.take(inline as int) == all_inline);
        assert(settled(service, state) == state);
    }
}

/// Once the listings are in, the report looks up every listed policy,
/// managed policies first, each by its own calls, and is then written from
/// what the service gave for each. A lookup that fails is the document of
/// its own policy and of no other; the calls that are made are at most two
/// for each managed and one for each inline policy.
pub proof fn lemma_every_document_is_looked_up(
    service: spec_fn(RequestView) -> ReplyView,
    state: PipelineView,
    calls: nat,
)
    requires
        answers_in_kind(service),
        state.mode != Mode::Short,
        state.report.managed.len() == 0,
        state.report.inline.len() == 0,
        calls >= 2 * state.managed.len() + state.inline.len(),
    ensures
        run(service, state.proceed().0, state.proceed().1, calls) == settled(
            service,
            state,
        ).conclude(),
{
    assert(state.report.managed == managed_entries(service, state.managed).take(0));
    assert(state.report.inline == inline_entries(
        service,
        state.report.role_name,
        state.inline,
    ).take(0));
    lemma_remaining_documents(service, state, 0, 0, calls);
}

/// The state of a report for `role` once both listings are in and no
/// document is settled yet.
pub open spec fn listed(
    mode: Mode,
    role: Seq<char>,
    managed: Seq<Seq<char>>,
    inline: Seq<Seq<char>>,
) -> PipelineView {
    PipelineView {
        mode,
        phase: Phase::ListInline,
        marker: None,
        managed,
        inline,
        report: ReportView { role_name: role, managed: Seq::empty(), inline: Seq::empty() },
    }
}

/// A whole report against a service whose listings fit in one page each:
/// from the first step on, the calls lead to the report of the role that the
/// identity names, with every listed policy in it. In name-only mode the
/// report is written from the listings alone; otherwise from the document
/// that the service gives for each policy.
pub proof fn lemma_report_of_a_service(
    service: spec_fn(RequestView) -> ReplyView,
    mode: Mode,
    identity: Seq<char>,
    policies: Seq<AttachedPolicyView>,
    names: Seq<Seq<char>>,
    calls: nat,
)
    requires
        answers_in_kind(service),
        segments(identity).len() >= 2,
        service(RequestView::CallerIdentity) == (ReplyView::CallerIdentity {
            arn: Some(identity),
        }),
        service(RequestView::AttachedPolicies { role: segments(identity)[1], marker: None })
            == (ReplyView::AttachedPolicies { policies, marker: None }),
        service(RequestView::InlinePolicies { role: segments(identity)[1], marker: None })
            == (ReplyView::InlinePolicies { names, marker: None }),
        calls >= 3 + 2 * wanted(mode, policies).len() + names.len(),
    ensures
        ({
            let gathered = listed(mode, segments(identity)[1], wanted(mode, policies), names);
            run(service, initial(mode), first_step(), calls) == if mode == Mode::Short {
                gathered.conclude()
            } else {
                settled(service, gathered).conclude()
            }
        }),
{
    reveal_with_fuel(run, 4);
    let role = segments(identity)[1];
    let gathered = listed(mode, role, wanted(mode, policies), names);
    let (named, first) = initial(mode).after(service(RequestView::CallerIdentity));
    let (paged, second) = named.after(
        service(RequestView::AttachedPolicies { role, marker: None }),
    );
    assert(paged.managed == wanted(mode, policies));
    assert(paged.inline + names == names);
    let ready = PipelineView { inline: names, marker: None, ..paged };
    assert(ready == gathered);
    assert(paged.after(service(RequestView::InlinePolicies { role, marker: None }))
        == gathered.proceed());
    if mode != Mode::Short {
        lemma_every_document_is_looked_up(service, gathered, (calls - 3) as nat);
    }
}

} // verus!
