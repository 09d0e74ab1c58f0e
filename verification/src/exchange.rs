use crate::report::names_view;
use vstd::prelude::*;

verus! {

/// An optional text by its characters.
pub open spec fn text_option(text: Option<String>) -> Option<Seq<char>> {
    match text {
        Some(text) => Some(text@),
        None => None,
    }
}

/// A managed policy as the policy service lists it: its ARN and its display
/// name, either of which the service may leave out.
#[derive(Debug, PartialEq, Eq)]
pub struct AttachedPolicy {
    pub arn: Option<String>,
    pub name: Option<String>,
}

/// A listed managed policy as a mathematical value.
pub struct AttachedPolicyView {
    pub arn: Option<Seq<char>>,
    pub name: Option<Seq<char>>,
}

impl View for AttachedPolicy {
    type V = AttachedPolicyView;

    open spec fn view(&self) -> AttachedPolicyView {
        AttachedPolicyView { arn: text_option(self.arn), name: text_option(self.name) }
    }
}

/// The listed policies, one by one.
pub open spec fn policies_view(policies: Seq<AttachedPolicy>) -> Seq<AttachedPolicyView> {
    policies.map_values(|policy: AttachedPolicy| policy@)
}

/// A call that the program around the library is to make.
#[derive(Debug, PartialEq, Eq)]
pub enum Request {
    /// Ask the identity service who the caller is.
    CallerIdentity,
    /// Ask for one page of the role's managed policies, from `marker` on.
    AttachedPolicies { role: String, marker: Option<String> },
    /// Ask for one page of the names of the role's inline policies.
    InlinePolicies { role: String, marker: Option<String> },
    /// Ask for a managed policy, to learn its default version.
    Policy { arn: String },
    /// Ask for one version of a managed policy, to learn its document.
    PolicyVersion { arn: String, version_id: String },
    /// Ask for an inline policy of the role, to learn its document.
    RolePolicy { role: String, name: String },
}

/// A request as a mathematical value.
pub enum RequestView {
    CallerIdentity,
    AttachedPolicies { role: Seq<char>, marker: Option<Seq<char>> },
    InlinePolicies { role: Seq<char>, marker: Option<Seq<char>> },
    Policy { arn: Seq<char> },
    PolicyVersion { arn: Seq<char>, version_id: Seq<char> },
    RolePolicy { role: Seq<char>, name: Seq<char> },
}

impl View for Request {
    type V = RequestView;

    open spec fn view(&self) -> RequestView {
        match *self {
            Request::CallerIdentity => RequestView::CallerIdentity,
            Request::AttachedPolicies { role, marker } => RequestView::AttachedPolicies {
                role: role@,
                marker: text_option(marker),
            },
            Request::InlinePolicies { role, marker } => RequestView::InlinePolicies {
                role: role@,
                marker: text_option(marker),
            },
            Request::Policy { arn } => RequestView::Policy { arn: arn@ },
            Request::PolicyVersion { arn, version_id } => RequestView::PolicyVersion {
                arn: arn@,
                version_id: version_id@,
            },
            Request::RolePolicy { role, name } => RequestView::RolePolicy {
                role: role@,
                name: name@,
            },
        }
    }
}

/// What came back from a call.
#[derive(Debug, PartialEq, Eq)]
pub enum Reply {
    /// The call failed.
    Failure,
    /// The caller's identity string, if the answer holds one.
    CallerIdentity { arn: Option<String> },
    /// One page of managed policies, and the marker of the next page.
    AttachedPolicies { policies: Vec<AttachedPolicy>, marker: Option<String> },
    /// One page of inline policy names, and the marker of the next page.
    InlinePolicies { names: Vec<String>, marker: Option<String> },
    /// The default version of a managed policy, if the answer names one.
    Policy { default_version_id: Option<String> },
    /// The document of a policy version, if the answer holds one.
    PolicyVersion { document: Option<String> },
    /// The document of an inline policy.
    RolePolicy { policy_document: String },
}

/// A reply as a mathematical value.
pub enum ReplyView {
    Failure,
    CallerIdentity { arn: Option<Seq<char>> },
    AttachedPolicies { policies: Seq<AttachedPolicyView>, marker: Option<Seq<char>> },
    InlinePolicies { names: Seq<Seq<char>>, marker: Option<Seq<char>> },
    Policy { default_version_id: Option<Seq<char>> },
    PolicyVersion { document: Option<Seq<char>> },
    RolePolicy { policy_document: Seq<char> },
}

impl View for Reply {
    type V = ReplyView;

    open spec fn view(&self) -> ReplyView {
        match *self {
            Reply::Failure => ReplyView::Failure,
            Reply::CallerIdentity { arn } => ReplyView::CallerIdentity { arn: text_option(arn) },
            Reply::AttachedPolicies { policies, marker } => ReplyView::AttachedPolicies {
                policies: policies_view(policies@),
                marker: text_option(marker),
            },
            Reply::InlinePolicies { names, marker } => ReplyView::InlinePolicies {
                names: names_view(names@),
                marker: text_option(marker),
            },
            Reply::Policy { default_version_id } => ReplyView::Policy {
                default_version_id: text_option(default_version_id),
            },
            Reply::PolicyVersion { document } => ReplyView::PolicyVersion {
                document: text_option(document),
            },
            Reply::RolePolicy { policy_document } => ReplyView::RolePolicy {
                policy_document: policy_document@,
            },
        }
    }
}

/// The ARNs of the listed policies that have one, in the listing's order.
pub open spec fn listed_arns(policies: Seq<AttachedPolicyView>) -> Seq<Seq<char>>
    decreases policies.len(),
{
    if policies.len() == 0 {
        Seq::empty()
    } else {
        let before = listed_arns(policies.drop_last());
        match policies.last().arn {
            Some(arn) => before.push(arn),
            None => before,
        }
    }
}

/// The display names of the listed policies that have one, in the listing's
/// order.
pub open spec fn listed_names(policies: Seq<AttachedPolicyView>) -> Seq<Seq<char>>
    decreases policies.len(),
{
    if policies.len() == 0 {
        Seq::empty()
    } else {
        let before = listed_names(policies.drop_last());
        match policies.last().name {
            Some(name) => before.push(name),
            None => before,
        }
    }
}

/// Whether a listing goes on after a page: the page names a marker, the
/// marker is not empty, and it is not the one the page was asked with.
pub open spec fn continues(asked: Option<Seq<char>>, given: Option<Seq<char>>) -> bool {
    given matches Some(marker) && marker.len() > 0 && asked != given
}

/// A copy of an optional text.
pub fn copy_text_option(text: &Option<String>) -> (copy: Option<String>)
    ensures
        text_option(copy) == text_option(*text),
{
    match text {
        Some(text) => Some(text.clone()),
        None => None,
    }
}

/// The ARNs of the listed policies that have one, in the listing's order.
pub fn managed_policy_arns(policies: &Vec<AttachedPolicy>) -> (arns: Vec<String>)
    ensures
        names_view(arns@) == listed_arns(policies_view(policies@)),
{
    let mut arns: Vec<String> = Vec::new();
    let ghost all = policies_view(policies@);
    let mut done: usize = 0;
    while done < policies.len()
        invariant
            done <= policies.len(),
            all == policies_view(policies@),
            names_view(arns@) == listed_arns(all.take(done as int)),
        decreases policies.len() - done,
    {
        proof {
            assert(all.take(done + 1).drop_last() =~= all.take(done as int));
        }
        match &policies[done].arn {
            Some(arn) => {
                arns.push(arn.clone());
            },
            None => {},
        }
        done = done + 1;
    }
    assert(all.take(done as int) =~= all);
    arns
}

/// The display names of the listed policies that have one, in the listing's
/// order.
pub fn managed_policy_names(policies: &Vec<AttachedPolicy>) -> (names: Vec<String>)
    ensures
        names_view(names@) == listed_names(policies_view(policies@)),
{
    let mut names: Vec<String> = Vec::new();
    let ghost all = policies_view(policies@);
    let mut done: usize = 0;
    while done < policies.len()
        invariant
            done <= policies.len(),
            all == policies_view(policies@),
            names_view(names@) == listed_names(all.take(done as int)),
        decreases policies.len() - done,
    {
        proof {
            assert(all.take(done + 1).drop_last() =~= all.take(done as int));
        }
        match &policies[done].name {
            Some(name) => {
                names.push(name.clone());
            },
            None => {},
        }
        done = done + 1;
    }
    assert(all.take(done as int) =~= all);
    names
}

/// Whether another page is to be asked for after a page that was asked with
/// `asked` and names `given` as the next marker.
pub fn listing_continues(asked: &Option<String>, given: &Option<String>) -> (more: bool)
    ensures
        more == continues(text_option(*asked), text_option(*given)),
{
    match given {
        None => false,
        Some(marker) => {
            if marker.as_str().is_empty() {
                false
            } else {
                match asked {
                    None => true,
                    Some(sent) => !(*sent == *marker),
                }
            }
        },
    }
}

} // verus!
