use vstd::prelude::*;
use vstd::string::*;

verus! {

/// Which of the two listings of a role's policies is meant.
#[derive(Clone, Copy, Debug, PartialEq, Eq, Structural)]
pub enum Listing {
    Managed,
    Inline,
}

/// The step of a document lookup that gave nothing.
#[derive(Clone, Copy, Debug, PartialEq, Eq, Structural)]
pub enum Lookup {
    /// The managed policy itself could not be read.
    Policy,
    /// The managed policy names no default version.
    DefaultVersion,
    /// The default version could not be read.
    PolicyVersion,
    /// The default version holds no document.
    VersionDocument,
    /// The inline policy could not be read.
    RolePolicy,
}

/// Why one policy has no document to show. Such an error stays with its
/// policy: it never ends the report.
#[derive(Clone, Copy, Debug, PartialEq, Eq, Structural)]
pub enum DocumentError {
    /// The document could not be fetched.
    Unavailable(Lookup),
    /// The fetched text does not percent-decode to UTF-8.
    DecodeFailure,
    /// The decoded text is not JSON.
    InvalidDocumentJson,
    /// The parsed document could not be written out again.
    FormatFailure,
}

/// Why no report could be made at all.
#[derive(Debug, PartialEq, Eq)]
pub enum ReportError {
    /// The identity service did not answer.
    IdentityUnavailable,
    /// The identity service answered without an identity string.
    IdentityAbsent,
    /// The identity string has fewer than two slash-separated segments.
    MalformedIdentity,
    /// A listing of the role's policies failed.
    PolicyListFailure { role: String, listing: Listing },
    /// An answer came that does not belong to the call that was asked for.
    UnexpectedReply,
    /// The finished report could not be written as JSON.
    RenderFailure,
}

/// A report error as a mathematical value.
pub enum ReportErrorView {
    IdentityUnavailable,
    IdentityAbsent,
    MalformedIdentity,
    PolicyListFailure { role: Seq<char>, listing: Listing },
    UnexpectedReply,
    RenderFailure,
}

impl View for ReportError {
    type V = ReportErrorView;

    open spec fn view(&self) -> ReportErrorView {
        match *self {
            ReportError::IdentityUnavailable => ReportErrorView::IdentityUnavailable,
            ReportError::IdentityAbsent => ReportErrorView::IdentityAbsent,
            ReportError::MalformedIdentity => ReportErrorView::MalformedIdentity,
            ReportError::PolicyListFailure { role, listing } => ReportErrorView::PolicyListFailure {
                role: role@,
                listing,
            },
            ReportError::UnexpectedReply => ReportErrorView::UnexpectedReply,
            ReportError::RenderFailure => ReportErrorView::RenderFailure,
        }
    }
}

impl DocumentError {
    /// The notice shown beside a policy whose document is missing.
    pub open spec fn notice(self) -> Seq<char> {
        match self {
            DocumentError::Unavailable(Lookup::Policy) => "Failed to get policy"@,
            DocumentError::Unavailable(Lookup::DefaultVersion) => "Failed to get default version ID"@,
            DocumentError::Unavailable(Lookup::PolicyVersion) => "Failed to get policy version"@,
            DocumentError::Unavailable(Lookup::VersionDocument) => "Failed to get policy document"@,
            DocumentError::Unavailable(Lookup::RolePolicy) => "Failed to get inline policy"@,
            DocumentError::DecodeFailure => "Failed to decode policy document"@,
            DocumentError::InvalidDocumentJson => "Failed to parse JSON"@,
            DocumentError::FormatFailure => "Failed to format JSON"@,
        }
    }

    /// The notice as text.
    pub fn message(self) -> (text: String)
        ensures
            text@ == self.notice(),
    {
        let text = match self {
            DocumentError::Unavailable(Lookup::Policy) => "Failed to get policy",
            DocumentError::Unavailable(Lookup::DefaultVersion) => "Failed to get default version ID",
            DocumentError::Unavailable(Lookup::PolicyVersion) => "Failed to get policy version",
            DocumentError::Unavailable(Lookup::VersionDocument) => "Failed to get policy document",
            DocumentError::Unavailable(Lookup::RolePolicy) => "Failed to get inline policy",
            DocumentError::DecodeFailure => "Failed to decode policy document",
            DocumentError::InvalidDocumentJson => "Failed to parse JSON",
            DocumentError::FormatFailure => "Failed to format JSON",
        };
        text.to_owned()
    }
}

impl ReportError {
    /// What the operator is told when the report is given up.
    pub open spec fn notice(self) -> Seq<char> {
        match self {
            ReportError::IdentityUnavailable =>
                "Failed to get caller identity. Please check your AWS credentials (e.g., run 'aws sso login')."@,
            ReportError::IdentityAbsent => "ARN not found in caller identity"@,
            ReportError::MalformedIdentity => "Failed to extract role name from ARN"@,
            ReportError::PolicyListFailure { listing: Listing::Managed, .. } => "Failed to list managed policies"@,
            ReportError::PolicyListFailure { listing: Listing::Inline, .. } => "Failed to list inline policies"@,
            ReportError::UnexpectedReply => "Received an answer to a call that was not made"@,
            ReportError::RenderFailure => "Failed to format JSON"@,
        }
    }

    /// The notice as text.
    pub fn message(&self) -> (text: String)
        ensures
            text@ == self.notice(),
    {
        let text = match self {
            ReportError::IdentityUnavailable =>
                "Failed to get caller identity. Please check your AWS credentials (e.g., run 'aws sso login').",
            ReportError::IdentityAbsent => "ARN not found in caller identity",
            ReportError::MalformedIdentity => "Failed to extract role name from ARN",
            ReportError::PolicyListFailure { listing: Listing::Managed, .. } => "Failed to list managed policies",
            ReportError::PolicyListFailure { listing: Listing::Inline, .. } => "Failed to list inline policies",
            ReportError::UnexpectedReply => "Received an answer to a call that was not made",
            ReportError::RenderFailure => "Failed to format JSON",
        };
        text.to_owned()
    }
}

} // verus!
