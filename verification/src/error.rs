//! The errors of the client, and the messages that tell them.

use vstd::prelude::*;

verus! {

/// What the client was doing when a request failed.
#[derive(Debug, Clone, Copy, PartialEq, Eq, Structural)]
pub enum Phase {
    /// Reading flags or projects.
    Read,
    /// Creating a flag.
    Create,
    /// Updating a flag.
    Update,
    /// Deleting a flag.
    Delete,
}

/// An error of the PostHog client.
#[derive(Debug)]
pub enum ApiError {
    /// The request could not be sent, or no answer came.
    Unreachable { phase: Phase, detail: String },
    /// The answer's body is not what the request asked for; `detail` says why
    /// it could not be read, when it could not.
    Unparsable { phase: Phase, detail: Option<String> },
    /// The server refused a change; `status` is the status line, `body` what it sent.
    Rejected { phase: Phase, status: String, body: String },
    /// The local evaluation endpoint knows no flag to take the project from.
    NoFlagsForProjectId,
    /// Neither endpoint could tell the project.
    ProjectDiscoveryFailed,
    /// The account has no project.
    NoProjects,
    /// Neither the management API nor the local evaluation endpoint listed the flags.
    ListingFailed,
    /// No flag has this key.
    FlagNotFound { key: String },
}

/// The view of an [`ApiError`].
pub enum ErrorView {
    Unreachable { phase: Phase, detail: Seq<char> },
    Unparsable { phase: Phase, detail: Option<Seq<char>> },
    Rejected { phase: Phase, status: Seq<char>, body: Seq<char> },
    NoFlagsForProjectId,
    ProjectDiscoveryFailed,
    NoProjects,
    ListingFailed,
    FlagNotFound { key: Seq<char> },
}

impl DeepView for ApiError {
    type V = ErrorView;

    open spec fn deep_view(&self) -> ErrorView {
        match self {
            ApiError::Unreachable { phase, detail } => ErrorView::Unreachable {
                phase: *phase,
                detail: detail@,
            },
            ApiError::Unparsable { phase, detail } => ErrorView::Unparsable {
                phase: *phase,
                detail: match detail {
                    Some(d) => Some(d@),
                    None => None,
                },
            },
            ApiError::Rejected { phase, status, body } => ErrorView::Rejected {
                phase: *phase,
                status: status@,
                body: body@,
            },
            ApiError::NoFlagsForProjectId => ErrorView::NoFlagsForProjectId,
            ApiError::ProjectDiscoveryFailed => ErrorView::ProjectDiscoveryFailed,
            ApiError::NoProjects => ErrorView::NoProjects,
            ApiError::ListingFailed => ErrorView::ListingFailed,
            ApiError::FlagNotFound { key } => ErrorView::FlagNotFound { key: key@ },
        }
    }
}

/// What the message of an unreachable server says, by phase.
pub open spec fn unreachable_message(phase: Phase) -> Seq<char> {
    match phase {
        Phase::Read => "Failed to connect to PostHog"@,
        Phase::Create => "Failed to create feature flag"@,
        Phase::Update => "Failed to update feature flag"@,
        Phase::Delete => "Failed to delete feature flag"@,
    }
}

/// What the message of an unreadable answer says, by phase.
pub open spec fn unparsable_message(phase: Phase) -> Seq<char> {
    match phase {
        Phase::Read => "Failed to parse response"@,
        Phase::Create => "Failed to parse create flag response"@,
        Phase::Update => "Failed to parse update flag response"@,
        Phase::Delete => "Failed to parse delete flag response"@,
    }
}

/// The change that a phase names in the message of a refusal.
pub open spec fn action_name(phase: Phase) -> Seq<char> {
    match phase {
        Phase::Read => "read flags"@,
        Phase::Create => "create flag"@,
        Phase::Update => "update flag"@,
        Phase::Delete => "delete flag"@,
    }
}

/// The message of an error: the line that tells what went wrong.
pub open spec fn error_message(e: ErrorView) -> Seq<char> {
    match e {
        ErrorView::Unreachable { phase, .. } => unreachable_message(phase),
        ErrorView::Unparsable { phase, .. } => unparsable_message(phase),
        ErrorView::Rejected { phase, status, body } => "Failed to "@ + action_name(phase)
            + ": HTTP "@ + status + " - "@ + body,
        ErrorView::NoFlagsForProjectId =>
            "No feature flags found to determine project ID. Set project_id in config."@,
        ErrorView::ProjectDiscoveryFailed =>
            "Failed to discover project ID. Add 'project_id = <id>' to your config."@,
        ErrorView::NoProjects => "No projects found. Add 'project_id = <id>' to your config."@,
        ErrorView::ListingFailed =>
            "Failed to list flags from both management and local evaluation APIs"@,
        ErrorView::FlagNotFound { key } => "Feature flag '"@ + key + "' not found"@,
    }
}

/// The lower-level cause of an error: why the server could not be reached, or
/// why a body could not be read.
pub open spec fn error_cause(e: ErrorView) -> Option<Seq<char>> {
    match e {
        ErrorView::Unreachable { detail, .. } => Some(detail),
        ErrorView::Unparsable { detail, .. } => detail,
        _ => None,
    }
}

fn unreachable_text(phase: Phase) -> (s: &'static str)
    ensures
        s@ == unreachable_message(phase),
{
    match phase {
        Phase::Read => "Failed to connect to PostHog",
        Phase::Create => "Failed to create feature flag",
        Phase::Update => "Failed to update feature flag",
        Phase::Delete => "Failed to delete feature flag",
    }
}

fn unparsable_text(phase: Phase) -> (s: &'static str)
    ensures
        s@ == unparsable_message(phase),
{
    match phase {
        Phase::Read => "Failed to parse response",
        Phase::Create => "Failed to parse create flag response",
        Phase::Update => "Failed to parse update flag response",
        Phase::Delete => "Failed to parse delete flag response",
    }
}

fn action_text(phase: Phase) -> (s: &'static str)
    ensures
        s@ == action_name(phase),
{
    match phase {
        Phase::Read => "read flags",
        Phase::Create => "create flag",
        Phase::Update => "update flag",
        Phase::Delete => "delete flag",
    }
}

impl ApiError {
    /// The line that tells what went wrong.
    pub fn message(&self) -> (s: String)
        ensures
            s@ == error_message(self.deep_view()),
    {
        match self {
            ApiError::Unreachable { phase, .. } => unreachable_text(*phase).to_owned(),
            ApiError::Unparsable { phase, .. } => unparsable_text(*phase).to_owned(),
            ApiError::Rejected { phase, status, body } => {
                let mut s = String::from_str("Failed to ");
                s.append(action_text(*phase));
                s.append(": HTTP ");
                s.append(status.as_str());
                s.append(" - ");
                s.append(body.as_str());
                s
            },
            ApiError::NoFlagsForProjectId => String::from_str(
                "No feature flags found to determine project ID. Set project_id in config.",
            ),
            ApiError::ProjectDiscoveryFailed => String::from_str(
                "Failed to discover project ID. Add 'project_id = <id>' to your config.",
            ),
            ApiError::NoProjects => String::from_str(
                "No projects found. Add 'project_id = <id>' to your config.",
            ),
            ApiError::ListingFailed => String::from_str(
                "Failed to list flags from both management and local evaluation APIs",
            ),
            ApiError::FlagNotFound { key } => {
                let mut s = String::from_str("Feature flag '");
                s.append(key.as_str());
                s.append("' not found");
                s
            },
        }
    }

    /// The lower-level cause that came with the error, when there is one.
    pub fn cause(&self) -> (c: Option<String>)
        ensures
            match c {
                Some(d) => error_cause(self.deep_view()) == Some(d@),
                None => error_cause(self.deep_view()) is None,
            },
    {
        match self {
            ApiError::Unreachable { detail, .. } => Some(detail.clone()),
            ApiError::Unparsable { detail: Some(d), .. } => Some(d.clone()),
            _ => None,
        }
    }
}

} // verus!
