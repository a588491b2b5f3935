//! Shared data types of the git hosting layer.

use vstd::prelude::*;

verus! {

/// The kind of git hosting service behind a URL.
#[derive(Debug, Clone, Copy, PartialEq, Eq, Structural)]
pub enum ProviderKind {
    GitHub,
    AzureDevOps,
    Gitea,
    Unknown,
}

/// Errors reported by a git hosting provider.
#[derive(Debug)]
pub enum GitHostError {
    AuthFailed(String),
    InsufficientPermissions(String),
    RepoNotFoundOrNoAccess(String),
    PullRequest(String),
    UnexpectedOutput(String),
    Repository(String),
}

/// Merge state of a pull request.
#[derive(Debug, Clone, Copy, PartialEq, Eq, Structural)]
pub enum MergeStatus {
    Open,
    Merged,
    Closed,
    Unknown,
}

/// A point in time (UTC): whole seconds since the Unix epoch and the
/// nanoseconds within that second. Ordered by `(secs, nanos)`.
#[derive(Debug, Clone, Copy, PartialEq, Eq, Structural)]
pub struct Timestamp {
    pub secs: i64,
    pub nanos: u32,
}

impl Timestamp {
    /// `self` is not later than `other`.
    pub open spec fn le(self, other: Timestamp) -> bool {
        self.secs < other.secs || (self.secs == other.secs && self.nanos <= other.nanos)
    }

    /// Whether `self` is not later than `other`.
    pub fn le_exec(&self, other: &Timestamp) -> (r: bool)
        ensures
            r == self.le(*other),
    {
        self.secs < other.secs || (self.secs == other.secs && self.nanos <= other.nanos)
    }
}

/// A pull request as reported by a hosting provider.
#[derive(Debug)]
pub struct PullRequestDetail {
    pub number: i64,
    pub url: String,
    pub status: MergeStatus,
    pub merged_at: Option<Timestamp>,
    pub merge_commit_sha: Option<String>,
    pub title: String,
    pub base_branch: String,
    pub head_branch: String,
}

/// A request to open a pull request.
#[derive(Debug)]
pub struct CreatePrRequest {
    pub title: String,
    pub body: Option<String>,
    pub head_branch: String,
    pub base_branch: String,
    pub head_repo_url: Option<String>,
}

/// A pull request comment, either on the conversation or on a line of code.
#[derive(Debug)]
#[allow(inconsistent_fields)]
pub enum UnifiedPrComment {
    General {
        id: String,
        author: String,
        author_association: Option<String>,
        body: String,
        created_at: Timestamp,
        url: Option<String>,
    },
    Review {
        id: i64,
        author: String,
        author_association: Option<String>,
        body: String,
        created_at: Timestamp,
        url: Option<String>,
        path: String,
        line: Option<i64>,
        side: Option<String>,
        diff_hunk: Option<String>,
    },
}

impl UnifiedPrComment {
    pub open spec fn created_at_spec(self) -> Timestamp {
        match self {
            UnifiedPrComment::General { created_at, .. } => created_at,
            UnifiedPrComment::Review { created_at, .. } => created_at,
        }
    }

    /// When the comment was written.
    pub fn created_at(&self) -> (t: Timestamp)
        ensures
            t == self.created_at_spec(),
    {
        match self {
            UnifiedPrComment::General { created_at, .. } => *created_at,
            UnifiedPrComment::Review { created_at, .. } => *created_at,
        }
    }
}

} // verus!
