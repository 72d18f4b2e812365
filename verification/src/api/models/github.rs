//! Webhook payloads and API answers of the upstream service.

use vstd::prelude::*;

verus! {

/// A repository at either end of a pull request.
#[derive(Debug, Clone, PartialEq, Eq)]
pub struct PullRequestRepo {
    pub ssh_url: String,
    pub full_name: String,
    pub fork: bool,
}

/// The branch that a pull request offers.
#[derive(Debug, Clone, PartialEq, Eq)]
pub struct PullRequestHead {
    /// Branch name (the payload's `ref`).
    pub ref_key: String,
    pub sha: String,
    pub repo: PullRequestRepo,
}

/// The branch that a pull request targets.
#[derive(Debug, Clone, PartialEq, Eq)]
pub struct PullRequestBase {
    pub repo: PullRequestRepo,
}

/// A pull request, as an event or the API describes it.
#[derive(Debug, Clone, PartialEq, Eq)]
pub struct PullRequestPullRequest {
    pub number: i64,
    pub head: PullRequestHead,
    pub base: PullRequestBase,
}

/// The answer to a request for one pull request.
pub type RepoPr = PullRequestPullRequest;

/// The repository that an event belongs to.
#[derive(Debug, Clone, PartialEq, Eq)]
pub struct Repository {
    pub ssh_url: String,
    pub full_name: String,
}

/// A `pull_request` event.
#[derive(Debug, Clone, PartialEq, Eq)]
pub struct PullRequest {
    pub action: String,
    pub pull_request: PullRequestPullRequest,
    pub repository: Repository,
}

/// A `push` event.
#[derive(Debug, Clone, PartialEq, Eq)]
pub struct Push {
    /// The ref that was pushed (the payload's `ref`).
    pub ref_key: String,
}

/// A user of the service.
#[derive(Debug, Clone, PartialEq, Eq)]
pub struct User {
    pub login: String,
}

/// Who caused an event.
#[derive(Debug, Clone, PartialEq, Eq)]
pub struct Sender {
    pub login: Option<String>,
}

/// The link from an issue to the pull request that it stands for.
#[derive(Debug, Clone, PartialEq, Eq)]
pub struct IssuePullRequest {
    pub url: Option<String>,
}

/// The issue that a comment was written on.
#[derive(Debug, Clone, PartialEq, Eq)]
pub struct Issue {
    pub number: i64,
    pub user: Option<User>,
    /// Present when the issue is a pull request.
    pub pull_request: Option<IssuePullRequest>,
}

/// A comment.
#[derive(Debug, Clone, PartialEq, Eq)]
pub struct Comment {
    pub body: String,
}

/// An `issue_comment` event.
#[derive(Debug, Clone, PartialEq, Eq)]
pub struct IssueComment {
    pub action: String,
    pub issue: Issue,
    pub comment: Comment,
    pub repository: Repository,
    pub sender: Sender,
}

impl PullRequest {
    /// Whether the pull request comes from a fork.
    pub fn is_fork(&self) -> (fork: bool)
        ensures
            fork == self.pull_request.head.repo.fork,
    {
        self.pull_request.head.repo.fork
    }
}

impl IssueComment {
    /// Whether the comment was written on a pull request.
    pub fn is_from_pr(&self) -> (from_pr: bool)
        ensures
            from_pr == self.issue.pull_request.is_some(),
    {
        self.issue.pull_request.is_some()
    }
}

} // verus!
