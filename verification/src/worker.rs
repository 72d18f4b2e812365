//! The git side of mirroring: the five operations on a working repository,
//! what each of them asks of git, and the credentials that git is given.

use crate::config::{default_gitlab_host, host_or, Config, Site};
use crate::errors::{outcome_view, GitError};
use crate::handle::{gitlab_refspec, PrHandle, PrHandleView};
use vstd::prelude::*;
use vstd::string::*;

verus! {

/// One of the two services.
#[derive(Debug, Clone, Copy, PartialEq, Eq, Structural)]
pub enum SiteKind {
    /// The upstream service, where pull requests are opened.
    Hub,
    /// The downstream service, which runs the pipelines.
    Lab,
}

/// One request to git on a working repository.
#[derive(Debug, Clone, PartialEq, Eq)]
pub enum GitCommand {
    /// Add the fetch refspec `refspec` to the remote `remote`, creating the
    /// remote's configuration if it is absent.
    RemoteAddFetch { remote: String, refspec: String },
    /// Add the push refspec `refspec` to the remote `remote`, creating the
    /// remote's configuration if it is absent.
    RemoteAddPush { remote: String, refspec: String },
    /// Set the URL of the remote `remote` to `url`.
    RemoteSetUrl { remote: String, url: String },
    /// Fetch the branch `branch` from the remote `remote`, with the
    /// credentials of `site`.
    Fetch { remote: String, branch: String, site: SiteKind },
    /// Make the local ref `name` point at what the ref `source` points at;
    /// with `force`, overwrite `name` if it exists.
    CreateRef { name: String, source: String, force: bool, log_message: String },
    /// Push `refspec` to the remote `remote`, with the credentials of `site`.
    Push { remote: String, refspec: String, site: SiteKind },
}

/// What a request to git says.
pub enum GitCommandView {
    RemoteAddFetch { remote: Seq<char>, refspec: Seq<char> },
    RemoteAddPush { remote: Seq<char>, refspec: Seq<char> },
    RemoteSetUrl { remote: Seq<char>, url: Seq<char> },
    Fetch { remote: Seq<char>, branch: Seq<char>, site: SiteKind },
    CreateRef { name: Seq<char>, source: Seq<char>, force: bool, log_message: Seq<char> },
    Push { remote: Seq<char>, refspec: Seq<char>, site: SiteKind },
}

impl View for GitCommand {
    type V = GitCommandView;

    open spec fn view(&self) -> GitCommandView {
        match self {
            GitCommand::RemoteAddFetch { remote, refspec } => GitCommandView::RemoteAddFetch {
                remote: remote@,
                refspec: refspec@,
            },
            GitCommand::RemoteAddPush { remote, refspec } => GitCommandView::RemoteAddPush {
                remote: remote@,
                refspec: refspec@,
            },
            GitCommand::RemoteSetUrl { remote, url } => GitCommandView::RemoteSetUrl {
                remote: remote@,
                url: url@,
            },
            GitCommand::Fetch { remote, branch, site } => GitCommandView::Fetch {
                remote: remote@,
                branch: branch@,
                site: *site,
            },
            GitCommand::CreateRef { name, source, force, log_message } => GitCommandView::CreateRef {
                name: name@,
                source: source@,
                force: *force,
                log_message: log_message@,
            },
            GitCommand::Push { remote, refspec, site } => GitCommandView::Push {
                remote: remote@,
                refspec: refspec@,
                site: *site,
            },
        }
    }
}

/// What a sequence of requests to git says.
pub open spec fn command_views(commands: Seq<GitCommand>) -> Seq<GitCommandView> {
    commands.map_values(|c: GitCommand| c@)
}

/// What setting up the remotes asks of git: the fork's remote with its fetch
/// refspec, then its URL; the downstream remote with its push refspec, then
/// its URL. The URLs are set whether or not the remotes existed.
pub open spec fn add_remotes_spec(
    handle: PrHandleView,
    gitlab_host: Seq<char>,
    names: Map<Seq<char>, Seq<char>>,
) -> Seq<GitCommandView> {
    seq![
        GitCommandView::RemoteAddFetch {
            remote: handle.github_remote(),
            refspec: handle.github_refspec(),
        },
        GitCommandView::RemoteSetUrl {
            remote: handle.github_remote(),
            url: handle.github_clone_url,
        },
        GitCommandView::RemoteAddPush { remote: handle.gitlab_remote(), refspec: gitlab_refspec() },
        GitCommandView::RemoteSetUrl {
            remote: handle.gitlab_remote(),
            url: handle.gitlab_url(gitlab_host, names),
        },
    ]
}

/// What fetching the fork asks of git: the pull request's branch alone, from
/// the fork's remote, with the upstream credentials.
pub open spec fn fetch_github_remote_spec(handle: PrHandleView) -> Seq<GitCommandView> {
    seq![
        GitCommandView::Fetch {
            remote: handle.github_remote(),
            branch: handle.gitref,
            site: SiteKind::Hub,
        },
    ]
}

/// The reflog message of a mirror branch.
pub open spec fn new_ref_message() -> Seq<char> {
    "new ref"@
}

/// What creating the mirror branch asks of git: point it at the fetched
/// branch, overwriting it if it exists.
pub open spec fn create_ref_for_pr_spec(handle: PrHandleView) -> Seq<GitCommandView> {
    seq![
        GitCommandView::CreateRef {
            name: handle.mirror_ref(),
            source: handle.github_ref(),
            force: true,
            log_message: new_ref_message(),
        },
    ]
}

/// What pushing the mirror branch asks of git.
pub open spec fn push_pr_ref_spec(handle: PrHandleView) -> Seq<GitCommandView> {
    seq![
        GitCommandView::Push {
            remote: handle.gitlab_remote(),
            refspec: handle.push_refspec(),
            site: SiteKind::Lab,
        },
    ]
}

/// What deleting the mirror branch asks of git.
pub open spec fn delete_pr_ref_spec(handle: PrHandleView) -> Seq<GitCommandView> {
    seq![
        GitCommandView::Push {
            remote: handle.gitlab_remote(),
            refspec: handle.delete_refspec(),
            site: SiteKind::Lab,
        },
    ]
}

/// The requests that set up the two remotes for `handle`.
pub fn add_remotes_commands(handle: &PrHandle, config: &Config) -> (commands: Vec<GitCommand>)
    ensures
        command_views(commands@) == add_remotes_spec(
            handle@,
            host_or(config.gitlab, default_gitlab_host()),
            config.hub_to_lab@,
        ),
{
    let mut commands: Vec<GitCommand> = Vec::new();
    commands.push(
        GitCommand::RemoteAddFetch {
            remote: String::from_str(handle.github_remote()),
            refspec: handle.github_refspec(),
        },
    );
    commands.push(
        GitCommand::RemoteSetUrl {
            remote: String::from_str(handle.github_remote()),
            url: String::from_str(handle.github_clone_url()),
        },
    );
    commands.push(
        GitCommand::RemoteAddPush {
            remote: String::from_str(handle.gitlab_remote()),
            refspec: String::from_str("refs/heads/master:refs/heads/master"),
        },
    );
    commands.push(
        GitCommand::RemoteSetUrl {
            remote: String::from_str(handle.gitlab_remote()),
            url: handle.gitlab_url(config),
        },
    );
    assert(command_views(commands@) =~= add_remotes_spec(
        handle@,
        host_or(config.gitlab, default_gitlab_host()),
        config.hub_to_lab@,
    ));
    commands
}

/// The request that fetches the pull request's branch from the fork.
pub fn fetch_github_remote_commands(handle: &PrHandle) -> (commands: Vec<GitCommand>)
    ensures
        command_views(commands@) == fetch_github_remote_spec(handle@),
{
    let mut commands: Vec<GitCommand> = Vec::new();
    commands.push(
        GitCommand::Fetch {
            remote: String::from_str(handle.github_remote()),
            branch: String::from_str(handle.gitref()),
            site: SiteKind::Hub,
        },
    );
    assert(command_views(commands@) =~= fetch_github_remote_spec(handle@));
    commands
}

/// The request that points the mirror branch at the fetched branch.
pub fn create_ref_for_pr_commands(handle: &PrHandle) -> (commands: Vec<GitCommand>)
    ensures
        command_views(commands@) == create_ref_for_pr_spec(handle@),
{
    let mut commands: Vec<GitCommand> = Vec::new();
    commands.push(
        GitCommand::CreateRef {
            name: handle.mirror_ref(),
            source: handle.github_ref(),
            force: true,
            log_message: String::from_str("new ref"),
        },
    );
    assert(command_views(commands@) =~= create_ref_for_pr_spec(handle@));
    commands
}

/// The request that pushes the mirror branch downstream.
pub fn push_pr_ref_commands(handle: &PrHandle) -> (commands: Vec<GitCommand>)
    ensures
        command_views(commands@) == push_pr_ref_spec(handle@),
{
    let mut commands: Vec<GitCommand> = Vec::new();
    commands.push(
        GitCommand::Push {
            remote: String::from_str(handle.gitlab_remote()),
            refspec: handle.push_refspec(),
            site: SiteKind::Lab,
        },
    );
    assert(command_views(commands@) =~= push_pr_ref_spec(handle@));
    commands
}

/// The request that deletes the mirror branch downstream.
pub fn delete_pr_ref_commands(handle: &PrHandle) -> (commands: Vec<GitCommand>)
    ensures
        command_views(commands@) == delete_pr_ref_spec(handle@),
{
    let mut commands: Vec<GitCommand> = Vec::new();
    commands.push(
        GitCommand::Push {
            remote: String::from_str(handle.gitlab_remote()),
            refspec: handle.delete_refspec(),
            site: SiteKind::Lab,
        },
    );
    assert(command_views(commands@) =~= delete_pr_ref_spec(handle@));
    commands
}

/// What git is given when it asks for credentials.
#[derive(Debug, Clone, PartialEq, Eq)]
pub enum Credential {
    /// The user name alone.
    Username { username: String },
    /// The user name and the path of an SSH private key.
    SshKey { username: String, private_key: String },
}

/// What a credential says.
pub enum CredentialView {
    Username { username: Seq<char> },
    SshKey { username: Seq<char>, private_key: Seq<char> },
}

impl View for Credential {
    type V = CredentialView;

    open spec fn view(&self) -> CredentialView {
        match self {
            Credential::Username { username } => CredentialView::Username { username: username@ },
            Credential::SshKey { username, private_key } => CredentialView::SshKey {
                username: username@,
                private_key: private_key@,
            },
        }
    }
}

/// The user that git connects as.
pub open spec fn git_user() -> Seq<char> {
    "git"@
}

/// The credential for a request: the user `git` where a user name is asked
/// for, else that user with the SSH key of `site`.
pub open spec fn credential_spec(username_requested: bool, site: Site) -> CredentialView {
    if username_requested {
        CredentialView::Username { username: git_user() }
    } else {
        CredentialView::SshKey { username: git_user(), private_key: site.ssh_key@ }
    }
}

/// Answers git's request for credentials on `site`. `username_requested`
/// says whether the kinds of credential that git accepts include a plain
/// user name.
pub fn credential_for(username_requested: bool, site: &Site) -> (credential: Credential)
    ensures
        credential@ == credential_spec(username_requested, *site),
{
    if username_requested {
        Credential::Username { username: String::from_str("git") }
    } else {
        Credential::SshKey {
            username: String::from_str("git"),
            private_key: site.ssh_key.clone(),
        }
    }
}

/// The settings of the service whose credentials a request needs.
pub fn site_of(config: &Config, site: SiteKind) -> (found: &Site)
    ensures
        *found == (match site {
            SiteKind::Hub => config.github,
            SiteKind::Lab => config.gitlab,
        }),
{
    match site {
        SiteKind::Hub => &config.github,
        SiteKind::Lab => &config.gitlab,
    }
}

/// One of the five operations on a working repository.
#[derive(Debug, Clone, Copy, PartialEq, Eq, Structural)]
pub enum GitOp {
    AddRemotes,
    FetchGithubRemote,
    CreateRefForPr,
    PushPrRef,
    DeletePrRef,
}

/// One operation that a working repository was asked for, and how it ended.
pub struct GitCall {
    pub op: GitOp,
    pub handle: PrHandleView,
    /// `Ok`, or the message of the error.
    pub outcome: Result<(), Seq<char>>,
}

/// A working repository: a local clone of the repository that pull requests
/// target, on which the five operations of mirroring can be carried out.
///
/// What an operation asks of git is given by the functions of this module
/// that end in `_commands`.
pub trait RepositoryExt {
    /// Makes sure that the remote of the fork and the remote of the
    /// downstream repository exist, and sets their URLs.
    fn add_remotes(&mut self, pr_handle: &PrHandle) -> Result<(), GitError>;

    /// Fetches the pull request's branch from the fork.
    fn fetch_github_remote(&mut self, pr_handle: &PrHandle) -> Result<(), GitError>;

    /// Points the mirror branch at the fetched branch.
    fn create_ref_for_pr(&mut self, pr_handle: &PrHandle) -> Result<(), GitError>;

    /// Pushes the mirror branch downstream.
    fn push_pr_ref(&mut self, pr_handle: &PrHandle) -> Result<(), GitError>;

    /// Deletes the mirror branch downstream.
    fn delete_pr_ref(&mut self, pr_handle: &PrHandle) -> Result<(), GitError>;
}

/// A working repository together with the account of the operations asked
/// of it. The account is kept for proofs only and takes no space.
pub struct GitWorker<R> {
    repo: R,
    asked: Ghost<Seq<GitCall>>,
}

impl<R: RepositoryExt> GitWorker<R> {
    /// The operations asked of the repository so far, oldest first.
    pub closed spec fn calls(&self) -> Seq<GitCall> {
        self.asked@
    }

    /// A worker on `repo`, of which nothing was asked yet.
    pub fn new(repo: R) -> (worker: GitWorker<R>)
        ensures
            worker.inner() == repo,
            worker.calls() == Seq::<GitCall>::empty(),
    {
        GitWorker { repo, asked: Ghost(Seq::empty()) }
    }

    /// The working repository that the worker acts on.
    pub closed spec fn inner(&self) -> R {
        self.repo
    }

    /// The working repository.
    pub fn repository(&self) -> (repo: &R)
        ensures
            *repo == self.inner(),
    {
        &self.repo
    }

    /// Asks the repository to set up the remotes, and notes it.
    pub fn add_remotes(&mut self, pr_handle: &PrHandle) -> (done: Result<(), GitError>)
        ensures
            final(self).calls() == old(self).calls().push(
                GitCall { op: GitOp::AddRemotes, handle: pr_handle@, outcome: outcome_view(done) },
            ),
    {
        let done = self.repo.add_remotes(pr_handle);
        proof {
            self.asked@ = self.asked@.push(
                GitCall { op: GitOp::AddRemotes, handle: pr_handle@, outcome: outcome_view(done) },
            );
        }
        done
    }

    /// Asks the repository to fetch the fork's branch, and notes it.
    pub fn fetch_github_remote(&mut self, pr_handle: &PrHandle) -> (done: Result<(), GitError>)
        ensures
            final(self).calls() == old(self).calls().push(
                GitCall {
                    op: GitOp::FetchGithubRemote,
                    handle: pr_handle@,
                    outcome: outcome_view(done),
                },
            ),
    {
        let done = self.repo.fetch_github_remote(pr_handle);
        proof {
            self.asked@ = self.asked@.push(
                GitCall {
                    op: GitOp::FetchGithubRemote,
                    handle: pr_handle@,
                    outcome: outcome_view(done),
                },
            );
        }
        done
    }

    /// Asks the repository to create the mirror branch, and notes it.
    pub fn create_ref_for_pr(&mut self, pr_handle: &PrHandle) -> (done: Result<(), GitError>)
        ensures
            final(self).calls() == old(self).calls().push(
                GitCall {
                    op: GitOp::CreateRefForPr,
                    handle: pr_handle@,
                    outcome: outcome_view(done),
                },
            ),
    {
        let done = self.repo.create_ref_for_pr(pr_handle);
        proof {
            self.asked@ = self.asked@.push(
                GitCall {
                    op: GitOp::CreateRefForPr,
                    handle: pr_handle@,
                    outcome: outcome_view(done),
                },
            );
        }
        done
    }

    /// Asks the repository to push the mirror branch, and notes it.
    pub fn push_pr_ref(&mut self, pr_handle: &PrHandle) -> (done: Result<(), GitError>)
        ensures
            final(self).calls() == old(self).calls().push(
                GitCall { op: GitOp::PushPrRef, handle: pr_handle@, outcome: outcome_view(done) },
            ),
    {
        let done = self.repo.push_pr_ref(pr_handle);
        proof {
            self.asked@ = self.asked@.push(
                GitCall { op: GitOp::PushPrRef, handle: pr_handle@, outcome: outcome_view(done) },
            );
        }
        done
    }

    /// Asks the repository to delete the mirror branch, and notes it.
    pub fn delete_pr_ref(&mut self, pr_handle: &PrHandle) -> (done: Result<(), GitError>)
        ensures
            final(self).calls() == old(self).calls().push(
                GitCall { op: GitOp::DeletePrRef, handle: pr_handle@, outcome: outcome_view(done) },
            ),
    {
        let done = self.repo.delete_pr_ref(pr_handle);
        proof {
            self.asked@ = self.asked@.push(
                GitCall { op: GitOp::DeletePrRef, handle: pr_handle@, outcome: outcome_view(done) },
            );
        }
        done
    }
}

} // verus!
