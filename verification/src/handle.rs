//! The identity of one pull-request event, and the names derived from it:
//! the remotes, the refspecs and the branch that mirrors the pull request on
//! the downstream service.

use crate::api::models::github::PullRequest;
use crate::config::{default_gitlab_host, host_or, lab_name, Config};
use crate::text::{decimal, push_decimal};
use vstd::prelude::*;
use vstd::string::*;

verus! {

/// What a pull-request handle stands for.
pub struct PrHandleView {
    /// `org/repo` of the repository that the pull request targets.
    pub base_full_name: Seq<char>,
    /// `org/repo` of the fork that the pull request comes from.
    pub head_full_name: Seq<char>,
    /// The branch of the fork.
    pub gitref: Seq<char>,
    /// SSH URL of the fork.
    pub github_clone_url: Seq<char>,
    pub pr_number: int,
}

/// The name of the remote that stands for the fork of pull request `number`.
pub open spec fn github_remote_name(number: int) -> Seq<char> {
    "github-"@ + decimal(number)
}

/// The name of the remote that stands for the downstream repository.
pub open spec fn gitlab_remote_name() -> Seq<char> {
    "gitlab"@
}

/// The prefix that every mirror branch has.
pub open spec fn mirror_ref_prefix() -> Seq<char> {
    "refs/heads/pr-"@
}

/// The branch that mirrors, on the downstream service, the branch `gitref`
/// of the fork `head_full_name` offered as pull request `number`.
pub open spec fn mirror_ref_name(number: int, head_full_name: Seq<char>, gitref: Seq<char>) -> Seq<
    char,
> {
    mirror_ref_prefix() + decimal(number) + "/"@ + head_full_name + "/"@ + gitref
}

impl PrHandleView {
    /// Name of the remote that stands for the fork.
    pub open spec fn github_remote(self) -> Seq<char> {
        github_remote_name(self.pr_number)
    }

    /// Name of the remote that stands for the downstream repository.
    pub open spec fn gitlab_remote(self) -> Seq<char> {
        gitlab_remote_name()
    }

    /// The branch that mirrors the pull request downstream.
    pub open spec fn mirror_ref(self) -> Seq<char> {
        mirror_ref_name(self.pr_number, self.head_full_name, self.gitref)
    }

    /// Refspec with which the fork's branches are fetched.
    pub open spec fn github_refspec(self) -> Seq<char> {
        "+refs/heads/*:refs/remotes/"@ + self.github_remote() + "/*"@
    }

    /// Where the fork's branch is found once fetched.
    pub open spec fn github_ref(self) -> Seq<char> {
        "refs/remotes/"@ + self.github_remote() + "/"@ + self.gitref
    }

    /// SSH URL of the downstream repository, on `host`, with the name that
    /// `map` gives for the target repository.
    pub open spec fn gitlab_url(self, host: Seq<char>, map: Map<Seq<char>, Seq<char>>) -> Seq<
        char,
    > {
        "git@"@ + host + ":"@ + lab_name(map, self.base_full_name) + ".git"@
    }

    /// Refspec that pushes the mirror branch, rewinding it where needed.
    pub open spec fn push_refspec(self) -> Seq<char> {
        "+"@ + self.mirror_ref() + ":"@ + self.mirror_ref()
    }

    /// Refspec that deletes the mirror branch.
    pub open spec fn delete_refspec(self) -> Seq<char> {
        ":"@ + self.mirror_ref()
    }
}

/// The refspec with which the downstream remote is set up.
pub open spec fn gitlab_refspec() -> Seq<char> {
    "refs/heads/master:refs/heads/master"@
}

/// What the handle of the pull-request event `pr` stands for.
pub open spec fn handle_of(pr: PullRequest) -> PrHandleView {
    PrHandleView {
        base_full_name: pr.pull_request.base.repo.full_name@,
        head_full_name: pr.pull_request.head.repo.full_name@,
        gitref: pr.pull_request.head.ref_key@,
        github_clone_url: pr.pull_request.head.repo.ssh_url@,
        pr_number: pr.pull_request.number as int,
    }
}

/// The identity of one pull-request event. It is made once, from the event,
/// and never changed.
#[derive(Debug, Eq, PartialEq)]
pub struct PrHandle {
    base_full_name: String,
    head_full_name: String,
    github_remote: String,
    gitlab_remote: String,
    gitref: String,
    github_clone_url: String,
    pr_number: i64,
}

impl View for PrHandle {
    type V = PrHandleView;

    closed spec fn view(&self) -> PrHandleView {
        PrHandleView {
            base_full_name: self.base_full_name@,
            head_full_name: self.head_full_name@,
            gitref: self.gitref@,
            github_clone_url: self.github_clone_url@,
            pr_number: self.pr_number as int,
        }
    }
}

impl PrHandle {
    /// The remote names agree with the pull request's number.
    #[verifier::type_invariant]
    spec fn names_agree(self) -> bool {
        &&& self.github_remote@ == github_remote_name(self.pr_number as int)
        &&& self.gitlab_remote@ == gitlab_remote_name()
    }

    /// The handle of the pull-request event `pr`.
    pub fn new(pr: &PullRequest) -> (handle: PrHandle)
        ensures
            handle@ == handle_of(*pr),
            handle@.mirror_ref() == mirror_ref_prefix() + decimal(pr.pull_request.number as int)
                + "/"@ + pr.pull_request.head.repo.full_name@ + "/"@
                + pr.pull_request.head.ref_key@,
            handle@.github_remote() == "github-"@ + decimal(pr.pull_request.number as int),
    {
        let mut github_remote = String::from_str("github-");
        push_decimal(&mut github_remote, pr.pull_request.number);
        PrHandle {
            gitref: pr.pull_request.head.ref_key.clone(),
            pr_number: pr.pull_request.number,
            github_clone_url: pr.pull_request.head.repo.ssh_url.clone(),
            github_remote,
            gitlab_remote: String::from_str("gitlab"),
            base_full_name: pr.pull_request.base.repo.full_name.clone(),
            head_full_name: pr.pull_request.head.repo.full_name.clone(),
        }
    }

    /// A copy of this handle.
    pub fn duplicate(&self) -> (copy: PrHandle)
        ensures
            copy@ == self@,
    {
        proof {
            use_type_invariant(self);
        }
        PrHandle {
            gitref: self.gitref.clone(),
            pr_number: self.pr_number,
            github_clone_url: self.github_clone_url.clone(),
            github_remote: self.github_remote.clone(),
            gitlab_remote: self.gitlab_remote.clone(),
            base_full_name: self.base_full_name.clone(),
            head_full_name: self.head_full_name.clone(),
        }
    }

    /// `org/repo` of the repository that the pull request targets.
    pub fn base_full_name(&self) -> (name: &str)
        ensures
            name@ == self@.base_full_name,
    {
        self.base_full_name.as_str()
    }

    /// `org/repo` of the fork.
    pub fn head_full_name(&self) -> (name: &str)
        ensures
            name@ == self@.head_full_name,
    {
        self.head_full_name.as_str()
    }

    /// The branch of the fork.
    pub fn gitref(&self) -> (name: &str)
        ensures
            name@ == self@.gitref,
    {
        self.gitref.as_str()
    }

    /// SSH URL of the fork.
    pub fn github_clone_url(&self) -> (url: &str)
        ensures
            url@ == self@.github_clone_url,
    {
        self.github_clone_url.as_str()
    }

    /// The pull request's number.
    pub fn pr_number(&self) -> (number: i64)
        ensures
            number == self@.pr_number,
    {
        self.pr_number
    }

    /// Name of the remote that stands for the fork: `github-` and the number.
    pub fn github_remote(&self) -> (name: &str)
        ensures
            name@ == self@.github_remote(),
    {
        proof {
            use_type_invariant(self);
        }
        self.github_remote.as_str()
    }

    /// Name of the remote that stands for the downstream repository.
    pub fn gitlab_remote(&self) -> (name: &str)
        ensures
            name@ == self@.gitlab_remote(),
    {
        proof {
            use_type_invariant(self);
        }
        self.gitlab_remote.as_str()
    }

    /// The branch that mirrors the pull request downstream:
    /// `refs/heads/pr-`, the number, the fork's name and the fork's branch,
    /// the last three separated by `/`.
    pub fn mirror_ref(&self) -> (name: String)
        ensures
            name@ == self@.mirror_ref(),
            mirror_ref_prefix().is_prefix_of(name@),
    {
        let mut name = String::from_str("refs/heads/pr-");
        push_decimal(&mut name, self.pr_number);
        name.append("/");
        name.append(self.head_full_name.as_str());
        name.append("/");
        name.append(self.gitref.as_str());
        assert(mirror_ref_prefix() =~= name@.subrange(0, mirror_ref_prefix().len() as int));
        name
    }

    /// Refspec with which the fork's branches are fetched.
    pub fn github_refspec(&self) -> (refspec: String)
        ensures
            refspec@ == self@.github_refspec(),
    {
        let mut refspec = String::from_str("+refs/heads/*:refs/remotes/");
        refspec.append(self.github_remote());
        refspec.append("/*");
        refspec
    }

    /// Where the fork's branch is found once fetched.
    pub fn github_ref(&self) -> (name: String)
        ensures
            name@ == self@.github_ref(),
    {
        let mut name = String::from_str("refs/remotes/");
        name.append(self.github_remote());
        name.append("/");
        name.append(self.gitref.as_str());
        name
    }

    /// SSH URL of the downstream repository.
    pub fn gitlab_url(&self, config: &Config) -> (url: String)
        ensures
            url@ == self@.gitlab_url(
                host_or(config.gitlab, default_gitlab_host()),
                config.hub_to_lab@,
            ),
    {
        let mut url = String::from_str("git@");
        let host = config.gitlab_hostname();
        url.append(host.as_str());
        url.append(":");
        let name = config.hub_to_lab.lookup(self.base_full_name.as_str());
        url.append(name.as_str());
        url.append(".git");
        url
    }

    /// Refspec that pushes the mirror branch, rewinding it where needed.
    pub fn push_refspec(&self) -> (refspec: String)
        ensures
            refspec@ == self@.push_refspec(),
    {
        let name = self.mirror_ref();
        let mut refspec = String::from_str("+");
        refspec.append(name.as_str());
        refspec.append(":");
        refspec.append(name.as_str());
        refspec
    }

    /// Refspec that deletes the mirror branch.
    pub fn delete_refspec(&self) -> (refspec: String)
        ensures
            refspec@ == self@.delete_refspec(),
    {
        let name = self.mirror_ref();
        let mut refspec = String::from_str(":");
        refspec.append(name.as_str());
        refspec
    }
}

/// Two events that agree on the pull request's number, the fork's name and
/// the fork's branch have the same mirror branch.
pub proof fn lemma_mirror_ref_determined(a: PrHandleView, b: PrHandleView)
    requires
        a.pr_number == b.pr_number,
        a.head_full_name == b.head_full_name,
        a.gitref == b.gitref,
    ensures
        a.mirror_ref() == b.mirror_ref(),
        a.push_refspec() == b.push_refspec(),
        a.delete_refspec() == b.delete_refspec(),
{
}

/// The branch that closing a pull request deletes is the branch that
/// mirroring it pushes.
pub proof fn lemma_delete_targets_pushed_ref(handle: PrHandleView)
    ensures
        handle.push_refspec() == "+"@ + handle.mirror_ref() + ":"@ + handle.mirror_ref(),
        handle.delete_refspec() == ":"@ + handle.mirror_ref(),
{
}

} // verus!
