use pr_mirror::api::models::github::{
    Comment, Issue, IssueComment, IssuePullRequest, PullRequest, PullRequestBase,
    PullRequestHead, PullRequestPullRequest, PullRequestRepo, RepoPr, Repository, Sender, User,
};
use pr_mirror::commands::CommandAction;
use pr_mirror::config::{Config, Feature, NameMap, Server, Site};
use pr_mirror::github::get_gitlab_repo_name;
use pr_mirror::handle::PrHandle;

fn repo(full_name: &str, fork: bool) -> PullRequestRepo {
    PullRequestRepo {
        ssh_url: format!("git@github.com:{}.git", full_name),
        full_name: full_name.to_string(),
        fork,
    }
}

fn pull_request(action: &str, number: i64, head: &str, branch: &str, fork: bool) -> PullRequest {
    PullRequest {
        action: action.to_string(),
        pull_request: PullRequestPullRequest {
            number,
            head: PullRequestHead {
                ref_key: branch.to_string(),
                sha: "0d1a26e67d8f5eaf1f6ba5c57fc3c7d91ac0fd1c".to_string(),
                repo: repo(head, fork),
            },
            base: PullRequestBase { repo: repo("baxterthehacker/public-repo", false) },
        },
        repository: Repository {
            ssh_url: "git@github.com:baxterthehacker/public-repo.git".to_string(),
            full_name: "baxterthehacker/public-repo".to_string(),
        },
    }
}

fn site(hostname: Option<&str>) -> Site {
    Site {
        hostname: hostname.map(|h| h.to_string()),
        api_token: "token".to_string(),
        webhook_secret: "secret".to_string(),
        username: "bot".to_string(),
        ssh_key: "/keys/id_rsa".to_string(),
    }
}

fn config(gitlab_host: Option<&str>, hub_to_lab: NameMap) -> Config {
    Config {
        server: Server { bindto: "127.0.0.1:8000".to_string() },
        github: site(None),
        gitlab: site(gitlab_host),
        features: vec![Feature::ExternalPr, Feature::Commands],
        enabled_actions: vec!["opened".to_string(), "closed".to_string()],
        enabled_commands: vec![CommandAction::Retry],
        hub_to_lab,
    }
}

#[test]
fn open_pr() {
    let pr = pull_request("opened", 1, "baxterthehacker/public-repo", "changes", false);
    assert_eq!(pr.is_fork(), false);
    let _pr_handle = PrHandle::new(&pr);
}

#[test]
fn reopen_pr() {
    let pr = pull_request("reopened", 1, "baxterthehacker/public-repo", "changes", false);
    assert_eq!(pr.is_fork(), false);
    let _pr_handle = PrHandle::new(&pr);
}

#[test]
fn open_pr_fork() {
    let pr = pull_request("opened", 2, "contributor/public-repo", "patch-1", true);
    assert_eq!(pr.is_fork(), true);
    let _pr_handle = PrHandle::new(&pr);
}

#[test]
fn close_pr_fork() {
    let pr = pull_request("closed", 2, "contributor/public-repo", "patch-1", true);
    let _pr_handle = PrHandle::new(&pr);
}

#[test]
fn get_pr() {
    let _pr: RepoPr = pull_request("opened", 1, "baxterthehacker/public-repo", "changes", false)
        .pull_request;
}

#[test]
fn created_issue_comment() {
    let _ic = IssueComment {
        action: "created".to_string(),
        issue: Issue {
            number: 2,
            user: Some(User { login: "baxterthehacker".to_string() }),
            pull_request: Some(IssuePullRequest { url: None }),
        },
        comment: Comment { body: "You are totally right! I'll get this fixed right away.".to_string() },
        repository: Repository {
            ssh_url: "git@github.com:baxterthehacker/public-repo.git".to_string(),
            full_name: "baxterthehacker/public-repo".to_string(),
        },
        sender: Sender { login: Some("baxterthehacker".to_string()) },
    };
}

#[test]
fn is_fork_reads_the_head_repository() {
    let mut pr = pull_request("opened", 3, "someone/public-repo", "main", true);
    assert!(pr.is_fork());
    pr.pull_request.head.repo.fork = false;
    pr.pull_request.base.repo.fork = true;
    assert!(!pr.is_fork());
}

#[test]
fn is_from_pr_reads_the_issue() {
    let mut ic = IssueComment {
        action: "created".to_string(),
        issue: Issue { number: 2, user: None, pull_request: None },
        comment: Comment { body: "@bot retry".to_string() },
        repository: Repository { ssh_url: "u".to_string(), full_name: "o/r".to_string() },
        sender: Sender { login: None },
    };
    assert!(!ic.is_from_pr());
    ic.issue.pull_request = Some(IssuePullRequest { url: Some("https://x".to_string()) });
    assert!(ic.is_from_pr());
}

#[test]
fn handle_fields_come_from_the_event() {
    let pr = pull_request("opened", 42, "fork/repo", "feature/x", true);
    let handle = PrHandle::new(&pr);
    assert_eq!(handle.base_full_name(), "baxterthehacker/public-repo");
    assert_eq!(handle.head_full_name(), "fork/repo");
    assert_eq!(handle.gitref(), "feature/x");
    assert_eq!(handle.github_clone_url(), "git@github.com:fork/repo.git");
    assert_eq!(handle.pr_number(), 42);
}

#[test]
fn mirror_ref_is_made_of_number_fork_and_branch() {
    let pr = pull_request("opened", 42, "fork/repo", "feature/x", true);
    let handle = PrHandle::new(&pr);
    assert_eq!(handle.mirror_ref(), "refs/heads/pr-42/fork/repo/feature/x");
    assert!(handle.mirror_ref().starts_with("refs/heads/pr-"));
}

#[test]
fn remote_names() {
    let pr = pull_request("opened", 42, "fork/repo", "feature/x", true);
    let handle = PrHandle::new(&pr);
    assert_eq!(handle.github_remote(), "github-42");
    assert_eq!(handle.gitlab_remote(), "gitlab");
}

#[test]
fn same_pull_request_same_mirror_ref() {
    let first = PrHandle::new(&pull_request("opened", 9, "fork/repo", "topic", true));
    let second = PrHandle::new(&pull_request("synchronize", 9, "fork/repo", "topic", true));
    assert_eq!(first.mirror_ref(), second.mirror_ref());
    assert_eq!(first, second);
}

#[test]
fn refspecs() {
    let pr = pull_request("opened", 42, "fork/repo", "feature/x", true);
    let handle = PrHandle::new(&pr);
    assert_eq!(handle.github_refspec(), "+refs/heads/*:refs/remotes/github-42/*");
    assert_eq!(handle.github_ref(), "refs/remotes/github-42/feature/x");
    assert_eq!(
        handle.push_refspec(),
        "+refs/heads/pr-42/fork/repo/feature/x:refs/heads/pr-42/fork/repo/feature/x"
    );
    assert_eq!(handle.delete_refspec(), ":refs/heads/pr-42/fork/repo/feature/x");
}

#[test]
fn delete_refspec_names_the_pushed_ref() {
    let pr = pull_request("closed", 7, "fork/repo", "b", true);
    let handle = PrHandle::new(&pr);
    let pushed = handle.push_refspec();
    let target = pushed.split(':').nth(1).unwrap().to_string();
    assert_eq!(handle.delete_refspec(), format!(":{}", target));
}

#[test]
fn gitlab_url_uses_default_host_and_same_name() {
    let pr = pull_request("opened", 42, "fork/repo", "feature/x", true);
    let handle = PrHandle::new(&pr);
    let settings = config(None, NameMap::new());
    assert_eq!(handle.gitlab_url(&settings), "git@gitlab.com:baxterthehacker/public-repo.git");
}

#[test]
fn gitlab_url_uses_configured_host_and_mapped_name() {
    let pr = pull_request("opened", 42, "fork/repo", "feature/x", true);
    let handle = PrHandle::new(&pr);
    let mut names = NameMap::new();
    names.insert("baxterthehacker/public-repo", "mirrors/public");
    let settings = config(Some("lab.example.org"), names);
    assert_eq!(handle.gitlab_url(&settings), "git@lab.example.org:mirrors/public.git");
}

#[test]
fn duplicate_is_equal() {
    let handle = PrHandle::new(&pull_request("opened", 42, "fork/repo", "feature/x", true));
    assert_eq!(handle.duplicate(), handle);
}

#[test]
fn name_map_lookup() {
    let mut names = NameMap::new();
    assert_eq!(names.lookup("a/b"), "a/b");
    names.insert("a/b", "x/y");
    assert_eq!(names.lookup("a/b"), "x/y");
    assert_eq!(names.lookup("a/c"), "a/c");
    assert_eq!(get_gitlab_repo_name(&names, "a/b"), "x/y");
    assert_eq!(get_gitlab_repo_name(&names, "other/repo"), "other/repo");
}

#[test]
fn name_map_later_insert_wins() {
    let mut names = NameMap::new();
    names.insert("a/b", "x/y");
    names.insert("a/b", "x/z");
    assert_eq!(names.lookup("a/b"), "x/z");
}

#[test]
fn name_map_lookup_twice_is_lookup_once() {
    let mut names = NameMap::new();
    names.insert("a/b", "x/y");
    names.insert("c/d", "z/w");
    for name in ["a/b", "c/d", "x/y", "e/f"] {
        let once = names.lookup(name);
        assert_eq!(names.lookup(&once), once);
    }
}
