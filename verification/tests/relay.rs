use pr_mirror::api::http::Method;
use pr_mirror::api::models::github::{
    Comment, Issue, IssueComment, IssuePullRequest, PullRequestBase, PullRequestHead,
    PullRequestPullRequest, PullRequestRepo, Repository, Sender,
};
use pr_mirror::api::models::gitlab::Pipeline;
use pr_mirror::commands::CommandAction;
use pr_mirror::config::{Config, Feature, NameMap, Server, Site};
use pr_mirror::errors::GitError;
use pr_mirror::relay::{
    find_pipeline_id, get_sha, handle_ic, handle_pr_ic, handle_retry_command, to_http,
    write_issue_comment, Relay, RelayRequest, RelayResponse, Stage,
};

fn comment(body: &str, full_name: &str) -> IssueComment {
    IssueComment {
        action: "created".to_string(),
        issue: Issue { number: 5, user: None, pull_request: Some(IssuePullRequest { url: None }) },
        comment: Comment { body: body.to_string() },
        repository: Repository {
            ssh_url: format!("git@github.com:{}.git", full_name),
            full_name: full_name.to_string(),
        },
        sender: Sender { login: None },
    }
}

fn site() -> Site {
    Site {
        hostname: None,
        api_token: "token".to_string(),
        webhook_secret: "secret".to_string(),
        username: "bot".to_string(),
        ssh_key: "/keys/id".to_string(),
    }
}

fn settings() -> Config {
    Config {
        server: Server { bindto: "127.0.0.1:8000".to_string() },
        github: site(),
        gitlab: site(),
        features: vec![Feature::ExternalPr, Feature::Commands],
        enabled_actions: vec!["opened".to_string()],
        enabled_commands: vec![CommandAction::Retry],
        hub_to_lab: NameMap::new(),
    }
}

fn pull(sha: &str) -> PullRequestPullRequest {
    let repo = PullRequestRepo {
        ssh_url: "git@github.com:fork/repo.git".to_string(),
        full_name: "fork/repo".to_string(),
        fork: true,
    };
    PullRequestPullRequest {
        number: 5,
        head: PullRequestHead { ref_key: "topic".to_string(), sha: sha.to_string(), repo: repo.clone() },
        base: PullRequestBase { repo },
    }
}

fn record(id: i64, sha: &str) -> Pipeline {
    Pipeline { id: Some(id), sha: Some(sha.to_string()) }
}

fn failed(message: &str) -> GitError {
    GitError { message: message.to_string() }
}

fn searching(page: i64) -> Relay {
    Relay {
        org: "org".to_string(),
        repo: "repo".to_string(),
        number: 5,
        project: "org/repo".to_string(),
        stage: Stage::FindPipeline { sha: "abc".to_string(), page },
    }
}

#[test]
fn retry_command_is_relayed_to_the_pipeline() {
    let config = settings();
    let relay = handle_ic(&config, &comment("@bot retry", "org/repo"));
    assert_eq!(
        relay.pending(&config),
        Some(RelayRequest::GetPull { org: "org".to_string(), repo: "repo".to_string(), number: 5 })
    );
    let relay = relay.step(RelayResponse::Pull(Ok(pull("abc"))));
    assert_eq!(
        relay.pending(&config),
        Some(RelayRequest::GetPipelines { project: "org/repo".to_string(), page: 1, per_page: 100 })
    );
    let relay = relay.step(RelayResponse::Pipelines(Ok(vec![record(7, "abc")])));
    assert_eq!(
        relay.pending(&config),
        Some(RelayRequest::RetryPipeline { project: "org/repo".to_string(), pipeline_id: 7 })
    );
    let relay = relay.step(RelayResponse::Retried(Ok(())));
    match relay.pending(&config) {
        Some(RelayRequest::CreateIssueComment { org, repo, number, body }) => {
            assert_eq!(org, "org");
            assert_eq!(repo, "repo");
            assert_eq!(number, 5);
            assert!(body.contains("pipeline [**7**]"));
            assert_eq!(
                body,
                "Sent **retry** command for pipeline [**7**](https://gitlab.com/org/repo/pipelines/7) on [**GitLab**](https://gitlab.com/org/repo)\n\nHave a great day! 😄"
            );
        }
        other => panic!("unexpected request {:?}", other),
    }
    let relay = relay.step(RelayResponse::Commented(Ok(())));
    assert_eq!(relay.outcome(), Some(Ok(())));
    assert_eq!(relay.pending(&config), None);
}

#[test]
fn full_page_without_match_asks_for_the_next_page() {
    let config = settings();
    let page: Vec<Pipeline> = (0..100).map(|i| record(i, "other")).collect();
    let relay = searching(1).step(RelayResponse::Pipelines(Ok(page)));
    assert_eq!(relay.stage, Stage::FindPipeline { sha: "abc".to_string(), page: 2 });
    assert_eq!(
        relay.pending(&config),
        Some(RelayRequest::GetPipelines { project: "org/repo".to_string(), page: 2, per_page: 100 })
    );
    let relay = relay.step(RelayResponse::Pipelines(Ok(vec![record(977, "abc")])));
    assert_eq!(relay.stage, Stage::Retry { pipeline_id: 977 });
    assert_eq!(
        relay.pending(&config),
        Some(RelayRequest::RetryPipeline { project: "org/repo".to_string(), pipeline_id: 977 })
    );
}

#[test]
fn short_page_without_match_ends_the_search() {
    let config = settings();
    let relay = searching(1)
        .step(RelayResponse::Pipelines(Ok(vec![record(1, "x"), record(2, "y"), record(3, "z")])));
    assert_eq!(
        relay.outcome(),
        Some(Err(failed("Unable to find pipeline for project=org/repo sha=abc")))
    );
    assert_eq!(relay.pending(&config), None);
}

#[test]
fn short_second_page_without_match_ends_the_search() {
    let page: Vec<Pipeline> = (0..100).map(|i| record(i, "other")).collect();
    let relay = searching(1).step(RelayResponse::Pipelines(Ok(page)));
    let relay = relay.step(RelayResponse::Pipelines(Ok(vec![record(1, "x")])));
    assert_eq!(
        relay.outcome(),
        Some(Err(failed("Unable to find pipeline for project=org/repo sha=abc")))
    );
}

#[test]
fn empty_page_ends_the_search() {
    let relay = searching(3).step(RelayResponse::Pipelines(Ok(vec![])));
    assert!(matches!(relay.stage, Stage::Finished(Err(_))));
}

#[test]
fn match_in_a_full_page_is_taken() {
    let mut page: Vec<Pipeline> = (0..100).map(|i| record(i, "other")).collect();
    page[99] = record(500, "abc");
    let relay = searching(1).step(RelayResponse::Pipelines(Ok(page)));
    assert_eq!(relay.stage, Stage::Retry { pipeline_id: 500 });
}

#[test]
fn last_page_number_is_not_passed() {
    let page: Vec<Pipeline> = (0..100).map(|i| record(i, "other")).collect();
    let relay = searching(i64::MAX).step(RelayResponse::Pipelines(Ok(page)));
    assert!(matches!(relay.stage, Stage::Finished(Err(_))));
}

#[test]
fn first_matching_record_wins() {
    let records = vec![record(1, "x"), record(2, "abc"), record(3, "abc")];
    assert_eq!(find_pipeline_id(&records, "abc"), Some(2));
}

#[test]
fn records_without_id_or_commit_are_passed_over() {
    let records = vec![
        Pipeline { id: None, sha: Some("abc".to_string()) },
        Pipeline { id: Some(4), sha: None },
        record(9, "abc"),
    ];
    assert_eq!(find_pipeline_id(&records, "abc"), Some(9));
    assert_eq!(find_pipeline_id(&records[..2].to_vec(), "abc"), None);
    assert_eq!(find_pipeline_id(&vec![], "abc"), None);
}

#[test]
fn unknown_command_is_answered_with_a_reply() {
    let config = settings();
    let relay = handle_pr_ic(&config, &comment("@bot frobnicate", "org/repo"));
    assert_eq!(relay.stage, Stage::Apologise);
    assert_eq!(
        relay.pending(&config),
        Some(RelayRequest::CreateIssueComment {
            org: "org".to_string(),
            repo: "repo".to_string(),
            number: 5,
            body: "Sorry, but I don't know what that command means.\n\nThanks for asking 🥰"
                .to_string(),
        })
    );
    let relay = relay.step(RelayResponse::Commented(Ok(())));
    assert_eq!(relay.outcome(), Some(Ok(())));
}

#[test]
fn failed_reply_fails_the_relay() {
    let config = settings();
    let relay = handle_pr_ic(&config, &comment("@bot frobnicate", "org/repo"));
    let relay = relay.step(RelayResponse::Commented(Err(failed("Error creating issue comment: body=no"))));
    assert_eq!(relay.outcome(), Some(Err(failed("Error creating issue comment: body=no"))));
}

#[test]
fn comment_for_someone_else_ends_with_an_error() {
    let relay = handle_pr_ic(&settings(), &comment("@someone retry", "org/repo"));
    assert_eq!(relay.outcome(), Some(Err(failed("Bad username for command"))));
}

#[test]
fn comment_with_too_many_words_ends_with_an_error() {
    let relay = handle_pr_ic(&settings(), &comment("@bot retry now", "org/repo"));
    assert_eq!(relay.outcome(), Some(Err(failed("Too many parameters for command"))));
}

#[test]
fn comment_without_verb_ends_with_an_error() {
    let relay = handle_pr_ic(&settings(), &comment("@bot ", "org/repo"));
    assert_eq!(relay.outcome(), Some(Err(failed("Invalid format for command"))));
}

#[test]
fn command_that_is_switched_off_ends_quietly() {
    let mut config = settings();
    config.enabled_commands.clear();
    let relay = handle_pr_ic(&config, &comment("@bot retry", "org/repo"));
    assert_eq!(relay.outcome(), Some(Ok(())));
    assert_eq!(relay.pending(&config), None);
}

#[test]
fn repository_name_must_have_two_parts() {
    let config = settings();
    for name in ["repo", "a/b/c", ""] {
        let relay = handle_retry_command(&config, &comment("@bot retry", name));
        assert_eq!(relay.outcome(), Some(Err(failed(&format!("Invalid repo name {}", name)))));
        let relay = write_issue_comment(&config, &comment("@bot what", name));
        assert_eq!(relay.outcome(), Some(Err(failed(&format!("Invalid repo name {}", name)))));
    }
}

#[test]
fn project_is_the_mapped_repository_name() {
    let mut config = settings();
    config.hub_to_lab.insert("org/repo", "group/project");
    let relay = get_sha(&config, &comment("@bot retry", "org/repo"));
    assert_eq!(relay.project, "group/project");
    assert_eq!(relay.org, "org");
    assert_eq!(relay.repo, "repo");
    assert_eq!(relay.stage, Stage::ResolveSha);
}

#[test]
fn failed_pull_request_lookup_ends_the_relay() {
    let relay = get_sha(&settings(), &comment("@bot retry", "org/repo"));
    let relay = relay.step(RelayResponse::Pull(Err(failed("hub request failed: body=nope"))));
    assert_eq!(relay.outcome(), Some(Err(failed("hub request failed: body=nope"))));
}

#[test]
fn failed_pipeline_list_ends_the_relay() {
    let relay = searching(1).step(RelayResponse::Pipelines(Err(failed("lab request failed: body="))));
    assert_eq!(relay.outcome(), Some(Err(failed("lab request failed: body="))));
}

#[test]
fn failed_retry_ends_the_relay_without_comment() {
    let config = settings();
    let relay = searching(1).step(RelayResponse::Pipelines(Ok(vec![record(7, "abc")])));
    let relay = relay.step(RelayResponse::Retried(Err(failed("lab request failed: body=403"))));
    assert_eq!(relay.outcome(), Some(Err(failed("lab request failed: body=403"))));
    assert_eq!(relay.pending(&config), None);
}

#[test]
fn answer_of_the_wrong_kind_ends_the_relay() {
    let relay = searching(1).step(RelayResponse::Retried(Ok(())));
    assert_eq!(relay.outcome(), Some(Err(failed("Unexpected response"))));
}

#[test]
fn ended_relay_stays_ended() {
    let relay = searching(1).step(RelayResponse::Pipelines(Ok(vec![])));
    let before = relay.outcome();
    let relay = relay.step(RelayResponse::Commented(Ok(())));
    assert_eq!(relay.outcome(), before);
    assert!(relay.is_finished());
}

#[test]
fn running_relay_has_no_outcome() {
    assert_eq!(searching(1).outcome(), None);
    assert!(!searching(1).is_finished());
}

#[test]
fn requests_become_http_requests() {
    let config = settings();
    let http = to_http(
        &config,
        &RelayRequest::GetPull { org: "org".to_string(), repo: "repo".to_string(), number: 5 },
    );
    assert_eq!(http.method, Method::Get);
    assert_eq!(http.url, "https://api.github.com/repos/org/repo/pulls/5");
    assert_eq!(http.body, None);

    let http = to_http(
        &config,
        &RelayRequest::GetPipelines { project: "org/repo".to_string(), page: 2, per_page: 100 },
    );
    assert_eq!(http.method, Method::Get);
    assert_eq!(http.url, "https://gitlab.com/api/v4/projects/org%2Frepo/pipelines?page=2&per_page=100");

    let http = to_http(
        &config,
        &RelayRequest::RetryPipeline { project: "org/repo".to_string(), pipeline_id: 7 },
    );
    assert_eq!(http.method, Method::Post);
    assert_eq!(http.url, "https://gitlab.com/api/v4/projects/org%2Frepo/pipelines/7/retry");

    let http = to_http(
        &config,
        &RelayRequest::CreateIssueComment {
            org: "org".to_string(),
            repo: "repo".to_string(),
            number: 5,
            body: "hi".to_string(),
        },
    );
    assert_eq!(http.method, Method::Post);
    assert_eq!(http.url, "https://api.github.com/repos/org/repo/issues/5/comments");
    assert_eq!(http.body, Some("{\"body\":\"hi\"}".to_string()));
}
