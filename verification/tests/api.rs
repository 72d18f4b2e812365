use pr_mirror::api::github_client::{
    create_issue_comment, create_issue_comment_result, get_pull, get_pull_result, headers,
    make_repo_url,
};
use pr_mirror::api::github_proto::{XGitHubEvent, XHubSignature};
use pr_mirror::api::gitlab_client::{
    get_pipelines, get_pipelines_result, headers as lab_headers, make_api_url, make_ext_url,
    retry_pipeline, retry_pipeline_result,
};
use pr_mirror::api::http::{status_is_success, Header, Method};
use pr_mirror::api::models::github::{
    PullRequestBase, PullRequestHead, PullRequestPullRequest, PullRequestRepo,
};
use pr_mirror::api::models::gitlab::Pipeline;
use pr_mirror::commands::{CommandAction, CommandError};
use pr_mirror::config::{Config, Feature, NameMap, Server, Site};
use pr_mirror::encoding::{form_encode_str, json_object_1};
use pr_mirror::errors::{GitError, RequestErrorResult};

fn site(hostname: Option<&str>, token: &str) -> Site {
    Site {
        hostname: hostname.map(|h| h.to_string()),
        api_token: token.to_string(),
        webhook_secret: "secret".to_string(),
        username: "bot".to_string(),
        ssh_key: "/keys/id".to_string(),
    }
}

fn settings(hub: Option<&str>, lab: Option<&str>) -> Config {
    Config {
        server: Server { bindto: "127.0.0.1:8000".to_string() },
        github: site(hub, "hubtoken"),
        gitlab: site(lab, "labtoken"),
        features: vec![Feature::ExternalPr, Feature::Commands],
        enabled_actions: vec!["opened".to_string()],
        enabled_commands: vec![CommandAction::Retry],
        hub_to_lab: NameMap::new(),
    }
}

fn header(name: &str, value: &str) -> Header {
    Header { name: name.to_string(), value: value.to_string() }
}

fn pull(sha: &str) -> PullRequestPullRequest {
    let repo = PullRequestRepo {
        ssh_url: "git@github.com:fork/repo.git".to_string(),
        full_name: "fork/repo".to_string(),
        fork: true,
    };
    PullRequestPullRequest {
        number: 5,
        head: PullRequestHead { ref_key: "topic".to_string(), sha: sha.to_string(), repo: repo.clone() },
        base: PullRequestBase { repo },
    }
}

#[test]
fn hub_headers_carry_the_token() {
    assert_eq!(
        headers("t0k"),
        vec![
            header("authorization", "token t0k"),
            header("accept", "application/vnd.github.v3+json"),
            header("accept-encoding", "Accept-Encoding: deflate, gzip"),
        ]
    );
}

#[test]
fn lab_headers_carry_the_token() {
    assert_eq!(lab_headers("t0k"), vec![header("private-token", "t0k")]);
}

#[test]
fn repo_url_on_the_default_host() {
    assert_eq!(
        make_repo_url(&settings(None, None), "org", "repo"),
        "https://api.github.com/repos/org/repo"
    );
}

#[test]
fn repo_url_on_a_configured_host() {
    assert_eq!(
        make_repo_url(&settings(Some("hub.example.org"), None), "org", "repo"),
        "https://api.hub.example.org/repos/org/repo"
    );
}

#[test]
fn get_pull_request() {
    let request = get_pull(&settings(None, None), "org", "repo", 17);
    assert_eq!(request.method, Method::Get);
    assert_eq!(request.url, "https://api.github.com/repos/org/repo/pulls/17");
    assert_eq!(request.headers, headers("hubtoken"));
    assert_eq!(request.body, None);
}

#[test]
fn create_issue_comment_request() {
    let request = create_issue_comment(&settings(None, None), "org", "repo", 17, "say \"hi\"\n");
    assert_eq!(request.method, Method::Post);
    assert_eq!(request.url, "https://api.github.com/repos/org/repo/issues/17/comments");
    assert_eq!(request.headers, headers("hubtoken"));
    assert_eq!(request.body, Some("{\"body\":\"say \\\"hi\\\"\\n\"}".to_string()));
}

#[test]
fn comment_is_created_with_status_201_only() {
    assert_eq!(create_issue_comment_result(201, "{}"), Ok(()));
    for status in [200u16, 202, 404, 500] {
        assert_eq!(
            create_issue_comment_result(status, "denied"),
            Err(GitError { message: "Error creating issue comment: body=denied".to_string() })
        );
    }
}

#[test]
fn pull_request_is_read_from_a_successful_answer() {
    assert_eq!(get_pull_result(200, Some(pull("abc")), "{...}"), Ok(pull("abc")));
    assert_eq!(
        get_pull_result(404, Some(pull("abc")), "not found"),
        Err(GitError { message: "hub request failed: body=not found".to_string() })
    );
    assert_eq!(
        get_pull_result(200, None, "<html>"),
        Err(GitError { message: "hub request failed: body=<html>".to_string() })
    );
}

#[test]
fn success_statuses() {
    assert!(status_is_success(200));
    assert!(status_is_success(201));
    assert!(status_is_success(299));
    assert!(!status_is_success(199));
    assert!(!status_is_success(300));
    assert!(!status_is_success(404));
}

#[test]
fn api_url_encodes_the_project() {
    assert_eq!(
        make_api_url(&settings(None, None), "group/sub project"),
        "https://gitlab.com/api/v4/projects/group%2Fsub+project"
    );
    assert_eq!(
        make_api_url(&settings(None, Some("lab.example.org")), "org/repo"),
        "https://lab.example.org/api/v4/projects/org%2Frepo"
    );
}

#[test]
fn ext_url_keeps_the_project() {
    assert_eq!(make_ext_url(&settings(None, None), "org/repo"), "https://gitlab.com/org/repo");
}

#[test]
fn get_pipelines_request() {
    let request = get_pipelines(&settings(None, None), "org/repo", 3, 100);
    assert_eq!(request.method, Method::Get);
    assert_eq!(
        request.url,
        "https://gitlab.com/api/v4/projects/org%2Frepo/pipelines?page=3&per_page=100"
    );
    assert_eq!(request.headers, lab_headers("labtoken"));
    assert_eq!(request.body, None);
}

#[test]
fn retry_pipeline_request() {
    let request = retry_pipeline(&settings(None, None), "org/repo", 7);
    assert_eq!(request.method, Method::Post);
    assert_eq!(request.url, "https://gitlab.com/api/v4/projects/org%2Frepo/pipelines/7/retry");
    assert_eq!(request.headers, lab_headers("labtoken"));
}

#[test]
fn pipelines_are_read_from_a_successful_answer() {
    let records = vec![Pipeline { id: Some(7), sha: Some("abc".to_string()) }];
    assert_eq!(get_pipelines_result(200, Some(records.clone()), "[...]"), Ok(records.clone()));
    assert_eq!(
        get_pipelines_result(500, Some(records), "oops"),
        Err(GitError { message: "lab request failed: body=oops".to_string() })
    );
    assert_eq!(
        get_pipelines_result(200, None, "x"),
        Err(GitError { message: "lab request failed: body=x".to_string() })
    );
}

#[test]
fn retry_succeeds_with_a_success_status() {
    assert_eq!(retry_pipeline_result(201, ""), Ok(()));
    assert_eq!(
        retry_pipeline_result(403, "forbidden"),
        Err(GitError { message: "lab request failed: body=forbidden".to_string() })
    );
}

#[test]
fn form_encoding_of_text() {
    assert_eq!(form_encode_str("abc-XYZ_0.9*"), "abc-XYZ_0.9*");
    assert_eq!(form_encode_str("a b"), "a+b");
    assert_eq!(form_encode_str("a/b"), "a%2Fb");
    assert_eq!(form_encode_str("~"), "%7E");
    assert_eq!(form_encode_str("é"), "%C3%A9");
    assert_eq!(form_encode_str(""), "");
}

#[test]
fn json_object_with_escapes() {
    assert_eq!(json_object_1("body", "plain"), "{\"body\":\"plain\"}");
    assert_eq!(json_object_1("k", "a\"b\\c"), "{\"k\":\"a\\\"b\\\\c\"}");
    assert_eq!(json_object_1("k", "\u{8}\t\n\u{c}\r"), "{\"k\":\"\\b\\t\\n\\f\\r\"}");
    assert_eq!(json_object_1("k", "\u{1}\u{1f}"), "{\"k\":\"\\u0001\\u001f\"}");
    assert_eq!(json_object_1("k", "é😀\u{7f}"), "{\"k\":\"é😀\u{7f}\"}");
}

#[test]
fn json_object_is_read_back() {
    let text = json_object_1("body", "line\n\"quoted\" \\ \u{2} ü");
    let value: serde_json::Value = serde_json::from_str(&text).unwrap();
    assert_eq!(value["body"].as_str(), Some("line\n\"quoted\" \\ \u{2} ü"));
}

#[test]
fn git_error_messages() {
    assert_eq!(GitError::from_git("x").message, "Git error: x");
    assert_eq!(GitError::from_io("x").message, "Git error: x");
    assert_eq!(GitError::from_serde("x").message, "Github serde error: x");
    assert_eq!(GitError::from_request("x").message, "Git request error: x");
    assert_eq!(GitError::with_message("x").message, "x");
    assert_eq!(GitError::prefixed("a: ", "b").message, "a: b");
    assert_eq!(
        GitError::from_command(CommandError::InvalidLength).message,
        "Git command error: InvalidLength"
    );
    let error = GitError::from_git("x");
    assert_eq!(error.duplicate(), error);
}

#[test]
fn request_errors_and_their_statuses() {
    let bad = RequestErrorResult::bad_request("no");
    assert_eq!(bad.status(), 400);
    assert_eq!(bad.body(), "{\"error\":\"no\"}");
    let failed = RequestErrorResult::response_error("disk \"full\"");
    assert_eq!(failed.status(), 500);
    assert_eq!(failed.body(), "{\"error\":\"disk \\\"full\\\"\"}");
    assert_eq!(RequestErrorResult::from_io("x").status(), 500);
    assert_eq!(RequestErrorResult::from_signature("x").status(), 400);
    assert_eq!(RequestErrorResult::from_serde("x").status(), 400);
    assert_eq!(RequestErrorResult::from_git("x").status(), 400);
    assert!(matches!(RequestErrorResult::from_io("x"), RequestErrorResult::ResponseError(_)));
    assert!(matches!(RequestErrorResult::from_git("x"), RequestErrorResult::BadRequest(_)));
}

#[test]
fn event_header() {
    assert_eq!(XGitHubEvent::name(), "x-github-event");
    assert_eq!(XGitHubEvent::decode(Some("push")), Some(XGitHubEvent("push".to_string())));
    assert_eq!(XGitHubEvent::decode(None), None);
    assert_eq!(XGitHubEvent("push".to_string()).encode(), "push");
}

#[test]
fn signature_header() {
    assert_eq!(XHubSignature::name(), "x-hub-signature");
    assert_eq!(
        XHubSignature::decode(Some("sha1=abcdef")),
        Some(XHubSignature("sha1=abcdef".to_string()))
    );
    assert_eq!(XHubSignature::decode(None), None);
    assert_eq!(XHubSignature("sha1=abcdef".to_string()).encode(), "sha1=abcdef");
}
