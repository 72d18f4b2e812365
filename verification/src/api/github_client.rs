//! The upstream service's API: reading a pull request and writing a comment.

use crate::api::http::{header_views, is_success, Header, HttpRequest, HttpRequestView, Method};
use crate::api::models::github::PullRequestPullRequest;
use crate::config::{default_github_host, host_or, Config};
use crate::encoding::{json_member_object, json_object_1};
use crate::errors::GitError;
use crate::text::{decimal, push_decimal};
use vstd::prelude::*;
use vstd::string::*;

verus! {

/// The headers of every request to the upstream API: the token, the media
/// type asked for, and the encodings accepted.
pub open spec fn headers_spec(token: Seq<char>) -> Seq<(Seq<char>, Seq<char>)> {
    seq![
        ("authorization"@, "token "@ + token),
        ("accept"@, "application/vnd.github.v3+json"@),
        ("accept-encoding"@, "Accept-Encoding: deflate, gzip"@),
    ]
}

/// The headers of a request to the upstream API made with `token`.
pub fn headers(token: &str) -> (list: Vec<Header>)
    ensures
        header_views(list@) == headers_spec(token@),
{
    let mut authorization = String::from_str("token ");
    authorization.append(token);
    let mut list: Vec<Header> = Vec::new();
    list.push(Header { name: String::from_str("authorization"), value: authorization });
    list.push(
        Header {
            name: String::from_str("accept"),
            value: String::from_str("application/vnd.github.v3+json"),
        },
    );
    list.push(
        Header {
            name: String::from_str("accept-encoding"),
            value: String::from_str("Accept-Encoding: deflate, gzip"),
        },
    );
    assert(header_views(list@) =~= headers_spec(token@));
    list
}

/// The API address of the repository `org/repo` on `host`.
pub open spec fn repo_url(host: Seq<char>, org: Seq<char>, repo: Seq<char>) -> Seq<char> {
    "https://api."@ + host + "/repos/"@ + org + "/"@ + repo
}

/// The API address of the repository `org/repo`.
pub fn make_repo_url(config: &Config, org: &str, repo: &str) -> (url: String)
    ensures
        url@ == repo_url(host_or(config.github, default_github_host()), org@, repo@),
{
    let hostname = config.github_hostname();
    let mut url = String::from_str("https://api.");
    url.append(hostname.as_str());
    url.append("/repos/");
    url.append(org);
    url.append("/");
    url.append(repo);
    url
}

/// The request that reads pull request `number` of `org/repo`.
pub open spec fn get_pull_spec(
    host: Seq<char>,
    token: Seq<char>,
    org: Seq<char>,
    repo: Seq<char>,
    number: int,
) -> HttpRequestView {
    HttpRequestView {
        method: Method::Get,
        url: repo_url(host, org, repo) + "/pulls/"@ + decimal(number),
        headers: headers_spec(token),
        body: None,
    }
}

/// The request that reads pull request `number` of `org/repo`.
pub fn get_pull(config: &Config, org: &str, repo: &str, number: i64) -> (request: HttpRequest)
    ensures
        request@ == get_pull_spec(
            host_or(config.github, default_github_host()),
            config.github.api_token@,
            org@,
            repo@,
            number as int,
        ),
{
    let mut url = make_repo_url(config, org, repo);
    url.append("/pulls/");
    push_decimal(&mut url, number);
    HttpRequest {
        method: Method::Get,
        url,
        headers: headers(config.github.api_token.as_str()),
        body: None,
    }
}

/// The message of the error for a pull request that could not be read.
pub open spec fn pull_failed(text: Seq<char>) -> Seq<char> {
    "hub request failed: body="@ + text
}

/// Reads the answer to `get_pull`: the pull request, provided that the
/// status reports success and the body could be decoded; else an error that
/// holds the body. `decoded` is the body as a pull request, where it is one,
/// and `text` the body as it came.
pub fn get_pull_result(status: u16, decoded: Option<PullRequestPullRequest>, text: &str) -> (read:
    Result<PullRequestPullRequest, GitError>)
    ensures
        match read {
            Ok(pull) => is_success(status) && decoded == Some(pull),
            Err(error) => !(is_success(status) && decoded is Some) && error@ == pull_failed(text@),
        },
{
    if 200 <= status && status <= 299 {
        match decoded {
            Some(pull) => {
                return Ok(pull);
            },
            None => {},
        }
    }
    Err(GitError::prefixed("hub request failed: body=", text))
}

/// The request that writes the comment `body` on issue `number` of
/// `org/repo`.
pub open spec fn create_issue_comment_spec(
    host: Seq<char>,
    token: Seq<char>,
    org: Seq<char>,
    repo: Seq<char>,
    number: int,
    body: Seq<char>,
) -> HttpRequestView {
    HttpRequestView {
        method: Method::Post,
        url: repo_url(host, org, repo) + "/issues/"@ + decimal(number) + "/comments"@,
        headers: headers_spec(token),
        body: Some(json_member_object("body"@, body)),
    }
}

/// The request that writes the comment `body` on issue `number` of
/// `org/repo`.
pub fn create_issue_comment(config: &Config, org: &str, repo: &str, number: i64, body: &str) -> (request:
    HttpRequest)
    ensures
        request@ == create_issue_comment_spec(
            host_or(config.github, default_github_host()),
            config.github.api_token@,
            org@,
            repo@,
            number as int,
            body@,
        ),
{
    let mut url = make_repo_url(config, org, repo);
    url.append("/issues/");
    push_decimal(&mut url, number);
    url.append("/comments");
    HttpRequest {
        method: Method::Post,
        url,
        headers: headers(config.github.api_token.as_str()),
        body: Some(json_object_1("body", body)),
    }
}

/// The status that tells that a comment was created.
pub open spec fn created() -> u16 {
    201
}

/// The message of the error for a comment that was not created.
pub open spec fn comment_failed(text: Seq<char>) -> Seq<char> {
    "Error creating issue comment: body="@ + text
}

/// Reads the answer to `create_issue_comment`: success with status 201 and
/// with no other; the error holds the body of the answer.
pub fn create_issue_comment_result(status: u16, text: &str) -> (done: Result<(), GitError>)
    ensures
        match done {
            Ok(_) => status == created(),
            Err(error) => status != created() && error@ == comment_failed(text@),
        },
{
    if status == 201 {
        Ok(())
    } else {
        Err(GitError::prefixed("Error creating issue comment: body=", text))
    }
}

} // verus!
