//! The downstream service's API: listing pipelines and running one again.

use crate::api::http::{header_views, is_success, Header, HttpRequest, HttpRequestView, Method};
use crate::api::models::gitlab::Pipeline;
use crate::config::{default_gitlab_host, host_or, Config};
use crate::encoding::{form_encode, form_encode_str};
use crate::errors::GitError;
use crate::text::{decimal, push_decimal};
use vstd::prelude::*;
use vstd::string::*;

verus! {

/// The headers of every request to the downstream API: the token.
pub open spec fn headers_spec(token: Seq<char>) -> Seq<(Seq<char>, Seq<char>)> {
    seq![("private-token"@, token)]
}

/// The headers of a request to the downstream API made with `token`.
pub fn headers(token: &str) -> (list: Vec<Header>)
    ensures
        header_views(list@) == headers_spec(token@),
{
    let mut list: Vec<Header> = Vec::new();
    list.push(Header { name: String::from_str("private-token"), value: String::from_str(token) });
    assert(header_views(list@) =~= headers_spec(token@));
    list
}

/// The API address of `project` on `host`; `encoded` is the form encoding
/// of the project's name.
pub open spec fn api_url(host: Seq<char>, encoded: Seq<char>) -> Seq<char> {
    "https://"@ + host + "/api/v4/projects/"@ + encoded
}

/// The API address of `project`, whose name is form-encoded so that it
/// stands as one path segment.
pub fn make_api_url(config: &Config, project: &str) -> (url: String)
    ensures
        url@ == api_url(
            host_or(config.gitlab, default_gitlab_host()),
            form_encode(project.spec_bytes()),
        ),
{
    let hostname = config.gitlab_hostname();
    let encoded = form_encode_str(project);
    let mut url = String::from_str("https://");
    url.append(hostname.as_str());
    url.append("/api/v4/projects/");
    url.append(encoded.as_str());
    url
}

/// The address at which people see `project` on `host`.
pub open spec fn ext_url(host: Seq<char>, project: Seq<char>) -> Seq<char> {
    "https://"@ + host + "/"@ + project
}

/// The address at which people see `project`.
pub fn make_ext_url(config: &Config, project: &str) -> (url: String)
    ensures
        url@ == ext_url(host_or(config.gitlab, default_gitlab_host()), project@),
{
    let hostname = config.gitlab_hostname();
    let mut url = String::from_str("https://");
    url.append(hostname.as_str());
    url.append("/");
    url.append(project);
    url
}

/// The request that lists the pipelines of a project, `per_page` to a page,
/// at page `page`; `api` is the project's API address.
pub open spec fn get_pipelines_spec(api: Seq<char>, token: Seq<char>, page: int, per_page: int) -> HttpRequestView {
    HttpRequestView {
        method: Method::Get,
        url: api + "/pipelines?page="@ + decimal(page) + "&per_page="@ + decimal(per_page),
        headers: headers_spec(token),
        body: None,
    }
}

/// The request that lists the pipelines of `project`, `per_page` to a page,
/// at page `page`.
pub fn get_pipelines(config: &Config, project: &str, page: i64, per_page: i64) -> (request:
    HttpRequest)
    ensures
        request@ == get_pipelines_spec(
            api_url(
                host_or(config.gitlab, default_gitlab_host()),
                form_encode(project.spec_bytes()),
            ),
            config.gitlab.api_token@,
            page as int,
            per_page as int,
        ),
{
    let mut url = make_api_url(config, project);
    url.append("/pipelines?page=");
    push_decimal(&mut url, page);
    url.append("&per_page=");
    push_decimal(&mut url, per_page);
    HttpRequest {
        method: Method::Get,
        url,
        headers: headers(config.gitlab.api_token.as_str()),
        body: None,
    }
}

/// The request that runs a pipeline again; `api` is the project's API
/// address.
pub open spec fn retry_pipeline_spec(api: Seq<char>, token: Seq<char>, pipeline_id: int) -> HttpRequestView {
    HttpRequestView {
        method: Method::Post,
        url: api + "/pipelines/"@ + decimal(pipeline_id) + "/retry"@,
        headers: headers_spec(token),
        body: None,
    }
}

/// The request that runs the pipeline `pipeline_id` of `project` again.
pub fn retry_pipeline(config: &Config, project: &str, pipeline_id: i64) -> (request: HttpRequest)
    ensures
        request@ == retry_pipeline_spec(
            api_url(
                host_or(config.gitlab, default_gitlab_host()),
                form_encode(project.spec_bytes()),
            ),
            config.gitlab.api_token@,
            pipeline_id as int,
        ),
{
    let mut url = make_api_url(config, project);
    url.append("/pipelines/");
    push_decimal(&mut url, pipeline_id);
    url.append("/retry");
    HttpRequest {
        method: Method::Post,
        url,
        headers: headers(config.gitlab.api_token.as_str()),
        body: None,
    }
}

/// The message of the error for a request that the downstream API refused.
pub open spec fn lab_failed(text: Seq<char>) -> Seq<char> {
    "lab request failed: body="@ + text
}

/// Reads the answer to `get_pipelines`: the records, provided that the
/// status reports success and the body could be decoded; else an error that
/// holds the body.
pub fn get_pipelines_result(status: u16, decoded: Option<Vec<Pipeline>>, text: &str) -> (read:
    Result<Vec<Pipeline>, GitError>)
    ensures
        match read {
            Ok(records) => is_success(status) && decoded == Some(records),
            Err(error) => !(is_success(status) && decoded is Some) && error@ == lab_failed(text@),
        },
{
    if 200 <= status && status <= 299 {
        match decoded {
            Some(records) => {
                return Ok(records);
            },
            None => {},
        }
    }
    Err(GitError::prefixed("lab request failed: body=", text))
}

/// Reads the answer to `retry_pipeline`: success with a status that reports
/// success; else an error that holds the body.
pub fn retry_pipeline_result(status: u16, text: &str) -> (done: Result<(), GitError>)
    ensures
        match done {
            Ok(_) => is_success(status),
            Err(error) => !is_success(status) && error@ == lab_failed(text@),
        },
{
    if 200 <= status && status <= 299 {
        Ok(())
    } else {
        Err(GitError::prefixed("lab request failed: body=", text))
    }
}

} // verus!
