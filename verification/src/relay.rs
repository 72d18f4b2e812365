//! The command relay: from a comment on a pull request to a pipeline run
//! again on the downstream service, and a comment that says so.
//!
//! The relay sends nothing itself. It is a state: it names the request that
//! is due, and moves on when it is handed the answer.

use crate::api::github_client::{create_issue_comment, create_issue_comment_spec, get_pull, get_pull_spec};
use crate::api::gitlab_client::{
    api_url,
    ext_url,
    get_pipelines,
    get_pipelines_spec,
    make_ext_url,
    retry_pipeline,
    retry_pipeline_spec,
};
use crate::api::http::{HttpRequest, HttpRequestView};
use crate::api::models::github::{IssueComment, PullRequestPullRequest};
use crate::api::models::gitlab::{pipeline_views, Pipeline, PipelineView};
use crate::commands::{parse, parse_body, CommandAction, CommandError};
use crate::config::{
    command_enabled,
    default_github_host,
    default_gitlab_host,
    host_or,
    lab_name,
    Config,
};
use crate::encoding::form_encode;
use crate::errors::{outcome_view, GitError};
use crate::text::{decimal, push_decimal, split, split_on, str_eq, views};
use vstd::prelude::*;
use vstd::string::*;
use vstd::utf8::encode_utf8;

verus! {

/// A request that the relay needs sent.
#[derive(Debug, Clone, PartialEq, Eq)]
pub enum RelayRequest {
    /// Read a pull request from the upstream service.
    GetPull { org: String, repo: String, number: i64 },
    /// List one page of a project's pipelines on the downstream service.
    GetPipelines { project: String, page: i64, per_page: i64 },
    /// Run a pipeline again on the downstream service.
    RetryPipeline { project: String, pipeline_id: i64 },
    /// Write a comment on the upstream service.
    CreateIssueComment { org: String, repo: String, number: i64, body: String },
}

/// What a request of the relay says.
pub enum RelayRequestView {
    GetPull { org: Seq<char>, repo: Seq<char>, number: int },
    GetPipelines { project: Seq<char>, page: int, per_page: int },
    RetryPipeline { project: Seq<char>, pipeline_id: int },
    CreateIssueComment { org: Seq<char>, repo: Seq<char>, number: int, body: Seq<char> },
}

impl View for RelayRequest {
    type V = RelayRequestView;

    open spec fn view(&self) -> RelayRequestView {
        match self {
            RelayRequest::GetPull { org, repo, number } => RelayRequestView::GetPull {
                org: org@,
                repo: repo@,
                number: *number as int,
            },
            RelayRequest::GetPipelines { project, page, per_page } => RelayRequestView::GetPipelines {
                project: project@,
                page: *page as int,
                per_page: *per_page as int,
            },
            RelayRequest::RetryPipeline { project, pipeline_id } => RelayRequestView::RetryPipeline {
                project: project@,
                pipeline_id: *pipeline_id as int,
            },
            RelayRequest::CreateIssueComment {
                org,
                repo,
                number,
                body,
            } => RelayRequestView::CreateIssueComment {
                org: org@,
                repo: repo@,
                number: *number as int,
                body: body@,
            },
        }
    }
}

/// The answer to a request of the relay.
#[derive(Debug, PartialEq, Eq)]
pub enum RelayResponse {
    Pull(Result<PullRequestPullRequest, GitError>),
    Pipelines(Result<Vec<Pipeline>, GitError>),
    Retried(Result<(), GitError>),
    Commented(Result<(), GitError>),
}

/// What an answer says: of a pull request its head commit, of an error its
/// message.
pub enum RelayResponseView {
    Pull(Result<Seq<char>, Seq<char>>),
    Pipelines(Result<Seq<PipelineView>, Seq<char>>),
    Retried(Result<(), Seq<char>>),
    Commented(Result<(), Seq<char>>),
}

impl View for RelayResponse {
    type V = RelayResponseView;

    open spec fn view(&self) -> RelayResponseView {
        match self {
            RelayResponse::Pull(Ok(pull)) => RelayResponseView::Pull(Ok(pull.head.sha@)),
            RelayResponse::Pull(Err(error)) => RelayResponseView::Pull(Err(error@)),
            RelayResponse::Pipelines(Ok(records)) => RelayResponseView::Pipelines(
                Ok(pipeline_views(records@)),
            ),
            RelayResponse::Pipelines(Err(error)) => RelayResponseView::Pipelines(Err(error@)),
            RelayResponse::Retried(done) => RelayResponseView::Retried(outcome_view(*done)),
            RelayResponse::Commented(done) => RelayResponseView::Commented(outcome_view(*done)),
        }
    }
}

/// How far a relay has come.
#[derive(Debug, PartialEq, Eq)]
pub enum Stage {
    /// The comment held an unknown command; the reply that says so is due.
    Apologise,
    /// The pull request's head commit is being asked for.
    ResolveSha,
    /// The pipeline of commit `sha` is being looked for, at page `page`.
    FindPipeline { sha: String, page: i64 },
    /// The pipeline `pipeline_id` is being run again.
    Retry { pipeline_id: i64 },
    /// The comment that confirms the new run is due.
    Confirm { pipeline_id: i64 },
    /// Nothing is left to do.
    Finished(Result<(), GitError>),
}

/// What a stage says.
pub enum StageView {
    Apologise,
    ResolveSha,
    FindPipeline { sha: Seq<char>, page: int },
    Retry { pipeline_id: int },
    Confirm { pipeline_id: int },
    Finished(Result<(), Seq<char>>),
}

impl View for Stage {
    type V = StageView;

    open spec fn view(&self) -> StageView {
        match self {
            Stage::Apologise => StageView::Apologise,
            Stage::ResolveSha => StageView::ResolveSha,
            Stage::FindPipeline { sha, page } => StageView::FindPipeline {
                sha: sha@,
                page: *page as int,
            },
            Stage::Retry { pipeline_id } => StageView::Retry { pipeline_id: *pipeline_id as int },
            Stage::Confirm { pipeline_id } => StageView::Confirm { pipeline_id: *pipeline_id as int },
            Stage::Finished(done) => StageView::Finished(outcome_view(*done)),
        }
    }
}

/// The relay of one comment.
#[derive(Debug, PartialEq, Eq)]
pub struct Relay {
    /// Owner of the upstream repository.
    pub org: String,
    /// Name of the upstream repository, without its owner.
    pub repo: String,
    /// Number of the pull request that the comment was written on.
    pub number: i64,
    /// Name of the project on the downstream service.
    pub project: String,
    pub stage: Stage,
}

/// What a relay says.
pub struct RelayView {
    pub org: Seq<char>,
    pub repo: Seq<char>,
    pub number: int,
    pub project: Seq<char>,
    pub stage: StageView,
}

impl View for Relay {
    type V = RelayView;

    open spec fn view(&self) -> RelayView {
        RelayView {
            org: self.org@,
            repo: self.repo@,
            number: self.number as int,
            project: self.project@,
            stage: self.stage@,
        }
    }
}

/// The number of pipeline records asked for in one page.
pub open spec fn per_page() -> int {
    100
}

/// The reply to a command that the bot does not know.
pub open spec fn unknown_command_reply() -> Seq<char> {
    "Sorry, but I don't know what that command means.\n\nThanks for asking 🥰"@
}

/// The comment that confirms that pipeline `pipeline_id` runs again; `ext`
/// is the address at which people see the project.
pub open spec fn retry_reply(pipeline_id: int, ext: Seq<char>) -> Seq<char> {
    "Sent **retry** command for pipeline [**"@ + decimal(pipeline_id) + "**]("@ + ext
        + "/pipelines/"@ + decimal(pipeline_id) + ") on [**GitLab**]("@ + ext
        + ")\n\nHave a great day! 😄"@
}

/// The message of the error for a repository name that is not `org/repo`.
pub open spec fn invalid_repo_name(full_name: Seq<char>) -> Seq<char> {
    "Invalid repo name "@ + full_name
}

/// The message of the error for a commit without pipeline.
pub open spec fn pipeline_not_found(project: Seq<char>, sha: Seq<char>) -> Seq<char> {
    "Unable to find pipeline for project="@ + project + " sha="@ + sha
}

/// The message of the error for an answer that does not fit the request.
pub open spec fn unexpected_response() -> Seq<char> {
    "Unexpected response"@
}

/// The message of the error for a comment that addresses someone else.
pub open spec fn bad_username() -> Seq<char> {
    "Bad username for command"@
}

/// The message of the error for a command with too many words.
pub open spec fn too_many_parameters() -> Seq<char> {
    "Too many parameters for command"@
}

/// The message of the error for a comment without a verb.
pub open spec fn invalid_format() -> Seq<char> {
    "Invalid format for command"@
}

/// A relay with nothing to do, which ended with `done`.
pub open spec fn idle(done: Result<(), Seq<char>>) -> RelayView {
    RelayView {
        org: Seq::empty(),
        repo: Seq::empty(),
        number: 0,
        project: Seq::empty(),
        stage: StageView::Finished(done),
    }
}

/// The relay for the comment `ic` at `stage`: the repository's name is split
/// at `/` into owner and name, and must have these two parts and no more;
/// the project is the name that `names` gives for the repository.
pub open spec fn relay_at(names: Map<Seq<char>, Seq<char>>, ic: IssueComment, stage: StageView) -> RelayView {
    let parts = split(ic.repository.full_name@, '/');
    if parts.len() != 2 {
        idle(Err(invalid_repo_name(ic.repository.full_name@)))
    } else {
        RelayView {
            org: parts[0],
            repo: parts[1],
            number: ic.issue.number as int,
            project: lab_name(names, ic.repository.full_name@),
            stage,
        }
    }
}

/// The relay for a comment on a pull request.
///
/// An unknown command is answered with a reply. A comment that does not
/// address the bot, or does so in the wrong form, ends the relay with an
/// error. A command that is switched off ends it without one. `retry`
/// begins with the pull request's head commit.
pub open spec fn pr_relay_start(config: Config, ic: IssueComment) -> RelayView {
    match parse(ic.comment.body@, config.github.username@) {
        Err(CommandError::UnknownCommand) => relay_at(config.hub_to_lab@, ic, StageView::Apologise),
        Err(CommandError::BadUsername) => idle(Err(bad_username())),
        Err(CommandError::InvalidLength) => idle(Err(too_many_parameters())),
        Err(CommandError::InvalidFormat) => idle(Err(invalid_format())),
        Ok(command) => if !config.enabled_commands@.contains(command.command) {
            idle(Ok(()))
        } else {
            match command.command {
                CommandAction::Retry => relay_at(config.hub_to_lab@, ic, StageView::ResolveSha),
            }
        },
    }
}

/// The relay for a comment: nothing to do unless it was written on a pull
/// request.
pub open spec fn relay_start(config: Config, ic: IssueComment) -> RelayView {
    if ic.issue.pull_request is Some {
        pr_relay_start(config, ic)
    } else {
        idle(Ok(()))
    }
}

/// Whether a pipeline record stands for the commit `sha`: it names that
/// commit and has an id.
pub open spec fn is_pipeline_of(record: PipelineView, sha: Seq<char>) -> bool {
    record.sha == Some(sha) && record.id is Some
}

/// The id of the first record in `records` that stands for the commit `sha`.
pub open spec fn first_pipeline(records: Seq<PipelineView>, sha: Seq<char>) -> Option<i64>
    decreases records.len(),
{
    if records.len() == 0 {
        None
    } else if is_pipeline_of(records[0], sha) {
        records[0].id
    } else {
        first_pipeline(records.drop_first(), sha)
    }
}

/// The relay `relay` ended with `done`.
pub open spec fn finish(relay: RelayView, done: Result<(), Seq<char>>) -> RelayView {
    RelayView { stage: StageView::Finished(done), ..relay }
}

/// The relay `relay` at the stage `stage`.
pub open spec fn advance(relay: RelayView, stage: StageView) -> RelayView {
    RelayView { stage, ..relay }
}

/// Where the search for a pipeline goes after a page of `records`: to the
/// new run of the first record that stands for the commit; without such a
/// record, to the next page if this one was full, else to the error that
/// says that no pipeline was found.
pub open spec fn after_page(relay: RelayView, sha: Seq<char>, page: int, records: Seq<PipelineView>) -> RelayView {
    match first_pipeline(records, sha) {
        Some(id) => advance(relay, StageView::Retry { pipeline_id: id as int }),
        None => if records.len() == per_page() && page < i64::MAX {
            advance(relay, StageView::FindPipeline { sha, page: page + 1 })
        } else {
            finish(relay, Err(pipeline_not_found(relay.project, sha)))
        },
    }
}

/// The relay after the answer `response` to its pending request.
///
/// An error ends the relay with that error, at any stage. The head commit
/// starts the search for its pipeline at page 1. The answer to a comment
/// ends the relay. An answer that does not fit the pending request ends it
/// with an error. A relay that has ended stays as it is.
pub open spec fn step_spec(relay: RelayView, response: RelayResponseView) -> RelayView {
    match (relay.stage, response) {
        (StageView::Finished(_), _) => relay,
        (StageView::Apologise, RelayResponseView::Commented(done)) => finish(relay, done),
        (StageView::ResolveSha, RelayResponseView::Pull(Ok(sha))) => advance(
            relay,
            StageView::FindPipeline { sha, page: 1 },
        ),
        (StageView::ResolveSha, RelayResponseView::Pull(Err(message))) => finish(
            relay,
            Err(message),
        ),
        (
            StageView::FindPipeline { sha, page },
            RelayResponseView::Pipelines(Ok(records)),
        ) => after_page(relay, sha, page, records),
        (StageView::FindPipeline { .. }, RelayResponseView::Pipelines(Err(message))) => finish(
            relay,
            Err(message),
        ),
        (StageView::Retry { pipeline_id }, RelayResponseView::Retried(Ok(_))) => advance(
            relay,
            StageView::Confirm { pipeline_id },
        ),
        (StageView::Retry { .. }, RelayResponseView::Retried(Err(message))) => finish(
            relay,
            Err(message),
        ),
        (StageView::Confirm { .. }, RelayResponseView::Commented(done)) => finish(relay, done),
        _ => finish(relay, Err(unexpected_response())),
    }
}

/// The request that is due for `relay`, if any; `gitlab_host` is the host of
/// the downstream service.
pub open spec fn pending_spec(relay: RelayView, gitlab_host: Seq<char>) -> Option<RelayRequestView> {
    match relay.stage {
        StageView::Apologise => Some(
            RelayRequestView::CreateIssueComment {
                org: relay.org,
                repo: relay.repo,
                number: relay.number,
                body: unknown_command_reply(),
            },
        ),
        StageView::ResolveSha => Some(
            RelayRequestView::GetPull { org: relay.org, repo: relay.repo, number: relay.number },
        ),
        StageView::FindPipeline { sha, page } => Some(
            RelayRequestView::GetPipelines { project: relay.project, page, per_page: per_page() },
        ),
        StageView::Retry { pipeline_id } => Some(
            RelayRequestView::RetryPipeline { project: relay.project, pipeline_id },
        ),
        StageView::Confirm { pipeline_id } => Some(
            RelayRequestView::CreateIssueComment {
                org: relay.org,
                repo: relay.repo,
                number: relay.number,
                body: retry_reply(pipeline_id, ext_url(gitlab_host, relay.project)),
            },
        ),
        StageView::Finished(_) => None,
    }
}

/// A relay with nothing to do, which ended with `done`.
fn idle_relay(done: Result<(), GitError>) -> (relay: Relay)
    ensures
        relay@ == idle(outcome_view(done)),
{
    Relay {
        org: String::new(),
        repo: String::new(),
        number: 0,
        project: String::new(),
        stage: Stage::Finished(done),
    }
}

/// The relay for the comment `ic` at `stage`, or the ended relay that says
/// that the repository's name is not `org/repo`.
fn relay_for(config: &Config, ic: &IssueComment, stage: Stage) -> (relay: Relay)
    ensures
        relay@ == relay_at(config.hub_to_lab@, *ic, stage@),
{
    let parts = split_on(ic.repository.full_name.as_str(), '/');
    if parts.len() != 2 {
        return idle_relay(
            Err(GitError::prefixed("Invalid repo name ", ic.repository.full_name.as_str())),
        );
    }
    assert(views(parts@)[0] == parts[0]@);
    assert(views(parts@)[1] == parts[1]@);
    Relay {
        org: parts[0].clone(),
        repo: parts[1].clone(),
        number: ic.issue.number,
        project: config.hub_to_lab.lookup(ic.repository.full_name.as_str()),
        stage,
    }
}

/// The relay that replies to the comment `ic` that its command is unknown.
pub fn write_issue_comment(config: &Config, ic: &IssueComment) -> (relay: Relay)
    ensures
        relay@ == relay_at(config.hub_to_lab@, *ic, StageView::Apologise),
{
    relay_for(config, ic, Stage::Apologise)
}

/// The relay that begins, for the comment `ic`, with the head commit of the
/// pull request.
pub fn get_sha(config: &Config, ic: &IssueComment) -> (relay: Relay)
    ensures
        relay@ == relay_at(config.hub_to_lab@, *ic, StageView::ResolveSha),
{
    relay_for(config, ic, Stage::ResolveSha)
}

/// The relay of the command `retry` in the comment `ic`.
pub fn handle_retry_command(config: &Config, ic: &IssueComment) -> (relay: Relay)
    ensures
        relay@ == relay_at(config.hub_to_lab@, *ic, StageView::ResolveSha),
{
    get_sha(config, ic)
}

/// The relay for the comment `ic`, written on a pull request.
pub fn handle_pr_ic(config: &Config, ic: &IssueComment) -> (relay: Relay)
    ensures
        relay@ == pr_relay_start(*config, *ic),
{
    match parse_body(ic.comment.body.as_str(), config.github.username.as_str()) {
        Err(CommandError::UnknownCommand) => write_issue_comment(config, ic),
        Ok(command) => {
            if !command_enabled(config, &command.command) {
                idle_relay(Ok(()))
            } else {
                match command.command {
                    CommandAction::Retry => handle_retry_command(config, ic),
                }
            }
        },
        Err(CommandError::BadUsername) => idle_relay(
            Err(GitError::with_message("Bad username for command")),
        ),
        Err(CommandError::InvalidLength) => idle_relay(
            Err(GitError::with_message("Too many parameters for command")),
        ),
        Err(CommandError::InvalidFormat) => idle_relay(
            Err(GitError::with_message("Invalid format for command")),
        ),
    }
}

/// The relay for the comment `ic`.
pub fn handle_ic(config: &Config, ic: &IssueComment) -> (relay: Relay)
    ensures
        relay@ == relay_start(*config, *ic),
{
    if ic.is_from_pr() {
        handle_pr_ic(config, ic)
    } else {
        idle_relay(Ok(()))
    }
}

/// The id of the first of `records` that names the commit `sha` and has an
/// id.
pub fn find_pipeline_id(records: &Vec<Pipeline>, sha: &str) -> (found: Option<i64>)
    ensures
        found == first_pipeline(pipeline_views(records@), sha@),
{
    let ghost all = pipeline_views(records@);
    let mut i: usize = 0;
    assert(all.skip(0) =~= all);
    while i < records.len()
        invariant
            i <= records.len(),
            all == pipeline_views(records@),
            first_pipeline(all, sha@) == first_pipeline(all.skip(i as int), sha@),
        decreases records.len() - i,
    {
        let ghost rest = all.skip(i as int);
        assert(rest[0] == records[i as int]@);
        assert(rest.drop_first() =~= all.skip(i + 1));
        let record = &records[i];
        match (&record.sha, record.id) {
            (Some(commit), Some(id)) => {
                if str_eq(commit.as_str(), sha) {
                    return Some(id);
                }
            },
            _ => {},
        }
        i += 1;
    }
    None
}

impl Relay {
    /// Whether nothing is left to do.
    pub fn is_finished(&self) -> (finished: bool)
        ensures
            finished == (self@.stage is Finished),
    {
        match &self.stage {
            Stage::Finished(_) => true,
            _ => false,
        }
    }

    /// How the relay ended, once it has.
    pub fn outcome(&self) -> (done: Option<Result<(), GitError>>)
        ensures
            match done {
                Some(result) => self@.stage == StageView::Finished(outcome_view(result)),
                None => !(self@.stage is Finished),
            },
    {
        match &self.stage {
            Stage::Finished(Ok(())) => Some(Ok(())),
            Stage::Finished(Err(error)) => Some(Err(error.duplicate())),
            _ => None,
        }
    }

    /// The request that is due, if any.
    pub fn pending(&self, config: &Config) -> (request: Option<RelayRequest>)
        ensures
            match request {
                Some(due) => pending_spec(self@, host_or(config.gitlab, default_gitlab_host()))
                    == Some(due@),
                None => pending_spec(self@, host_or(config.gitlab, default_gitlab_host())) is None,
            },
    {
        match &self.stage {
            Stage::Apologise => Some(
                RelayRequest::CreateIssueComment {
                    org: self.org.clone(),
                    repo: self.repo.clone(),
                    number: self.number,
                    body: String::from_str(
                        "Sorry, but I don't know what that command means.\n\nThanks for asking 🥰",
                    ),
                },
            ),
            Stage::ResolveSha => Some(
                RelayRequest::GetPull {
                    org: self.org.clone(),
                    repo: self.repo.clone(),
                    number: self.number,
                },
            ),
            Stage::FindPipeline { sha, page } => Some(
                RelayRequest::GetPipelines {
                    project: self.project.clone(),
                    page: *page,
                    per_page: 100,
                },
            ),
            Stage::Retry { pipeline_id } => Some(
                RelayRequest::RetryPipeline {
                    project: self.project.clone(),
                    pipeline_id: *pipeline_id,
                },
            ),
            Stage::Confirm { pipeline_id } => {
                let ext = make_ext_url(config, self.project.as_str());
                let mut body = String::from_str("Sent **retry** command for pipeline [**");
                push_decimal(&mut body, *pipeline_id);
                body.append("**](");
                body.append(ext.as_str());
                body.append("/pipelines/");
                push_decimal(&mut body, *pipeline_id);
                body.append(") on [**GitLab**](");
                body.append(ext.as_str());
                body.append(")\n\nHave a great day! 😄");
                Some(
                    RelayRequest::CreateIssueComment {
                        org: self.org.clone(),
                        repo: self.repo.clone(),
                        number: self.number,
                        body,
                    },
                )
            },
            Stage::Finished(_) => None,
        }
    }

    /// The relay after the answer `response` to its pending request.
    pub fn step(self, response: RelayResponse) -> (next: Relay)
        ensures
            next@ == step_spec(self@, response@),
    {
        let Relay { org, repo, number, project, stage } = self;
        let stage = match (stage, response) {
            (Stage::Finished(done), _) => Stage::Finished(done),
            (Stage::Apologise, RelayResponse::Commented(done)) => Stage::Finished(done),
            (Stage::ResolveSha, RelayResponse::Pull(Ok(pull))) => Stage::FindPipeline {
                sha: pull.head.sha,
                page: 1,
            },
            (Stage::ResolveSha, RelayResponse::Pull(Err(error))) => Stage::Finished(Err(error)),
            (Stage::FindPipeline { sha, page }, RelayResponse::Pipelines(Ok(records))) => {
                match find_pipeline_id(&records, sha.as_str()) {
                    Some(pipeline_id) => Stage::Retry { pipeline_id },
                    None => {
                        if records.len() == 100 && page < i64::MAX {
                            Stage::FindPipeline { sha, page: page + 1 }
                        } else {
                            let mut message = String::from_str(
                                "Unable to find pipeline for project=",
                            );
                            message.append(project.as_str());
                            message.append(" sha=");
                            message.append(sha.as_str());
                            Stage::Finished(Err(GitError { message }))
                        }
                    },
                }
            },
            (Stage::FindPipeline { .. }, RelayResponse::Pipelines(Err(error))) => Stage::Finished(
                Err(error),
            ),
            (Stage::Retry { pipeline_id }, RelayResponse::Retried(Ok(()))) => Stage::Confirm {
                pipeline_id,
            },
            (Stage::Retry { .. }, RelayResponse::Retried(Err(error))) => Stage::Finished(
                Err(error),
            ),
            (Stage::Confirm { .. }, RelayResponse::Commented(done)) => Stage::Finished(done),
            _ => Stage::Finished(Err(GitError::with_message("Unexpected response"))),
        };
        Relay { org, repo, number, project, stage }
    }
}

/// The HTTP request that carries out `request`.
pub open spec fn http_spec(config: Config, request: RelayRequestView) -> HttpRequestView {
    let hub = host_or(config.github, default_github_host());
    let lab = host_or(config.gitlab, default_gitlab_host());
    match request {
        RelayRequestView::GetPull { org, repo, number } => get_pull_spec(
            hub,
            config.github.api_token@,
            org,
            repo,
            number,
        ),
        RelayRequestView::CreateIssueComment {
            org,
            repo,
            number,
            body,
        } => create_issue_comment_spec(hub, config.github.api_token@, org, repo, number, body),
        RelayRequestView::GetPipelines { project, page, per_page } => get_pipelines_spec(
            api_url(lab, form_encode(encode_utf8(project))),
            config.gitlab.api_token@,
            page,
            per_page,
        ),
        RelayRequestView::RetryPipeline { project, pipeline_id } => retry_pipeline_spec(
            api_url(lab, form_encode(encode_utf8(project))),
            config.gitlab.api_token@,
            pipeline_id,
        ),
    }
}

/// The HTTP request that carries out `request`: its method, address,
/// headers and body.
pub fn to_http(config: &Config, request: &RelayRequest) -> (http: HttpRequest)
    ensures
        http@ == http_spec(*config, request@),
{
    match request {
        RelayRequest::GetPull { org, repo, number } => get_pull(
            config,
            org.as_str(),
            repo.as_str(),
            *number,
        ),
        RelayRequest::CreateIssueComment { org, repo, number, body } => create_issue_comment(
            config,
            org.as_str(),
            repo.as_str(),
            *number,
            body.as_str(),
        ),
        RelayRequest::GetPipelines { project, page, per_page } => get_pipelines(
            config,
            project.as_str(),
            *page,
            *per_page,
        ),
        RelayRequest::RetryPipeline { project, pipeline_id } => retry_pipeline(
            config,
            project.as_str(),
            *pipeline_id,
        ),
    }
}

} // verus!
