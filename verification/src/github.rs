//! Handling of the upstream service's events: mirroring of pull requests
//! that come from forks, and the routing of deliveries by their kind.

use crate::api::models::github::{IssueComment, PullRequest, Push};
use crate::cache::RepoCache;
use crate::config::{action_enabled, feature_enabled, lab_name, Config, Feature, NameMap};
use crate::errors::{error_body, ErrorAnswer, GitError, RequestErrorResult};
use crate::handle::{handle_of, PrHandle, PrHandleView};
use crate::relay::{handle_ic, relay_start, Relay};
use crate::text::{str_eq, views};
use crate::worker::{GitCall, GitOp, GitWorker, RepositoryExt};
use vstd::prelude::*;
use vstd::string::*;

verus! {

/// The downstream name of the upstream repository `github_repo_full_name`:
/// the name that `hub_to_lab` maps it to where there is one, else the same
/// name.
pub fn get_gitlab_repo_name(hub_to_lab: &NameMap, github_repo_full_name: &str) -> (name: String)
    ensures
        name@ == lab_name(hub_to_lab@, github_repo_full_name@),
{
    hub_to_lab.lookup(github_repo_full_name)
}

/// The operations that mirror a pull request, in order.
pub open spec fn update_ops() -> Seq<GitOp> {
    seq![GitOp::AddRemotes, GitOp::FetchGithubRemote, GitOp::CreateRefForPr, GitOp::PushPrRef]
}

/// The operations that remove the mirror of a closed pull request, in order.
pub open spec fn close_ops() -> Seq<GitOp> {
    seq![GitOp::AddRemotes, GitOp::DeletePrRef]
}

/// The answer after a pull request was mirrored.
pub open spec fn updated_reply() -> Seq<char> {
    ":)"@
}

/// The answer after a mirror was removed.
pub open spec fn closed_reply() -> Seq<char> {
    "deleted :D"@
}

/// What a flow's result says: the answer, or the message of the error.
pub open spec fn reply_view(reply: Result<String, GitError>) -> Result<Seq<char>, Seq<char>> {
    match reply {
        Ok(text) => Ok(text@),
        Err(error) => Err(error@),
    }
}

/// Whether a repository whose account of operations went from `before` to
/// `after` was asked for the operations `ops` on `handle`, in order, up to
/// the first that failed, and `outcome` reports how that went: `success`
/// when all of `ops` succeeded, else the error of the one that failed.
pub open spec fn is_run(
    ops: Seq<GitOp>,
    handle: PrHandleView,
    before: Seq<GitCall>,
    after: Seq<GitCall>,
    outcome: Result<Seq<char>, Seq<char>>,
    success: Seq<char>,
) -> bool {
    let issued = after.skip(before.len() as int);
    &&& before.len() < after.len() <= before.len() + ops.len()
    &&& after.take(before.len() as int) == before
    &&& forall|i: int|
        0 <= i < issued.len() ==> (#[trigger] issued[i]).op == ops[i] && issued[i].handle == handle
    &&& forall|i: int| 0 <= i < issued.len() - 1 ==> (#[trigger] issued[i]).outcome is Ok
    &&& match issued.last().outcome {
        Ok(_) => issued.len() == ops.len() && outcome == Ok::<Seq<char>, Seq<char>>(success),
        Err(message) => outcome == Err::<Seq<char>, Seq<char>>(message),
    }
}

/// Removes the mirror of the closed pull request `pr` with the working
/// repository `repo`: sets up the remotes, then deletes the mirror branch.
/// Stops at the first operation that fails, with its error.
pub fn handle_pr_closed_with_repo<R: RepositoryExt>(repo: &mut GitWorker<R>, pr: &PullRequest) -> (reply:
    Result<String, GitError>)
    ensures
        is_run(
            close_ops(),
            handle_of(*pr),
            old(repo).calls(),
            final(repo).calls(),
            reply_view(reply),
            closed_reply(),
        ),
{
    let pr_handle = PrHandle::new(pr);
    let ghost before = repo.calls();
    match repo.add_remotes(&pr_handle) {
        Ok(()) => {},
        Err(error) => {
            assert(repo.calls().take(before.len() as int) =~= before);
            return Err(error);
        },
    }
    match repo.delete_pr_ref(&pr_handle) {
        Ok(()) => {},
        Err(error) => {
            assert(repo.calls().take(before.len() as int) =~= before);
            return Err(error);
        },
    }
    assert(repo.calls().take(before.len() as int) =~= before);
    Ok(String::from_str("deleted :D"))
}

/// Mirrors the pull request `pr` with the working repository `repo`: sets up
/// the remotes, fetches the fork's branch, points the mirror branch at it
/// and pushes the mirror branch. Stops at the first operation that fails,
/// with its error.
pub fn handle_pr_updated_with_repo<R: RepositoryExt>(repo: &mut GitWorker<R>, pr: &PullRequest) -> (reply:
    Result<String, GitError>)
    ensures
        is_run(
            update_ops(),
            handle_of(*pr),
            old(repo).calls(),
            final(repo).calls(),
            reply_view(reply),
            updated_reply(),
        ),
{
    let pr_handle = PrHandle::new(pr);
    let ghost before = repo.calls();
    match repo.add_remotes(&pr_handle) {
        Ok(()) => {},
        Err(error) => {
            assert(repo.calls().take(before.len() as int) =~= before);
            return Err(error);
        },
    }
    match repo.fetch_github_remote(&pr_handle) {
        Ok(()) => {},
        Err(error) => {
            assert(repo.calls().take(before.len() as int) =~= before);
            return Err(error);
        },
    }
    match repo.create_ref_for_pr(&pr_handle) {
        Ok(()) => {},
        Err(error) => {
            assert(repo.calls().take(before.len() as int) =~= before);
            return Err(error);
        },
    }
    match repo.push_pr_ref(&pr_handle) {
        Ok(()) => {},
        Err(error) => {
            assert(repo.calls().take(before.len() as int) =~= before);
            return Err(error);
        },
    }
    assert(repo.calls().take(before.len() as int) =~= before);
    Ok(String::from_str(":)"))
}

/// Whether the store went from `before` to `after`, and ended with
/// `outcome`, by carrying out the operations `ops` for `handle` on the
/// working repository of `url`.
///
/// Where the store has an entry for `url`, that entry's repository was asked
/// for the operations and nothing else changed. Where it has none, `clone`
/// was called on `url`: either it failed, its error is the outcome and
/// nothing changed; or what it handed back became the last entry and was
/// asked for the operations.
pub open spec fn is_mirrored<R: RepositoryExt, F: FnOnce(&String) -> Result<GitWorker<R>, GitError>>(
    ops: Seq<GitOp>,
    success: Seq<char>,
    before: RepoCache<GitWorker<R>>,
    after: RepoCache<GitWorker<R>>,
    clone: F,
    url: &String,
    handle: PrHandleView,
    outcome: Result<Seq<char>, Seq<char>>,
) -> bool {
    if before.keys().contains(url@) {
        &&& after.keys() == before.keys()
        &&& after.repos().len() == before.repos().len()
        &&& forall|i: int|
            0 <= i < before.keys().len() ==> if before.keys()[i] == url@ {
                is_run(
                    ops,
                    handle,
                    (#[trigger] before.repos()[i]).calls(),
                    after.repos()[i].calls(),
                    outcome,
                    success,
                )
            } else {
                after.repos()[i] == before.repos()[i]
            }
    } else {
        ||| exists|error: GitError|
            {
                &&& #[trigger] call_ensures(clone, (url,), Err::<GitWorker<R>, GitError>(error))
                &&& outcome == Err::<Seq<char>, Seq<char>>(error@)
                &&& after.keys() == before.keys()
                &&& after.repos() == before.repos()
            }
        ||| exists|fresh: GitWorker<R>|
            {
                &&& #[trigger] call_ensures(clone, (url,), Ok::<GitWorker<R>, GitError>(fresh))
                &&& after.keys() == before.keys().push(url@)
                &&& after.repos().len() == before.repos().len() + 1
                &&& after.repos().take(before.repos().len() as int) == before.repos()
                &&& is_run(ops, handle, fresh.calls(), after.repos().last().calls(), outcome, success)
            }
    }
}

/// Removes the mirror of the closed pull request `pr`, with the working
/// repository of the event's repository, which `clone` makes on first use.
pub fn handle_pr_closed<R, F>(repos: &mut RepoCache<GitWorker<R>>, clone: F, pr: &PullRequest) -> (reply:
    Result<String, GitError>) where R: RepositoryExt, F: FnOnce(&String) -> Result<GitWorker<R>, GitError>
    requires
        old(repos).wf(),
        call_requires(clone, (&pr.repository.ssh_url,)),
    ensures
        final(repos).wf(),
        is_mirrored(
            close_ops(),
            closed_reply(),
            *old(repos),
            *final(repos),
            clone,
            &pr.repository.ssh_url,
            handle_of(*pr),
            reply_view(reply),
        ),
{
    let url = &pr.repository.ssh_url;
    let place = match repos.get_or_clone(url, clone) {
        Ok(place) => place,
        Err(error) => {
            return Err(error);
        },
    };
    let ghost cloned = repos.repos();
    let repo = repos.repo_mut(place);
    let reply = handle_pr_closed_with_repo(repo, pr);
    proof {
        if old(repos).keys().contains(url@) {
        } else {
            assert(repos.repos().take(old(repos).repos().len() as int) =~= old(repos).repos());
            assert(call_ensures(clone, (url,), Ok::<GitWorker<R>, GitError>(cloned[place as int])));
        }
    }
    reply
}

/// Mirrors the pull request `pr`, with the working repository of the
/// event's repository, which `clone` makes on first use.
pub fn handle_pr_updated<R, F>(repos: &mut RepoCache<GitWorker<R>>, clone: F, pr: &PullRequest) -> (reply:
    Result<String, GitError>) where R: RepositoryExt, F: FnOnce(&String) -> Result<GitWorker<R>, GitError>
    requires
        old(repos).wf(),
        call_requires(clone, (&pr.repository.ssh_url,)),
    ensures
        final(repos).wf(),
        is_mirrored(
            update_ops(),
            updated_reply(),
            *old(repos),
            *final(repos),
            clone,
            &pr.repository.ssh_url,
            handle_of(*pr),
            reply_view(reply),
        ),
{
    let url = &pr.repository.ssh_url;
    let place = match repos.get_or_clone(url, clone) {
        Ok(place) => place,
        Err(error) => {
            return Err(error);
        },
    };
    let ghost cloned = repos.repos();
    let repo = repos.repo_mut(place);
    let reply = handle_pr_updated_with_repo(repo, pr);
    proof {
        if old(repos).keys().contains(url@) {
        } else {
            assert(repos.repos().take(old(repos).repos().len() as int) =~= old(repos).repos());
            assert(call_ensures(clone, (url,), Ok::<GitWorker<R>, GitError>(cloned[place as int])));
        }
    }
    reply
}

/// The action of a pull-request event that tells that the pull request was
/// closed.
pub open spec fn closed_action() -> Seq<char> {
    "closed"@
}

/// The operations that the pull-request action `action` calls for.
pub open spec fn ops_for(action: Seq<char>) -> Seq<GitOp> {
    if action == closed_action() {
        close_ops()
    } else {
        update_ops()
    }
}

/// The answer of the flow that the pull-request action `action` calls for.
pub open spec fn reply_for(action: Seq<char>) -> Seq<char> {
    if action == closed_action() {
        closed_reply()
    } else {
        updated_reply()
    }
}

/// Whether the store went from `before` to `after` by the handling of the
/// pull-request event `pr`.
///
/// A pull request that does not come from a fork leaves the store and its
/// working repositories as they are. One that does is mirrored, or its
/// mirror removed when the event's action is `closed`, with whatever
/// outcome.
pub open spec fn is_pr_handled<R: RepositoryExt, F: FnOnce(&String) -> Result<GitWorker<R>, GitError>>(
    before: RepoCache<GitWorker<R>>,
    after: RepoCache<GitWorker<R>>,
    clone: F,
    pr: PullRequest,
) -> bool {
    if pr.pull_request.head.repo.fork {
        exists|outcome: Result<Seq<char>, Seq<char>>| #[trigger]
            is_mirrored(
                ops_for(pr.action@),
                reply_for(pr.action@),
                before,
                after,
                clone,
                &pr.repository.ssh_url,
                handle_of(pr),
                outcome,
            )
    } else {
        &&& after.keys() == before.keys()
        &&& after.repos() == before.repos()
    }
}

/// Handles the pull-request event `pr`.
///
/// A pull request that does not come from a fork is left alone: no working
/// repository is cloned or asked for anything. One that does is mirrored, or
/// its mirror removed when the event's action is `closed`. A failure of that
/// flow does not fail the event.
pub fn handle_pr<R, F>(repos: &mut RepoCache<GitWorker<R>>, clone: F, pr: PullRequest) -> (done: Result<
    (),
    RequestErrorResult,
>) where R: RepositoryExt, F: FnOnce(&String) -> Result<GitWorker<R>, GitError>
    requires
        old(repos).wf(),
        call_requires(clone, (&pr.repository.ssh_url,)),
    ensures
        done is Ok,
        final(repos).wf(),
        is_pr_handled(*old(repos), *final(repos), clone, pr),
{
    if pr.is_fork() {
        if str_eq(pr.action.as_str(), "closed") {
            let reply = handle_pr_closed(repos, clone, &pr);
            assert(is_mirrored(
                ops_for(pr.action@),
                reply_for(pr.action@),
                *old(repos),
                *repos,
                clone,
                &pr.repository.ssh_url,
                handle_of(pr),
                reply_view(reply),
            ));
        } else {
            let reply = handle_pr_updated(repos, clone, &pr);
            assert(is_mirrored(
                ops_for(pr.action@),
                reply_for(pr.action@),
                *old(repos),
                *repos,
                clone,
                &pr.repository.ssh_url,
                handle_of(pr),
                reply_view(reply),
            ));
        }
    }
    Ok(())
}

/// The kind of payload that the handling of a delivery reads.
#[derive(Debug, Clone, Copy, PartialEq, Eq, Structural)]
pub enum PayloadKind {
    /// The delivery's body is not read.
    Unread,
    Push,
    PullRequest,
    IssueComment,
}

/// The body of a delivery, decoded.
#[derive(Debug, PartialEq, Eq)]
pub enum Payload {
    /// The body was not decoded.
    Unread,
    Push(Push),
    PullRequest(PullRequest),
    IssueComment(IssueComment),
    /// The body could not be decoded; the text says why.
    Invalid(String),
}

/// What a delivery was answered with.
#[derive(Debug, PartialEq, Eq)]
pub struct Handled {
    /// The message for the sender of the delivery.
    pub reply: String,
    /// The relay that the delivery started, to be carried out before the
    /// delivery is answered.
    pub relay: Option<Relay>,
}

/// The kind of payload that a delivery of kind `event_type` is handled
/// with: none where the feature that handles it is switched off, and none
/// for a kind that is not handled.
pub open spec fn payload_needed(config: Config, event_type: Seq<char>) -> PayloadKind {
    if event_type == "push"@ {
        PayloadKind::Push
    } else if event_type == "pull_request"@ {
        if config.features@.contains(Feature::ExternalPr) {
            PayloadKind::PullRequest
        } else {
            PayloadKind::Unread
        }
    } else if event_type == "issue_comment"@ {
        if config.features@.contains(Feature::Commands) {
            PayloadKind::IssueComment
        } else {
            PayloadKind::Unread
        }
    } else {
        PayloadKind::Unread
    }
}

/// What the sender of a delivery of kind `event_type` is told.
pub open spec fn reply_spec(event_type: Seq<char>) -> Seq<char> {
    if event_type == "push"@ {
        "Push received 😘"@
    } else if event_type == "pull_request"@ {
        "Thanks buddy bro 😍"@
    } else if event_type == "issue_comment"@ {
        "Issue comment received 🥳"@
    } else {
        "Unhandled event_type="@ + event_type + ", doing nothing 😀"@
    }
}

/// Why a payload cannot be used: what its decoding reported, or that it is
/// not the payload that the delivery needs.
pub open spec fn refusal(payload: Payload) -> Seq<char> {
    match payload {
        Payload::Invalid(detail) => detail@,
        _ => "payload does not match the event type"@,
    }
}

/// The kind of payload that a delivery of kind `event_type` is handled with.
pub fn payload_kind(config: &Config, event_type: &str) -> (kind: PayloadKind)
    ensures
        kind == payload_needed(*config, event_type@),
{
    if str_eq(event_type, "push") {
        PayloadKind::Push
    } else if str_eq(event_type, "pull_request") {
        if feature_enabled(config, &Feature::ExternalPr) {
            PayloadKind::PullRequest
        } else {
            PayloadKind::Unread
        }
    } else if str_eq(event_type, "issue_comment") {
        if feature_enabled(config, &Feature::Commands) {
            PayloadKind::IssueComment
        } else {
            PayloadKind::Unread
        }
    } else {
        PayloadKind::Unread
    }
}

/// What the sender of a delivery of kind `event_type` is told.
pub fn reply_for_event(event_type: &str) -> (reply: String)
    ensures
        reply@ == reply_spec(event_type@),
{
    if str_eq(event_type, "push") {
        String::from_str("Push received 😘")
    } else if str_eq(event_type, "pull_request") {
        String::from_str("Thanks buddy bro 😍")
    } else if str_eq(event_type, "issue_comment") {
        String::from_str("Issue comment received 🥳")
    } else {
        let mut reply = String::from_str("Unhandled event_type=");
        reply.append(event_type);
        reply.append(", doing nothing 😀");
        reply
    }
}

/// The answer to a delivery whose payload cannot be used.
fn refuse(payload: &Payload) -> (error: RequestErrorResult)
    ensures
        error@ == (ErrorAnswer { status: 400, body: error_body(refusal(*payload)) }),
{
    match payload {
        Payload::Invalid(detail) => RequestErrorResult::from_serde(detail.as_str()),
        _ => RequestErrorResult::from_serde("payload does not match the event type"),
    }
}

/// Whether the store is the same in `before` and `after`.
pub open spec fn unchanged<R>(before: RepoCache<R>, after: RepoCache<R>) -> bool {
    &&& after.keys() == before.keys()
    &&& after.repos() == before.repos()
}

/// Whether `handled` answers with `reply` and starts no relay.
pub open spec fn replies(handled: Result<Handled, RequestErrorResult>, reply: Seq<char>) -> bool {
    handled matches Ok(answer) && answer.reply@ == reply && answer.relay is None
}

/// Whether `handled` refuses `payload` as a bad request.
pub open spec fn refuses(handled: Result<Handled, RequestErrorResult>, payload: Payload) -> bool {
    handled matches Err(error) && error@ == (ErrorAnswer {
        status: 400,
        body: error_body(refusal(payload)),
    })
}

/// Handles one delivery of kind `event_type`, whose body, decoded as
/// `payload_kind` asks, is `payload`.
///
/// A delivery whose body is not read is acknowledged. A payload that is not
/// of the kind needed, or could not be decoded, is refused as a bad request.
/// A push is acknowledged. A pull-request event whose action is among the
/// enabled actions is handled as `handle_pr` does, else acknowledged; a
/// failure of the mirror flow does not show in the answer. A comment starts
/// its relay.
pub fn handle_event_body<R, F>(
    config: &Config,
    repos: &mut RepoCache<GitWorker<R>>,
    clone: F,
    event_type: &str,
    payload: Payload,
) -> (handled: Result<Handled, RequestErrorResult>) where
    R: RepositoryExt,
    F: FnOnce(&String) -> Result<GitWorker<R>, GitError>,

    requires
        old(repos).wf(),
        forall|url: &String| call_requires(clone, (url,)),
    ensures
        final(repos).wf(),
        match payload_needed(*config, event_type@) {
            PayloadKind::Unread => {
                &&& unchanged(*old(repos), *final(repos))
                &&& replies(handled, reply_spec(event_type@))
            },
            PayloadKind::Push => {
                &&& unchanged(*old(repos), *final(repos))
                &&& if payload is Push {
                    replies(handled, reply_spec(event_type@))
                } else {
                    refuses(handled, payload)
                }
            },
            PayloadKind::PullRequest => match payload {
                Payload::PullRequest(pr) => {
                    &&& replies(handled, reply_spec(event_type@))
                    &&& if views(config.enabled_actions@).contains(pr.action@) {
                        is_pr_handled(*old(repos), *final(repos), clone, pr)
                    } else {
                        unchanged(*old(repos), *final(repos))
                    }
                },
                _ => unchanged(*old(repos), *final(repos)) && refuses(handled, payload),
            },
            PayloadKind::IssueComment => {
                &&& unchanged(*old(repos), *final(repos))
                &&& match payload {
                    Payload::IssueComment(ic) => {
                        &&& handled matches Ok(answer)
                        &&& answer.reply@ == reply_spec(event_type@)
                        &&& answer.relay matches Some(relay)
                        &&& relay@ == relay_start(*config, ic)
                    },
                    _ => refuses(handled, payload),
                }
            },
        },
{
    let kind = payload_kind(config, event_type);
    match kind {
        PayloadKind::Unread => Ok(Handled { reply: reply_for_event(event_type), relay: None }),
        PayloadKind::Push => match payload {
            Payload::Push(_) => Ok(Handled { reply: reply_for_event(event_type), relay: None }),
            other => Err(refuse(&other)),
        },
        PayloadKind::PullRequest => match payload {
            Payload::PullRequest(pr) => {
                if action_enabled(config, pr.action.as_str()) {
                    match handle_pr(repos, clone, pr) {
                        Ok(()) => {},
                        Err(error) => {
                            return Err(error);
                        },
                    }
                }
                Ok(Handled { reply: reply_for_event(event_type), relay: None })
            },
            other => Err(refuse(&other)),
        },
        PayloadKind::IssueComment => match payload {
            Payload::IssueComment(ic) => {
                let relay = handle_ic(config, &ic);
                Ok(Handled { reply: reply_for_event(event_type), relay: Some(relay) })
            },
            other => Err(refuse(&other)),
        },
    }
}

} // verus!
