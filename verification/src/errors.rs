//! Errors of the mirror and relay flows, and the errors that a request can
//! be answered with.

use crate::commands::{error_name, CommandError};
use crate::encoding::{json_member_object, json_object_1};
use vstd::prelude::*;
use vstd::string::*;

verus! {

/// A failure inside the mirror or relay flow, with a message for the log.
#[derive(Debug, Clone, PartialEq, Eq)]
pub struct GitError {
    pub message: String,
}

impl View for GitError {
    type V = Seq<char>;

    open spec fn view(&self) -> Seq<char> {
        self.message@
    }
}

/// The message of a result's error, if it is one.
pub open spec fn outcome_view<T>(outcome: Result<T, GitError>) -> Result<T, Seq<char>> {
    match outcome {
        Ok(value) => Ok(value),
        Err(error) => Err(error@),
    }
}

impl GitError {
    /// An error with the message `prefix` followed by `detail`.
    pub fn prefixed(prefix: &str, detail: &str) -> (error: GitError)
        ensures
            error@ == prefix@ + detail@,
    {
        let mut message = String::from_str(prefix);
        message.append(detail);
        GitError { message }
    }

    /// An error with the given message.
    pub fn with_message(message: &str) -> (error: GitError)
        ensures
            error@ == message@,
    {
        GitError { message: String::from_str(message) }
    }

    /// A failure of a git operation; `detail` is what the git library said.
    pub fn from_git(detail: &str) -> (error: GitError)
        ensures
            error@ == "Git error: "@ + detail@,
    {
        GitError::prefixed("Git error: ", detail)
    }

    /// A failure of the file system; `detail` describes it.
    pub fn from_io(detail: &str) -> (error: GitError)
        ensures
            error@ == "Git error: "@ + detail@,
    {
        GitError::prefixed("Git error: ", detail)
    }

    /// A payload that could not be decoded; `detail` describes why.
    pub fn from_serde(detail: &str) -> (error: GitError)
        ensures
            error@ == "Github serde error: "@ + detail@,
    {
        GitError::prefixed("Github serde error: ", detail)
    }

    /// A failed HTTP request; `detail` describes the failure.
    pub fn from_request(detail: &str) -> (error: GitError)
        ensures
            error@ == "Git request error: "@ + detail@,
    {
        GitError::prefixed("Git request error: ", detail)
    }

    /// A comment that is not a command.
    pub fn from_command(error: CommandError) -> (out: GitError)
        ensures
            out@ == "Git command error: "@ + error_name(error),
    {
        GitError::prefixed("Git command error: ", error.name())
    }

    /// A copy of this error.
    pub fn duplicate(&self) -> (copy: GitError)
        ensures
            copy@ == self@,
    {
        GitError { message: self.message.clone() }
    }
}

/// An internal failure, answered with status 500.
#[derive(Debug, Clone, PartialEq, Eq)]
pub struct ResponseError {
    response: String,
}

/// A request that cannot be accepted, answered with status 400.
#[derive(Debug, Clone, PartialEq, Eq)]
pub struct BadRequest {
    response: String,
}

/// The errors that a webhook delivery can be answered with.
#[derive(Debug, Clone, PartialEq, Eq)]
pub enum RequestErrorResult {
    BadRequest(BadRequest),
    ResponseError(ResponseError),
}

/// What an error answer is made of.
pub struct ErrorAnswer {
    /// HTTP status code.
    pub status: int,
    /// Response body, a JSON text.
    pub body: Seq<char>,
}

/// The JSON body that reports `detail` as an error: `{"error":"detail"}`.
pub open spec fn error_body(detail: Seq<char>) -> Seq<char> {
    json_member_object("error"@, detail)
}

impl View for RequestErrorResult {
    type V = ErrorAnswer;

    closed spec fn view(&self) -> ErrorAnswer {
        match self {
            RequestErrorResult::BadRequest(bad) => ErrorAnswer { status: 400, body: bad.response@ },
            RequestErrorResult::ResponseError(failed) => ErrorAnswer {
                status: 500,
                body: failed.response@,
            },
        }
    }
}

impl RequestErrorResult {
    /// A bad request whose body reports `detail`.
    pub fn bad_request(detail: &str) -> (error: RequestErrorResult)
        ensures
            error@ == (ErrorAnswer { status: 400, body: error_body(detail@) }),
    {
        RequestErrorResult::BadRequest(BadRequest { response: json_object_1("error", detail) })
    }

    /// An internal failure whose body reports `detail`.
    pub fn response_error(detail: &str) -> (error: RequestErrorResult)
        ensures
            error@ == (ErrorAnswer { status: 500, body: error_body(detail@) }),
    {
        RequestErrorResult::ResponseError(
            ResponseError { response: json_object_1("error", detail) },
        )
    }

    /// A failure of the file system: an internal failure.
    pub fn from_io(detail: &str) -> (error: RequestErrorResult)
        ensures
            error@ == (ErrorAnswer { status: 500, body: error_body(detail@) }),
    {
        RequestErrorResult::response_error(detail)
    }

    /// A delivery whose signature does not match: a bad request.
    pub fn from_signature(detail: &str) -> (error: RequestErrorResult)
        ensures
            error@ == (ErrorAnswer { status: 400, body: error_body(detail@) }),
    {
        RequestErrorResult::bad_request(detail)
    }

    /// A payload that could not be decoded: a bad request.
    pub fn from_serde(detail: &str) -> (error: RequestErrorResult)
        ensures
            error@ == (ErrorAnswer { status: 400, body: error_body(detail@) }),
    {
        RequestErrorResult::bad_request(detail)
    }

    /// A failure of the mirror or relay flow: a bad request.
    pub fn from_git(detail: &str) -> (error: RequestErrorResult)
        ensures
            error@ == (ErrorAnswer { status: 400, body: error_body(detail@) }),
    {
        RequestErrorResult::bad_request(detail)
    }

    /// The HTTP status that answers this error.
    pub fn status(&self) -> (code: u16)
        ensures
            code == self@.status,
    {
        match self {
            RequestErrorResult::BadRequest(_) => 400,
            RequestErrorResult::ResponseError(_) => 500,
        }
    }

    /// The JSON body that answers this error.
    pub fn body(&self) -> (text: String)
        ensures
            text@ == self@.body,
    {
        match self {
            RequestErrorResult::BadRequest(bad) => bad.response.clone(),
            RequestErrorResult::ResponseError(failed) => failed.response.clone(),
        }
    }
}

} // verus!
