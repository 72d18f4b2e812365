//! The request headers that a webhook delivery carries.

use vstd::prelude::*;
use vstd::string::*;

verus! {

/// The `X-GitHub-Event` header: the kind of event delivered.
#[derive(Debug, Clone, PartialEq, Eq)]
pub struct XGitHubEvent(pub String);

/// The `X-Hub-Signature` header: the signature of the delivery's body.
#[derive(Debug, Clone, PartialEq, Eq)]
pub struct XHubSignature(pub String);

impl View for XGitHubEvent {
    type V = Seq<char>;

    open spec fn view(&self) -> Seq<char> {
        let XGitHubEvent(value) = *self;
        value@
    }
}

impl View for XHubSignature {
    type V = Seq<char>;

    open spec fn view(&self) -> Seq<char> {
        let XHubSignature(value) = *self;
        value@
    }
}

impl XGitHubEvent {
    /// The header's name, in lower case.
    pub fn name() -> (name: &'static str)
        ensures
            name@ == "x-github-event"@,
    {
        "x-github-event"
    }

    /// Reads the header from the first of its values, if there is one.
    pub fn decode(first: Option<&str>) -> (header: Option<XGitHubEvent>)
        ensures
            match first {
                Some(text) => header matches Some(read) && read@ == text@,
                None => header is None,
            },
    {
        match first {
            Some(text) => Some(XGitHubEvent(String::from_str(text))),
            None => None,
        }
    }

    /// The value to send for this header.
    pub fn encode(&self) -> (value: String)
        ensures
            value@ == self@,
    {
        self.0.clone()
    }
}

impl XHubSignature {
    /// The header's name, in lower case.
    pub fn name() -> (name: &'static str)
        ensures
            name@ == "x-hub-signature"@,
    {
        "x-hub-signature"
    }

    /// Reads the header from the first of its values, if there is one.
    pub fn decode(first: Option<&str>) -> (header: Option<XHubSignature>)
        ensures
            match first {
                Some(text) => header matches Some(read) && read@ == text@,
                None => header is None,
            },
    {
        match first {
            Some(text) => Some(XHubSignature(String::from_str(text))),
            None => None,
        }
    }

    /// The value to send for this header.
    pub fn encode(&self) -> (value: String)
        ensures
            value@ == self@,
    {
        self.0.clone()
    }
}

} // verus!
