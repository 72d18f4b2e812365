//! The answers of the HTTP routes that do not depend on a delivery.

use crate::encoding::{json_member_object, json_object_1};
use vstd::prelude::*;

verus! {

/// The answer of the health check.
pub fn check() -> (answer: &'static str)
    ensures
        answer@ == "ok"@,
{
    "ok"
}

/// The answer to an event of the downstream service: a fixed JSON object.
pub fn gitlab_event() -> (answer: String)
    ensures
        answer@ == json_member_object("hello"@, "hi"@),
{
    json_object_1("hello", "hi")
}

} // verus!
