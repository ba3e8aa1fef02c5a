//! What the service tells when something happened.
use vstd::prelude::*;

pub mod payloads;

pub use payloads::{EventIssue, EventIssueComment};

verus! {

/// Something that happened, by the name under which the service reports it.
#[derive(Debug, PartialEq, Eq)]
pub enum Event {
    IssueComment(EventIssueComment),
    Issue(EventIssue),
    Schedule,
}

} // verus!
