//! What happened to an issue.
use crate::models::common::issue::{Issue, IssueState};
use crate::models::common::user::User;
use vstd::prelude::*;

verus! {

/// An issue, under what was done to it.
#[derive(Debug, Hash, PartialEq, Eq)]
pub enum EventIssue {
    Opened { issue: Issue },
    Closed { issue: Issue },
    Edited { issue: Issue },
    Reopened { issue: Issue },
    Deleted { issue: Issue },
}

impl EventIssue {
    /// The issue that the event is about.
    pub open spec fn issue(&self) -> Issue {
        match *self {
            EventIssue::Opened { issue } => issue,
            EventIssue::Closed { issue } => issue,
            EventIssue::Edited { issue } => issue,
            EventIssue::Reopened { issue } => issue,
            EventIssue::Deleted { issue } => issue,
        }
    }

    /// The issue that the event is about.
    pub fn get_issue(&self) -> (issue: &Issue)
        ensures
            *issue == self.issue(),
    {
        match self {
            EventIssue::Opened { issue } => issue,
            EventIssue::Closed { issue } => issue,
            EventIssue::Edited { issue } => issue,
            EventIssue::Reopened { issue } => issue,
            EventIssue::Deleted { issue } => issue,
        }
    }

    pub fn get_state(&self) -> (state: IssueState)
        ensures
            state == self.issue().content().state,
    {
        self.get_issue().get_state()
    }

    pub fn get_author(&self) -> (author: User)
        ensures
            author == self.issue().content().author,
    {
        self.get_issue().get_author()
    }

    pub fn get_body(&self) -> (body: String)
        ensures
            body == self.issue().content().body,
    {
        self.get_issue().deref().get_body()
    }

    pub fn get_number(&self) -> (number: usize)
        ensures
            number == self.issue().content().number,
    {
        self.get_issue().deref().get_number()
    }
}

} // verus!
