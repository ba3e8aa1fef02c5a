//! What happened to a comment on an issue.
use crate::models::common::issue::comment::Comment;
use crate::models::common::issue::Issue;
use vstd::prelude::*;

verus! {

/// A comment and its issue, under what was done to the comment.
#[derive(Debug, Hash, PartialEq, Eq)]
pub enum EventIssueComment {
    Created { issue: Issue, comment: Comment },
    Edited { issue: Issue, comment: Comment },
    Deleted { issue: Issue, comment: Comment },
}

impl EventIssueComment {
    /// The issue that the comment stands under.
    pub open spec fn issue(&self) -> Issue {
        match *self {
            EventIssueComment::Created { issue, .. } => issue,
            EventIssueComment::Edited { issue, .. } => issue,
            EventIssueComment::Deleted { issue, .. } => issue,
        }
    }

    /// The comment that the event is about.
    pub open spec fn comment(&self) -> Comment {
        match *self {
            EventIssueComment::Created { comment, .. } => comment,
            EventIssueComment::Edited { comment, .. } => comment,
            EventIssueComment::Deleted { comment, .. } => comment,
        }
    }

    pub fn get_issue_number(&self) -> (number: usize)
        ensures
            number == self.issue().content().number,
    {
        match self {
            EventIssueComment::Deleted { issue, .. } => issue.deref().get_number(),
            EventIssueComment::Created { issue, .. } => issue.deref().get_number(),
            EventIssueComment::Edited { issue, .. } => issue.deref().get_number(),
        }
    }

    pub fn get_issue_comment_number(&self) -> (number: usize)
        ensures
            number == self.comment().number,
    {
        match self {
            EventIssueComment::Deleted { comment, .. } => comment.get_number(),
            EventIssueComment::Created { comment, .. } => comment.get_number(),
            EventIssueComment::Edited { comment, .. } => comment.get_number(),
        }
    }
}

} // verus!
