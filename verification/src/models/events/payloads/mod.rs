//! The descriptions that come with each kind of event.
pub mod issue;
pub mod issue_comment;

pub use issue::EventIssue;
pub use issue_comment::EventIssueComment;
