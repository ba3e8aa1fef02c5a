//! The issues of a repository.
use crate::client::{ClientError, Method, Paginator, Payload, PayloadView, Request, RequestView};
use crate::models::common::issue::Issue;
use crate::models::common::user::User;
use crate::repository::HandleRepository;
use crate::text::{decimal_text, digits_of, texts};
use crate::Number;
use vstd::prelude::*;
use vstd::string::StringExecFns;

pub mod comment;

pub use comment::{HandleIssueComment, IssueCommentError};

verus! {

/// Why an issue could not be had.
#[derive(Debug, PartialEq, Eq)]
pub enum IssueError {
    Client(ClientError),
    Comment(IssueCommentError),
    /// What has this number is a pull request, and no issue.
    Issue { number: Number },
    /// The author of the issue could not be had.
    Author { author: String },
    /// An account that the issue is assigned to could not be had.
    Assignee { assignee: String },
}

/// A plain issue of a repository, known by its number.
#[derive(Debug, PartialEq, Eq)]
pub struct HandleIssue {
    pub repository: HandleRepository,
    pub number: Number,
}

impl Clone for HandleIssue {
    fn clone(&self) -> (issue: HandleIssue)
        ensures
            issue == *self,
    {
        HandleIssue { repository: self.repository.clone(), number: self.number }
    }
}

/// The path of the issue with the given number.
pub open spec fn issue_endpoint(repository: HandleRepository, number: Number) -> Seq<char> {
    repository.endpoint() + "/issues/"@ + digits_of(number as nat, 10)
}

/// The numbers of the plain issues among the given ones, in their order.
pub open spec fn plain_numbers(issues: Seq<Issue>) -> Seq<Number> {
    issues.filter(|issue: Issue| issue is Plain).map_values(|issue: Issue| issue.content().number)
}

/// The numbers of the given handles, in their order.
pub open spec fn issue_numbers(handles: Seq<HandleIssue>) -> Seq<Number> {
    handles.map_values(|handle: HandleIssue| handle.number)
}

impl HandleIssue {
    /// The path of the issue.
    pub open spec fn endpoint(&self) -> Seq<char> {
        issue_endpoint(self.repository, self.number)
    }

    fn path_of(repository: &HandleRepository, number: Number) -> (endpoint: String)
        ensures
            endpoint@ == issue_endpoint(*repository, number),
    {
        let mut endpoint = repository.get_endpoint();
        endpoint.append("/issues/");
        let text = decimal_text(number);
        endpoint.append(text.as_str());
        endpoint
    }

    /// The path of the issue.
    pub fn get_endpoint(&self) -> (endpoint: String)
        ensures
            endpoint@ == self.endpoint(),
    {
        HandleIssue::path_of(&self.repository, self.number)
    }

    /// The repository that holds the issue.
    pub fn get_parent(&self) -> (repository: &HandleRepository)
        ensures
            *repository == self.repository,
    {
        &self.repository
    }

    /// The number, as the issue is shown.
    pub fn to_string(&self) -> (text: String)
        ensures
            text@ == digits_of(self.number as nat, 10),
    {
        decimal_text(self.number)
    }

    /// The request that asks for the issue with the given number.
    pub fn fetch_request(repository: &HandleRepository, number: Number) -> (request: Request)
        ensures
            request@ == RequestView::plain(Method::Get, issue_endpoint(*repository, number)),
    {
        Request::new(Method::Get, HandleIssue::path_of(repository, number), Payload::Empty)
    }

    /// What the answer to a request for an issue comes to. A pull request is
    /// no issue: where the service describes one, the number is refused.
    pub fn try_fetch(repository: &HandleRepository, number: Number, answer: Result<
        Issue,
        ClientError,
    >) -> (fetched: Result<HandleIssue, IssueError>)
        ensures
            fetched == match answer {
                Err(error) => Err::<HandleIssue, IssueError>(IssueError::Client(error)),
                Ok(issue) => if issue is PullRequest {
                    Err(IssueError::Issue { number })
                } else {
                    Ok(HandleIssue { repository: *repository, number })
                },
            },
    {
        match answer {
            Err(error) => Err(IssueError::Client(error)),
            Ok(issue) => if issue.is_pull_request() {
                Err(IssueError::Issue { number })
            } else {
                Ok(HandleIssue { repository: repository.clone(), number })
            },
        }
    }

    /// The request for the next page of the issues of `repository`.
    pub fn fetch_all_request(repository: &HandleRepository, pages: &Paginator) -> (request:
        Request)
        requires
            pages.page < usize::MAX,
        ensures
            request@ == RequestView::page(
                repository.endpoint() + "/issues"@,
                (pages.page + 1) as nat,
            ),
    {
        let mut endpoint = repository.get_endpoint();
        endpoint.append("/issues");
        pages.next_request(endpoint)
    }

    /// The handles of the plain issues among those collected, in their
    /// order; the pull requests that the service lists with them are left out.
    pub fn try_fetch_all(repository: &HandleRepository, collected: &Vec<Issue>) -> (handles: Vec<
        HandleIssue,
    >)
        ensures
            issue_numbers(handles@) == plain_numbers(collected@),
            forall|i: int|
                0 <= i < handles@.len() ==> (#[trigger] handles@[i]).repository == *repository,
    {
        let mut handles: Vec<HandleIssue> = Vec::new();
        let mut i: usize = 0;
        while i < collected.len()
            invariant
                i <= collected.len(),
                issue_numbers(handles@) == plain_numbers(collected@.take(i as int)),
                forall|k: int|
                    0 <= k < handles@.len() ==> (#[trigger] handles@[k]).repository
                        == *repository,
            decreases collected.len() - i,
        {
            let ghost before = handles@;
            let ghost seen = collected@.take(i as int);
            let ghost plain = |issue: Issue| issue is Plain;
            proof {
                reveal(Seq::filter);
                assert(collected@.take(i + 1) == seen.push(collected@[i as int]));
                assert(seen.push(collected@[i as int]).drop_last() == seen);
            }
            if !collected[i].is_pull_request() {
                let handle = HandleIssue {
                    repository: repository.clone(),
                    number: collected[i].deref().get_number(),
                };
                handles.push(handle);
                proof {
                    assert(issue_numbers(before.push(handle)) =~= issue_numbers(before).push(
                        handle.number,
                    ));
                    assert(seen.filter(plain).push(collected@[i as int]).map_values(
                        |issue: Issue| issue.content().number,
                    ) =~= seen.filter(plain).map_values(
                        |issue: Issue| issue.content().number,
                    ).push(collected@[i as int].content().number));
                }
            }
            i = i + 1;
        }
        assert(collected@.take(collected.len() as int) == collected@);
        handles
    }

    /// The path under which the issue's assignees are set.
    pub open spec fn assignees_endpoint(&self) -> Seq<char> {
        self.endpoint() + "/assignees"@
    }

    /// The request that assigns the issue to the accounts with the given
    /// logins. The service adds them to those that the issue has.
    pub fn set_assignees_request(&self, assignees: Vec<String>) -> (request: Request)
        ensures
            request@ == RequestView::with_payload(
                Method::Post,
                self.assignees_endpoint(),
                PayloadView::Assignees { assignees: texts(assignees@) },
            ),
    {
        let mut endpoint = self.get_endpoint();
        endpoint.append("/assignees");
        Request::new(Method::Post, endpoint, Payload::Assignees { assignees })
    }

    /// What the answer to an assignment comes to: the transport's failure, if any.
    pub fn try_set_assignees(answer: Result<(), ClientError>) -> (set: Result<(), IssueError>)
        ensures
            set == match answer {
                Ok(()) => Ok::<(), IssueError>(()),
                Err(error) => Err(IssueError::Client(error)),
            },
    {
        match answer {
            Ok(()) => Ok(()),
            Err(error) => Err(IssueError::Client(error)),
        }
    }

    /// The request that asks whom the issue is assigned to: an assignment of
    /// nobody, which the service answers with all that the issue has.
    pub fn get_assignees_request(&self) -> (request: Request)
        ensures
            request@ == RequestView::with_payload(
                Method::Post,
                self.assignees_endpoint(),
                PayloadView::Assignees { assignees: Seq::empty() },
            ),
    {
        let request = self.set_assignees_request(Vec::new());
        assert(texts(Seq::<String>::empty()) == Seq::<Seq<char>>::empty());
        request
    }

    /// The accounts that the issue is assigned to, as the service answered.
    pub fn try_get_assignees(answer: Result<Vec<User>, ClientError>) -> (assignees: Result<
        Vec<User>,
        IssueError,
    >)
        ensures
            assignees == match answer {
                Ok(users) => Ok::<Vec<User>, IssueError>(users),
                Err(error) => Err(IssueError::Client(error)),
            },
    {
        match answer {
            Ok(users) => Ok(users),
            Err(error) => Err(IssueError::Client(error)),
        }
    }

    /// The comment of the issue that was fetched, or why there is none.
    pub fn try_get_comment(fetched: Result<HandleIssueComment, IssueCommentError>) -> (comment:
        Result<HandleIssueComment, IssueError>)
        ensures
            comment == match fetched {
                Ok(handle) => Ok::<HandleIssueComment, IssueError>(handle),
                Err(error) => Err(IssueError::Comment(error)),
            },
    {
        match fetched {
            Ok(handle) => Ok(handle),
            Err(error) => Err(IssueError::Comment(error)),
        }
    }

    /// Whether the comment that was asked for is there: that the server
    /// found nothing is an answer, every other failure stays one.
    pub fn try_has_comment(fetched: Result<HandleIssueComment, IssueCommentError>) -> (has: Result<
        bool,
        IssueError,
    >)
        ensures
            has == match fetched {
                Ok(_) => Ok::<bool, IssueError>(true),
                Err(IssueCommentError::Nothing { .. }) => Ok(false),
                Err(error) => Err(IssueError::Comment(error)),
            },
    {
        match fetched {
            Ok(_) => Ok(true),
            Err(IssueCommentError::Nothing { .. }) => Ok(false),
            Err(error) => Err(IssueError::Comment(error)),
        }
    }

    /// The comments of the issue that were listed, or why they were not.
    pub fn try_get_all_issue_comments(fetched: Result<Vec<HandleIssueComment>, IssueCommentError>) -> (comments:
        Result<Vec<HandleIssueComment>, IssueError>)
        ensures
            comments == match fetched {
                Ok(handles) => Ok::<Vec<HandleIssueComment>, IssueError>(handles),
                Err(error) => Err(IssueError::Comment(error)),
            },
    {
        match fetched {
            Ok(handles) => Ok(handles),
            Err(error) => Err(IssueError::Comment(error)),
        }
    }

    /// Whether the comments of the issue could be listed: that the server
    /// found nothing is an answer, every other failure stays one.
    pub fn try_has_comments(fetched: Result<Vec<HandleIssueComment>, IssueCommentError>) -> (has:
        Result<bool, IssueError>)
        ensures
            has == match fetched {
                Ok(_) => Ok::<bool, IssueError>(true),
                Err(IssueCommentError::Nothing { .. }) => Ok(false),
                Err(error) => Err(IssueError::Comment(error)),
            },
    {
        match fetched {
            Ok(_) => Ok(true),
            Err(IssueCommentError::Nothing { .. }) => Ok(false),
            Err(error) => Err(IssueError::Comment(error)),
        }
    }

    /// The comment that was made under the issue, or why it was not.
    pub fn try_create_comment(created: Result<HandleIssueComment, IssueCommentError>) -> (comment:
        Result<HandleIssueComment, IssueError>)
        ensures
            comment == match created {
                Ok(handle) => Ok::<HandleIssueComment, IssueError>(handle),
                Err(error) => Err(IssueError::Comment(error)),
            },
    {
        match created {
            Ok(handle) => Ok(handle),
            Err(error) => Err(IssueError::Comment(error)),
        }
    }

    /// What the deletion of a comment came to.
    pub fn try_delete_comment(deleted: Result<(), IssueCommentError>) -> (done: Result<
        (),
        IssueError,
    >)
        ensures
            done == match deleted {
                Ok(()) => Ok::<(), IssueError>(()),
                Err(error) => Err(IssueError::Comment(error)),
            },
    {
        match deleted {
            Ok(()) => Ok(()),
            Err(error) => Err(IssueError::Comment(error)),
        }
    }
}

impl From<ClientError> for IssueError {
    fn from(error: ClientError) -> (wrapped: IssueError) {
        IssueError::Client(error)
    }
}

impl vstd::std_specs::convert::FromSpecImpl<ClientError> for IssueError {
    open spec fn obeys_from_spec() -> bool {
        true
    }

    open spec fn from_spec(error: ClientError) -> IssueError {
        IssueError::Client(error)
    }
}

impl From<IssueCommentError> for IssueError {
    fn from(error: IssueCommentError) -> (wrapped: IssueError) {
        IssueError::Comment(error)
    }
}

impl vstd::std_specs::convert::FromSpecImpl<IssueCommentError> for IssueError {
    open spec fn obeys_from_spec() -> bool {
        true
    }

    open spec fn from_spec(error: IssueCommentError) -> IssueError {
        IssueError::Comment(error)
    }
}

impl crate::GitHubProperties for HandleIssue {
    open spec fn path(&self) -> Seq<char> {
        self.endpoint()
    }

    fn get_endpoint(&self) -> (endpoint: String) {
        HandleIssue::get_endpoint(self)
    }
}

} // verus!
