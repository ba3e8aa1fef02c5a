//! The comments on an issue.
use crate::client::{
    ClientError, Method, Paginator, Payload, PayloadView, Request, RequestView, PER_PAGE,
};
use crate::models::common::issue::comment::Comment;
use crate::repository::issue::HandleIssue;
use crate::text::{decimal_text, digits_of};
use crate::Number;
use vstd::prelude::*;
use vstd::string::StringExecFns;

verus! {

/// Why a comment could not be had.
#[derive(Debug, PartialEq, Eq)]
pub enum IssueCommentError {
    Client(ClientError),
    /// The author of the comment could not be had.
    Author { author: String },
    /// There is no comment with this number.
    Nothing { number: Number },
}

/// A comment on an issue, known by its number.
#[derive(Debug, PartialEq, Eq)]
pub struct HandleIssueComment {
    pub issue: HandleIssue,
    pub number: Number,
}

impl Clone for HandleIssueComment {
    fn clone(&self) -> (comment: HandleIssueComment)
        ensures
            comment == *self,
    {
        HandleIssueComment { issue: self.issue.clone(), number: self.number }
    }
}

/// The path of the comment with the given number in the repository of `issue`.
pub open spec fn comment_endpoint(issue: HandleIssue, number: Number) -> Seq<char> {
    issue.repository.endpoint() + "/issues/comments/"@ + digits_of(number as nat, 10)
}

/// The path under which the comments of `issue` are listed and made.
pub open spec fn comments_endpoint(issue: HandleIssue) -> Seq<char> {
    issue.endpoint() + "/comments"@
}

/// The numbers of the given comments, in their order.
pub open spec fn numbers_of(comments: Seq<Comment>) -> Seq<Number> {
    comments.map_values(|comment: Comment| comment.number)
}

/// The numbers of the given handles, in their order.
pub open spec fn handle_numbers(handles: Seq<HandleIssueComment>) -> Seq<Number> {
    handles.map_values(|handle: HandleIssueComment| handle.number)
}

impl HandleIssueComment {
    /// The path of the comment.
    pub open spec fn endpoint(&self) -> Seq<char> {
        comment_endpoint(self.issue, self.number)
    }

    fn path_of(issue: &HandleIssue, number: Number) -> (endpoint: String)
        ensures
            endpoint@ == comment_endpoint(*issue, number),
    {
        let mut endpoint = issue.repository.get_endpoint();
        endpoint.append("/issues/comments/");
        let text = decimal_text(number);
        endpoint.append(text.as_str());
        endpoint
    }

    fn list_path(issue: &HandleIssue) -> (endpoint: String)
        ensures
            endpoint@ == comments_endpoint(*issue),
    {
        let mut endpoint = issue.get_endpoint();
        endpoint.append("/comments");
        endpoint
    }

    /// The path of the comment.
    pub fn get_endpoint(&self) -> (endpoint: String)
        ensures
            endpoint@ == self.endpoint(),
    {
        HandleIssueComment::path_of(&self.issue, self.number)
    }

    /// The issue that the comment stands under.
    pub fn get_parent(&self) -> (issue: &HandleIssue)
        ensures
            *issue == self.issue,
    {
        &self.issue
    }

    /// The number, as the comment is shown.
    pub fn to_string(&self) -> (text: String)
        ensures
            text@ == digits_of(self.number as nat, 10),
    {
        decimal_text(self.number)
    }

    /// The request that asks for the comment with the given number.
    pub fn fetch_request(issue: &HandleIssue, number: Number) -> (request: Request)
        ensures
            request@ == RequestView::plain(Method::Get, comment_endpoint(*issue, number)),
    {
        Request::new(Method::Get, HandleIssueComment::path_of(issue, number), Payload::Empty)
    }

    /// What the answer to a request for a comment comes to. Where the server
    /// found nothing, the failure names the number that was asked for.
    pub fn try_fetch(issue: &HandleIssue, number: Number, answer: Result<Comment, ClientError>) -> (fetched:
        Result<HandleIssueComment, IssueCommentError>)
        ensures
            fetched == match answer {
                Ok(comment) => Ok::<HandleIssueComment, IssueCommentError>(
                    HandleIssueComment { issue: *issue, number: comment.number },
                ),
                Err(error) => if error.is_nothing() {
                    Err(IssueCommentError::Nothing { number })
                } else {
                    Err(IssueCommentError::Client(error))
                },
            },
    {
        match answer {
            Ok(comment) => Ok(HandleIssueComment { issue: issue.clone(), number: comment.number }),
            Err(error) => if error.nothing_found() {
                Err(IssueCommentError::Nothing { number })
            } else {
                Err(IssueCommentError::Client(error))
            },
        }
    }

    /// The request for the next page of the comments on `issue`.
    pub fn fetch_all_request(issue: &HandleIssue, pages: &Paginator) -> (request: Request)
        requires
            pages.page < usize::MAX,
        ensures
            request@ == RequestView::page(comments_endpoint(*issue), (pages.page + 1) as nat),
    {
        pages.next_request(HandleIssueComment::list_path(issue))
    }

    /// Takes one answer of the listing. A page goes to the end of what was
    /// collected, and a page of fewer than a hundred is the last. A server
    /// that found nothing ends the listing with what was collected so far;
    /// any other failure ends it as a failure.
    pub fn accept_page(pages: &mut Paginator, collected: &mut Vec<Comment>, answer: Result<
        Vec<Comment>,
        ClientError,
    >) -> (more: Result<bool, IssueCommentError>)
        requires
            old(pages).page < usize::MAX,
        ensures
            match answer {
                Ok(page) => {
                    &&& final(collected)@ == old(collected)@ + page@
                    &&& final(pages).page == old(pages).page + 1
                    &&& final(pages).finished == (page@.len() < PER_PAGE)
                    &&& more == Ok::<bool, IssueCommentError>(page@.len() >= PER_PAGE)
                },
                Err(error) => {
                    &&& final(collected)@ == old(collected)@
                    &&& final(pages).page == old(pages).page
                    &&& final(pages).finished
                    &&& more == if error.is_nothing() {
                        Ok::<bool, IssueCommentError>(false)
                    } else {
                        Err(IssueCommentError::Client(error))
                    }
                },
            },
    {
        match answer {
            Ok(page) => Ok(pages.accept(collected, page)),
            Err(error) => {
                pages.finish();
                if error.nothing_found() {
                    Ok(false)
                } else {
                    Err(IssueCommentError::Client(error))
                }
            },
        }
    }

    /// The handles of the comments that were collected, in their order.
    pub fn try_fetch_all(issue: &HandleIssue, collected: &Vec<Comment>) -> (handles: Vec<
        HandleIssueComment,
    >)
        ensures
            handle_numbers(handles@) == numbers_of(collected@),
            forall|i: int| 0 <= i < handles@.len() ==> (#[trigger] handles@[i]).issue == *issue,
    {
        let mut handles: Vec<HandleIssueComment> = Vec::new();
        let mut i: usize = 0;
        while i < collected.len()
            invariant
                i <= collected.len(),
                handle_numbers(handles@) == numbers_of(collected@.take(i as int)),
                forall|k: int| 0 <= k < handles@.len() ==> (#[trigger] handles@[k]).issue == *issue,
            decreases collected.len() - i,
        {
            let ghost before = handles@;
            let handle = HandleIssueComment { issue: issue.clone(), number: collected[i].number };
            handles.push(handle);
            i = i + 1;
            proof {
                let seen = collected@.take(i - 1);
                assert(collected@.take(i as int) == seen.push(collected@[i - 1]));
                assert(handle_numbers(before.push(handle)) =~= handle_numbers(before).push(
                    handle.number,
                ));
                assert(numbers_of(seen.push(collected@[i - 1])) =~= numbers_of(seen).push(
                    collected@[i - 1].number,
                ));
            }
        }
        assert(collected@.take(collected.len() as int) == collected@);
        handles
    }

    /// The request that puts a comment with the given text under `issue`.
    pub fn create_request(issue: &HandleIssue, content: &str) -> (request: Request)
        ensures
            request@ == RequestView::with_payload(
                Method::Post,
                comments_endpoint(*issue),
                PayloadView::Comment { body: content@ },
            ),
    {
        Request::new(
            Method::Post,
            HandleIssueComment::list_path(issue),
            Payload::Comment { body: content.to_owned() },
        )
    }

    /// The comment that the service made.
    pub fn try_create(issue: &HandleIssue, answer: Result<Comment, ClientError>) -> (created:
        Result<HandleIssueComment, IssueCommentError>)
        ensures
            created == match answer {
                Ok(comment) => Ok::<HandleIssueComment, IssueCommentError>(
                    HandleIssueComment { issue: *issue, number: comment.number },
                ),
                Err(error) => Err(IssueCommentError::Client(error)),
            },
    {
        match answer {
            Ok(comment) => Ok(HandleIssueComment { issue: issue.clone(), number: comment.number }),
            Err(error) => Err(IssueCommentError::Client(error)),
        }
    }

    /// The request that deletes the comment with the given number.
    pub fn delete_request(issue: &HandleIssue, number: Number) -> (request: Request)
        ensures
            request@ == RequestView::plain(Method::Delete, comment_endpoint(*issue, number)),
    {
        Request::new(Method::Delete, HandleIssueComment::path_of(issue, number), Payload::Empty)
    }

    /// What the answer to a deletion comes to: the transport's failure, if any.
    pub fn try_delete(answer: Result<(), ClientError>) -> (deleted: Result<(), IssueCommentError>)
        ensures
            deleted == match answer {
                Ok(()) => Ok::<(), IssueCommentError>(()),
                Err(error) => Err(IssueCommentError::Client(error)),
            },
    {
        match answer {
            Ok(()) => Ok(()),
            Err(error) => Err(IssueCommentError::Client(error)),
        }
    }
}

impl From<ClientError> for IssueCommentError {
    fn from(error: ClientError) -> (wrapped: IssueCommentError) {
        IssueCommentError::Client(error)
    }
}

impl vstd::std_specs::convert::FromSpecImpl<ClientError> for IssueCommentError {
    open spec fn obeys_from_spec() -> bool {
        true
    }

    open spec fn from_spec(error: ClientError) -> IssueCommentError {
        IssueCommentError::Client(error)
    }
}

impl crate::GitHubProperties for HandleIssueComment {
    open spec fn path(&self) -> Seq<char> {
        self.endpoint()
    }

    fn get_endpoint(&self) -> (endpoint: String) {
        HandleIssueComment::get_endpoint(self)
    }
}

} // verus!
