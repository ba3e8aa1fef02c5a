//! Typed handles over the resources of a source-control hosting service:
//! accounts, repositories, git objects, references, issues and comments.
//!
//! The library decides and computes; it never performs a request itself.
//! Every operation is split into the request it needs and the reading of
//! what came back, so that each rule is stated as a contract.
use vstd::prelude::*;

pub mod account;
pub mod client;
pub mod common;
pub mod models;
pub mod repository;
pub mod text;

use account::AccountError;
use client::{ClientError, Method, Payload, PayloadView, Request, RequestView};
use repository::HandleRepositoryError;

verus! {

/// Numeric identity of issues, comments, users and teams.
pub type Number = usize;

/// Every failure of the library, by the layer that met it.
#[derive(Debug, PartialEq, Eq)]
pub enum GitHubError {
    Account(AccountError),
    Client(ClientError),
}

/// What an operation of the library gives: its value, or why there is none.
pub type GitHubResult<T, E = GitHubError> = Result<T, E>;

impl From<AccountError> for GitHubError {
    fn from(error: AccountError) -> (wrapped: GitHubError) {
        GitHubError::Account(error)
    }
}

impl vstd::std_specs::convert::FromSpecImpl<AccountError> for GitHubError {
    open spec fn obeys_from_spec() -> bool {
        true
    }

    open spec fn from_spec(error: AccountError) -> GitHubError {
        GitHubError::Account(error)
    }
}

impl From<ClientError> for GitHubError {
    fn from(error: ClientError) -> (wrapped: GitHubError) {
        GitHubError::Client(error)
    }
}

impl vstd::std_specs::convert::FromSpecImpl<ClientError> for GitHubError {
    open spec fn obeys_from_spec() -> bool {
        true
    }

    open spec fn from_spec(error: ClientError) -> GitHubError {
        GitHubError::Client(error)
    }
}

/// What every handle can do: name the path at which the service keeps its
/// resource, and describe the requests that read and change it there. The
/// path is a function of the handle and of the handles above it, and of
/// nothing else.
pub trait GitHubProperties: Sized {
    /// The path of the resource.
    spec fn path(&self) -> Seq<char>;

    /// The path of the resource.
    fn get_endpoint(&self) -> (endpoint: String)
        ensures
            endpoint@ == self.path(),
    ;

    /// The request that asks what the service knows of the resource.
    fn content_request(&self) -> (request: Request)
        ensures
            request@ == RequestView::plain(Method::Get, self.path()),
    {
        Request::new(Method::Get, self.get_endpoint(), Payload::Empty)
    }

    /// The request that asks for some of what the service knows of the
    /// resource; which of it is the caller's to pick when the answer is read.
    fn properties_request(&self) -> (request: Request)
        ensures
            request@ == RequestView::plain(Method::Get, self.path()),
    {
        Request::new(Method::Get, self.get_endpoint(), Payload::Empty)
    }

    /// The request that changes the resource by what the caller supplies.
    fn set_properties_request(&self) -> (request: Request)
        ensures
            request@ == RequestView::with_payload(
                Method::Patch,
                self.path(),
                PayloadView::Supplied,
            ),
    {
        Request::new(Method::Patch, self.get_endpoint(), Payload::Supplied)
    }

    /// The handle after a change: the same handle, whatever the service
    /// wrote back, if the change went through.
    fn try_set_properties(self, answer: Result<(), ClientError>) -> (changed: Result<
        Self,
        HandleRepositoryError,
    >)
        ensures
            changed == match answer {
                Ok(()) => Ok::<Self, HandleRepositoryError>(self),
                Err(error) => Err(HandleRepositoryError::Client(error)),
            },
    {
        match answer {
            Ok(()) => Ok(self),
            Err(error) => Err(HandleRepositoryError::Client(error)),
        }
    }
}

} // verus!
