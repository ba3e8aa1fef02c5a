//! The handle of a user account.
use crate::client::ClientError;
use crate::models::common::user::User;
use crate::repository::HandleRepositoryError;
use crate::text::joined;
use vstd::prelude::*;

verus! {

/// Why a user could not be had.
#[derive(Debug, PartialEq, Eq)]
pub enum HandleUserError {
    Client(ClientError),
    Repository(HandleRepositoryError),
    /// The account is of another kind.
    User { account: User },
}

/// A user account, known by its login.
#[derive(Debug, PartialEq, Eq)]
pub struct HandleUser {
    pub name: String,
}

impl Clone for HandleUser {
    fn clone(&self) -> (user: HandleUser)
        ensures
            user == *self,
    {
        HandleUser { name: self.name.clone() }
    }
}

impl HandleUser {
    /// The path of the user: `users/` and the login.
    pub open spec fn endpoint(&self) -> Seq<char> {
        "users/"@ + self.name@
    }

    /// The path of the user.
    pub fn get_endpoint(&self) -> (endpoint: String)
        ensures
            endpoint@ == self.endpoint(),
    {
        joined("users/", self.name.as_str())
    }

    /// The login, as the user is shown.
    pub fn to_string(&self) -> (text: String)
        ensures
            text@ == self.name@,
    {
        self.name.clone()
    }
}

impl From<ClientError> for HandleUserError {
    fn from(error: ClientError) -> (wrapped: HandleUserError) {
        HandleUserError::Client(error)
    }
}

impl vstd::std_specs::convert::FromSpecImpl<ClientError> for HandleUserError {
    open spec fn obeys_from_spec() -> bool {
        true
    }

    open spec fn from_spec(error: ClientError) -> HandleUserError {
        HandleUserError::Client(error)
    }
}

impl From<HandleRepositoryError> for HandleUserError {
    fn from(error: HandleRepositoryError) -> (wrapped: HandleUserError) {
        HandleUserError::Repository(error)
    }
}

impl vstd::std_specs::convert::FromSpecImpl<HandleRepositoryError> for HandleUserError {
    open spec fn obeys_from_spec() -> bool {
        true
    }

    open spec fn from_spec(error: HandleRepositoryError) -> HandleUserError {
        HandleUserError::Repository(error)
    }
}

impl crate::GitHubProperties for HandleUser {
    open spec fn path(&self) -> Seq<char> {
        self.endpoint()
    }

    fn get_endpoint(&self) -> (endpoint: String) {
        HandleUser::get_endpoint(self)
    }
}

} // verus!
