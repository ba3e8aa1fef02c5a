//! The handle of an organization.
use crate::client::ClientError;
use crate::models::common::user::User;
use crate::repository::HandleRepositoryError;
use crate::text::joined;
use vstd::prelude::*;

pub mod actions;
pub mod team;

use actions::HandleActions;
use team::{HandleTeam, HandleTeamError};

verus! {

/// Why an organization could not be had.
#[derive(Debug, PartialEq, Eq)]
pub enum HandleOrganizationError {
    Client(ClientError),
    Team(HandleTeamError),
    Repository(HandleRepositoryError),
    /// The account is of another kind.
    Organization { account: User },
}

/// An organization, known by its login.
#[derive(Debug, PartialEq, Eq)]
pub struct HandleOrganization {
    pub name: String,
}

impl Clone for HandleOrganization {
    fn clone(&self) -> (organization: HandleOrganization)
        ensures
            organization == *self,
    {
        HandleOrganization { name: self.name.clone() }
    }
}

impl HandleOrganization {
    /// The path of the organization: `orgs/` and the login.
    pub open spec fn endpoint(&self) -> Seq<char> {
        "orgs/"@ + self.name@
    }

    /// The path of the organization.
    pub fn get_endpoint(&self) -> (endpoint: String)
        ensures
            endpoint@ == self.endpoint(),
    {
        joined("orgs/", self.name.as_str())
    }

    /// The login, as the organization is shown.
    pub fn to_string(&self) -> (text: String)
        ensures
            text@ == self.name@,
    {
        self.name.clone()
    }
}

impl HandleOrganization {
    /// Whether the organization is verified: the `is_verified` of the answer.
    pub fn try_is_verified(answer: Result<bool, ClientError>) -> (verified: Result<
        bool,
        HandleOrganizationError,
    >)
        ensures
            verified == match answer {
                Ok(is) => Ok::<bool, HandleOrganizationError>(is),
                Err(error) => Err(HandleOrganizationError::Client(error)),
            },
    {
        match answer {
            Ok(is) => Ok(is),
            Err(error) => Err(HandleOrganizationError::Client(error)),
        }
    }

    /// The team that was fetched, or why there is none.
    pub fn try_get_team(fetched: Result<HandleTeam, HandleTeamError>) -> (team: Result<
        HandleTeam,
        HandleOrganizationError,
    >)
        ensures
            team == match fetched {
                Ok(handle) => Ok::<HandleTeam, HandleOrganizationError>(handle),
                Err(error) => Err(HandleOrganizationError::Team(error)),
            },
    {
        match fetched {
            Ok(handle) => Ok(handle),
            Err(error) => Err(HandleOrganizationError::Team(error)),
        }
    }

    /// The teams that were listed, or why they were not.
    pub fn try_get_all_teams(fetched: Result<Vec<HandleTeam>, HandleTeamError>) -> (teams: Result<
        Vec<HandleTeam>,
        HandleOrganizationError,
    >)
        ensures
            teams == match fetched {
                Ok(handles) => Ok::<Vec<HandleTeam>, HandleOrganizationError>(handles),
                Err(error) => Err(HandleOrganizationError::Team(error)),
            },
    {
        match fetched {
            Ok(handles) => Ok(handles),
            Err(error) => Err(HandleOrganizationError::Team(error)),
        }
    }

    /// The organization's permissions for actions.
    pub fn get_actions(&self) -> (actions: HandleActions)
        ensures
            actions.organization == *self,
    {
        HandleActions::from(self)
    }
}

impl From<ClientError> for HandleOrganizationError {
    fn from(error: ClientError) -> (wrapped: HandleOrganizationError) {
        HandleOrganizationError::Client(error)
    }
}

impl vstd::std_specs::convert::FromSpecImpl<ClientError> for HandleOrganizationError {
    open spec fn obeys_from_spec() -> bool {
        true
    }

    open spec fn from_spec(error: ClientError) -> HandleOrganizationError {
        HandleOrganizationError::Client(error)
    }
}

impl From<HandleTeamError> for HandleOrganizationError {
    fn from(error: HandleTeamError) -> (wrapped: HandleOrganizationError) {
        HandleOrganizationError::Team(error)
    }
}

impl vstd::std_specs::convert::FromSpecImpl<HandleTeamError> for HandleOrganizationError {
    open spec fn obeys_from_spec() -> bool {
        true
    }

    open spec fn from_spec(error: HandleTeamError) -> HandleOrganizationError {
        HandleOrganizationError::Team(error)
    }
}

impl From<HandleRepositoryError> for HandleOrganizationError {
    fn from(error: HandleRepositoryError) -> (wrapped: HandleOrganizationError) {
        HandleOrganizationError::Repository(error)
    }
}

impl vstd::std_specs::convert::FromSpecImpl<HandleRepositoryError> for HandleOrganizationError {
    open spec fn obeys_from_spec() -> bool {
        true
    }

    open spec fn from_spec(error: HandleRepositoryError) -> HandleOrganizationError {
        HandleOrganizationError::Repository(error)
    }
}

impl crate::GitHubProperties for HandleOrganization {
    open spec fn path(&self) -> Seq<char> {
        self.endpoint()
    }

    fn get_endpoint(&self) -> (endpoint: String) {
        HandleOrganization::get_endpoint(self)
    }
}

} // verus!
