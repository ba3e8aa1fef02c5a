//! The teams of an organization.
use crate::account::organization::HandleOrganization;
use crate::client::{ClientError, Method, Paginator, Payload, Request, RequestView};
use crate::models::common::team::Team;
use crate::models::common::user::User;
use crate::repository::HandleRepositoryError;
use vstd::prelude::*;
use vstd::string::StringExecFns;

verus! {

/// Why a team could not be had.
#[derive(Debug, PartialEq, Eq)]
pub enum HandleTeamError {
    Client(ClientError),
    Repository(HandleRepositoryError),
    /// The account is of another kind.
    Organization { account: User },
}

/// A team of an organization, known by its slug.
#[derive(Debug, PartialEq, Eq)]
pub struct HandleTeam {
    pub organization: HandleOrganization,
    pub slug: String,
}

impl Clone for HandleTeam {
    fn clone(&self) -> (team: HandleTeam)
        ensures
            team == *self,
    {
        HandleTeam { organization: self.organization.clone(), slug: self.slug.clone() }
    }
}

/// The path under which the teams of `organization` are listed.
pub open spec fn teams_endpoint(organization: HandleOrganization) -> Seq<char> {
    organization.endpoint() + "/teams"@
}

/// The slugs of the given teams, in their order.
pub open spec fn slugs_of(teams: Seq<Team>) -> Seq<String> {
    teams.map_values(|team: Team| team.slug)
}

/// The slugs of the given handles, in their order.
pub open spec fn handle_slugs(handles: Seq<HandleTeam>) -> Seq<String> {
    handles.map_values(|handle: HandleTeam| handle.slug)
}

/// Whether one of the given accounts has the number of `member`.
pub open spec fn has_member(members: Seq<User>, member: User) -> bool {
    exists|i: int| 0 <= i < members.len() && (#[trigger] members[i]).number() == member.number()
}

impl HandleTeam {
    /// The path of the team.
    pub open spec fn endpoint(&self) -> Seq<char> {
        teams_endpoint(self.organization) + "/"@ + self.slug@
    }

    fn list_path(organization: &HandleOrganization) -> (endpoint: String)
        ensures
            endpoint@ == teams_endpoint(*organization),
    {
        let mut endpoint = organization.get_endpoint();
        endpoint.append("/teams");
        endpoint
    }

    fn path_of(organization: &HandleOrganization, slug: &str) -> (endpoint: String)
        ensures
            endpoint@ == teams_endpoint(*organization) + "/"@ + slug@,
    {
        let mut endpoint = HandleTeam::list_path(organization);
        endpoint.append("/");
        endpoint.append(slug);
        endpoint
    }

    /// The path of the team.
    pub fn get_endpoint(&self) -> (endpoint: String)
        ensures
            endpoint@ == self.endpoint(),
    {
        HandleTeam::path_of(&self.organization, self.slug.as_str())
    }

    /// The organization that the team belongs to.
    pub fn get_parent(&self) -> (organization: &HandleOrganization)
        ensures
            *organization == self.organization,
    {
        &self.organization
    }

    /// The slug, as the team is shown.
    pub fn to_string(&self) -> (text: String)
        ensures
            text == self.slug,
    {
        self.slug.clone()
    }

    /// The request that asks for the team with the given slug.
    pub fn fetch_request(organization: &HandleOrganization, slug: &str) -> (request: Request)
        ensures
            request@ == RequestView::plain(
                Method::Get,
                teams_endpoint(*organization) + "/"@ + slug@,
            ),
    {
        Request::new(Method::Get, HandleTeam::path_of(organization, slug), Payload::Empty)
    }

    /// The team that the service described, known by the slug that the service gave.
    pub fn try_fetch(organization: &HandleOrganization, answer: Result<Team, ClientError>) -> (fetched:
        Result<HandleTeam, HandleTeamError>)
        ensures
            fetched == match answer {
                Ok(team) => Ok::<HandleTeam, HandleTeamError>(
                    HandleTeam { organization: *organization, slug: team.slug },
                ),
                Err(error) => Err(HandleTeamError::Client(error)),
            },
    {
        match answer {
            Ok(team) => Ok(HandleTeam { organization: organization.clone(), slug: team.slug }),
            Err(error) => Err(HandleTeamError::Client(error)),
        }
    }

    /// The request for the next page of the teams of `organization`.
    pub fn fetch_all_request(organization: &HandleOrganization, pages: &Paginator) -> (request:
        Request)
        requires
            pages.page < usize::MAX,
        ensures
            request@ == RequestView::page(teams_endpoint(*organization), (pages.page + 1) as nat),
    {
        pages.next_request(HandleTeam::list_path(organization))
    }

    /// The handles of the teams that were collected, in their order.
    pub fn try_fetch_all(organization: &HandleOrganization, collected: &Vec<Team>) -> (handles:
        Vec<HandleTeam>)
        ensures
            handle_slugs(handles@) == slugs_of(collected@),
            forall|i: int|
                0 <= i < handles@.len() ==> (#[trigger] handles@[i]).organization
                    == *organization,
    {
        let mut handles: Vec<HandleTeam> = Vec::new();
        let mut i: usize = 0;
        while i < collected.len()
            invariant
                i <= collected.len(),
                handle_slugs(handles@) == slugs_of(collected@.take(i as int)),
                forall|k: int|
                    0 <= k < handles@.len() ==> (#[trigger] handles@[k]).organization
                        == *organization,
            decreases collected.len() - i,
        {
            let ghost before = handles@;
            let handle = HandleTeam {
                organization: organization.clone(),
                slug: collected[i].get_slug(),
            };
            handles.push(handle);
            i = i + 1;
            proof {
                let seen = collected@.take(i - 1);
                assert(collected@.take(i as int) == seen.push(collected@[i - 1]));
                assert(handle_slugs(before.push(handle)) =~= handle_slugs(before).push(
                    handle.slug,
                ));
                assert(slugs_of(seen.push(collected@[i - 1])) =~= slugs_of(seen).push(
                    collected@[i - 1].slug,
                ));
            }
        }
        assert(collected@.take(collected.len() as int) == collected@);
        handles
    }

    /// The request that asks for the members of the team.
    pub fn team_members_request(&self) -> (request: Request)
        ensures
            request@ == RequestView::plain(Method::Get, self.endpoint() + "/members"@),
    {
        let mut endpoint = self.get_endpoint();
        endpoint.append("/members");
        Request::new(Method::Get, endpoint, Payload::Empty)
    }

    /// The members of the team, as the service answered.
    pub fn try_get_team_members(answer: Result<Vec<User>, ClientError>) -> (members: Result<
        Vec<User>,
        HandleTeamError,
    >)
        ensures
            members == match answer {
                Ok(users) => Ok::<Vec<User>, HandleTeamError>(users),
                Err(error) => Err(HandleTeamError::Client(error)),
            },
    {
        match answer {
            Ok(users) => Ok(users),
            Err(error) => Err(HandleTeamError::Client(error)),
        }
    }

    /// Whether `member` is among the members that the service named: an
    /// account is found by its number.
    pub fn try_has_team_member(member: &User, answer: Result<Vec<User>, ClientError>) -> (has:
        Result<bool, HandleTeamError>)
        ensures
            has == match answer {
                Ok(users) => Ok::<bool, HandleTeamError>(has_member(users@, *member)),
                Err(error) => Err(HandleTeamError::Client(error)),
            },
    {
        match answer {
            Err(error) => Err(HandleTeamError::Client(error)),
            Ok(users) => {
                let mut i: usize = 0;
                while i < users.len()
                    invariant
                        i <= users.len(),
                        answer == Ok::<Vec<User>, ClientError>(users),
                        forall|k: int|
                            0 <= k < i ==> (#[trigger] users@[k]).number() != member.number(),
                    decreases users.len() - i,
                {
                    if users[i] == *member {
                        assert(users@[i as int].number() == member.number());
                        return Ok(true);
                    }
                    i = i + 1;
                }
                Ok(false)
            },
        }
    }
}

impl From<ClientError> for HandleTeamError {
    fn from(error: ClientError) -> (wrapped: HandleTeamError) {
        HandleTeamError::Client(error)
    }
}

impl vstd::std_specs::convert::FromSpecImpl<ClientError> for HandleTeamError {
    open spec fn obeys_from_spec() -> bool {
        true
    }

    open spec fn from_spec(error: ClientError) -> HandleTeamError {
        HandleTeamError::Client(error)
    }
}

impl From<HandleRepositoryError> for HandleTeamError {
    fn from(error: HandleRepositoryError) -> (wrapped: HandleTeamError) {
        HandleTeamError::Repository(error)
    }
}

impl vstd::std_specs::convert::FromSpecImpl<HandleRepositoryError> for HandleTeamError {
    open spec fn obeys_from_spec() -> bool {
        true
    }

    open spec fn from_spec(error: HandleRepositoryError) -> HandleTeamError {
        HandleTeamError::Repository(error)
    }
}

impl crate::GitHubProperties for HandleTeam {
    open spec fn path(&self) -> Seq<char> {
        self.endpoint()
    }

    fn get_endpoint(&self) -> (endpoint: String) {
        HandleTeam::get_endpoint(self)
    }
}

} // verus!
