//! Accounts: the owners of repositories.
use crate::account::organization::{HandleOrganization, HandleOrganizationError};
use crate::account::user::{HandleUser, HandleUserError};
use crate::client::{ClientError, Method, Payload, PayloadView, Request, RequestView};
use crate::models::common::user::{User, UserKind};
use crate::repository::{HandleRepository, HandleRepositoryError};
use crate::text::{chars_of, joined, lowercase_of, split_chars, split_on, string_of, views};
use crate::GitHubError;
use vstd::prelude::*;

pub mod organization;
pub mod user;

verus! {

/// Why an account could not be had.
#[derive(Debug, PartialEq, Eq)]
pub enum AccountError {
    Client(ClientError),
    Repository(HandleRepositoryError),
    Organization(HandleOrganizationError),
    User(HandleUserError),
    /// The account is neither an organization nor a user.
    Unsupported { account: User },
}

/// An owner of repositories: an organization or a user.
#[derive(Debug, PartialEq, Eq)]
pub enum Account {
    Organization(HandleOrganization),
    User(HandleUser),
}

impl Clone for Account {
    fn clone(&self) -> (account: Account)
        ensures
            account == *self,
    {
        match self {
            Account::Organization(organization) => Account::Organization(organization.clone()),
            Account::User(user) => Account::User(user.clone()),
        }
    }
}

impl Account {
    /// The login of the account.
    pub open spec fn name(&self) -> Seq<char> {
        match *self {
            Account::Organization(organization) => organization.name@,
            Account::User(user) => user.name@,
        }
    }

    /// The path of the account.
    pub open spec fn endpoint(&self) -> Seq<char> {
        match *self {
            Account::Organization(organization) => organization.endpoint(),
            Account::User(user) => user.endpoint(),
        }
    }

    /// The request that asks the service to describe the account named `name`.
    pub fn from_name_request(name: &str) -> (request: Request)
        ensures
            request@ == (RequestView {
                method: Method::Get,
                endpoint: "users/"@ + name@,
                query: Seq::empty(),
                payload: PayloadView::Empty,
            }),
    {
        Request::new(Method::Get, joined("users/", name), Payload::Empty)
    }

    /// The account that the service's description stands for. An organization
    /// and a user give a handle, known by the name in lower case; a mannequin
    /// and a bot are refused, with their description.
    pub fn try_from_name(name: &str, described: Result<User, ClientError>) -> (account: Result<
        Account,
        AccountError,
    >)
        ensures
            match described {
                Err(error) => account == Err::<Account, AccountError>(AccountError::Client(error)),
                Ok(user) => match user.kind() {
                    UserKind::Organization => account matches Ok(Account::Organization(handle))
                        && handle.name@ == lowercase_of(name@),
                    UserKind::User => account matches Ok(Account::User(handle)) && handle.name@
                        == lowercase_of(name@),
                    _ => account == Err::<Account, AccountError>(
                        AccountError::Unsupported { account: user },
                    ),
                },
            },
    {
        match described {
            Err(error) => Err(AccountError::Client(error)),
            Ok(user) => match user {
                User::Organization { .. } => Ok(
                    Account::Organization(HandleOrganization { name: name.to_lowercase() }),
                ),
                User::User { .. } => Ok(Account::User(HandleUser { name: name.to_lowercase() })),
                _ => Err(AccountError::Unsupported { account: user }),
            },
        }
    }

    /// The path of the account.
    pub fn get_endpoint(&self) -> (endpoint: String)
        ensures
            endpoint@ == self.endpoint(),
    {
        match self {
            Account::Organization(organization) => organization.get_endpoint(),
            Account::User(user) => user.get_endpoint(),
        }
    }

    /// The login, as the account is shown.
    pub fn to_string(&self) -> (text: String)
        ensures
            text@ == self.name(),
    {
        match self {
            Account::Organization(organization) => organization.to_string(),
            Account::User(user) => user.to_string(),
        }
    }
}

/// The owner in what a caller gives for an account or a repository: the
/// text before the first `/`, and the whole text where there is none.
pub open spec fn owner_name(name: Seq<char>) -> Seq<char> {
    split_on(name, '/')[0]
}

impl Account {
    /// The owner in what a caller gives for an account or a repository.
    pub fn owner_of(name: &str) -> (owner: String)
        ensures
            owner@ == owner_name(name@),
    {
        let text = chars_of(name);
        let pieces = split_chars(&text, '/');
        assert(views(pieces@)[0] == pieces@[0]@);
        string_of(&pieces[0])
    }

    /// The request that asks what the service knows of the account.
    pub fn get_properties_request(&self) -> (request: Request)
        ensures
            request@ == RequestView::plain(Method::Get, self.endpoint()),
    {
        Request::new(Method::Get, self.get_endpoint(), Payload::Empty)
    }

    /// What the service knows of the account, as it answered. A failure of
    /// the transport is reported as one of reading a resource.
    pub fn try_get_properties(answer: Result<User, ClientError>) -> (properties: Result<
        User,
        AccountError,
    >)
        ensures
            properties == match answer {
                Ok(user) => Ok::<User, AccountError>(user),
                Err(error) => Err(
                    AccountError::Repository(HandleRepositoryError::Client(error)),
                ),
            },
    {
        match answer {
            Ok(user) => Ok(user),
            Err(error) => Err(AccountError::Repository(HandleRepositoryError::Client(error))),
        }
    }

    /// The request that changes the account by what the caller supplies.
    pub fn set_properties_request(&self) -> (request: Request)
        ensures
            request@ == RequestView::with_payload(
                Method::Patch,
                self.endpoint(),
                PayloadView::Supplied,
            ),
    {
        Request::new(Method::Patch, self.get_endpoint(), Payload::Supplied)
    }

    /// What a change of the account came to.
    pub fn try_set_properties(answer: Result<(), ClientError>) -> (changed: Result<
        (),
        AccountError,
    >)
        ensures
            changed == match answer {
                Ok(()) => Ok::<(), AccountError>(()),
                Err(error) => Err(
                    AccountError::Repository(HandleRepositoryError::Client(error)),
                ),
            },
    {
        match answer {
            Ok(()) => Ok(()),
            Err(error) => Err(AccountError::Repository(HandleRepositoryError::Client(error))),
        }
    }

    /// The repository that was fetched, or why there is none.
    pub fn try_get_repository(fetched: Result<HandleRepository, HandleRepositoryError>) -> (repository:
        Result<HandleRepository, AccountError>)
        ensures
            repository == match fetched {
                Ok(handle) => Ok::<HandleRepository, AccountError>(handle),
                Err(error) => Err(AccountError::Repository(error)),
            },
    {
        match fetched {
            Ok(handle) => Ok(handle),
            Err(error) => Err(AccountError::Repository(error)),
        }
    }

    /// The repositories of the account, made of the names that were collected.
    pub fn try_get_all_repositories(&self, collected: Vec<String>) -> (handles: Vec<
        HandleRepository,
    >)
        ensures
            crate::repository::repository_names(handles@) == crate::text::texts(collected@),
            forall|i: int| 0 <= i < handles@.len() ==> (#[trigger] handles@[i]).owner == *self,
    {
        HandleRepository::try_fetch_all(self, collected)
    }

    /// The organization that the account is, or the account itself where it is none.
    pub fn as_organization(self) -> (organization: Result<HandleOrganization, Account>)
        ensures
            organization == match self {
                Account::Organization(handle) => Ok::<HandleOrganization, Account>(handle),
                Account::User(_) => Err(self),
            },
    {
        match self {
            Account::Organization(handle) => Ok(handle),
            Account::User(handle) => Err(Account::User(handle)),
        }
    }

    /// The user that the account is, or the account itself where it is none.
    pub fn as_user(self) -> (user: Result<HandleUser, Account>)
        ensures
            user == match self {
                Account::User(handle) => Ok::<HandleUser, Account>(handle),
                Account::Organization(_) => Err(self),
            },
    {
        match self {
            Account::User(handle) => Ok(handle),
            Account::Organization(handle) => Err(Account::Organization(handle)),
        }
    }

    /// Why an account that is no organization is refused as one: with its
    /// description where the service gave it, and else with why it gave none.
    pub fn not_an_organization(described: Result<User, AccountError>) -> (error: GitHubError)
        ensures
            error == match described {
                Ok(account) => GitHubError::Account(
                    AccountError::Organization(HandleOrganizationError::Organization { account }),
                ),
                Err(error) => GitHubError::Account(error),
            },
    {
        match described {
            Ok(account) => GitHubError::Account(
                AccountError::Organization(HandleOrganizationError::Organization { account }),
            ),
            Err(error) => GitHubError::Account(error),
        }
    }

    /// Why an account that is no user is refused as one: with its
    /// description where the service gave it, and else with why it gave none.
    pub fn not_a_user(described: Result<User, AccountError>) -> (error: GitHubError)
        ensures
            error == match described {
                Ok(account) => GitHubError::Account(
                    AccountError::User(HandleUserError::User { account }),
                ),
                Err(error) => GitHubError::Account(error),
            },
    {
        match described {
            Ok(account) => GitHubError::Account(
                AccountError::User(HandleUserError::User { account }),
            ),
            Err(error) => GitHubError::Account(error),
        }
    }
}

impl From<ClientError> for AccountError {
    fn from(error: ClientError) -> (wrapped: AccountError) {
        AccountError::Client(error)
    }
}

impl vstd::std_specs::convert::FromSpecImpl<ClientError> for AccountError {
    open spec fn obeys_from_spec() -> bool {
        true
    }

    open spec fn from_spec(error: ClientError) -> AccountError {
        AccountError::Client(error)
    }
}

impl From<HandleRepositoryError> for AccountError {
    fn from(error: HandleRepositoryError) -> (wrapped: AccountError) {
        AccountError::Repository(error)
    }
}

impl vstd::std_specs::convert::FromSpecImpl<HandleRepositoryError> for AccountError {
    open spec fn obeys_from_spec() -> bool {
        true
    }

    open spec fn from_spec(error: HandleRepositoryError) -> AccountError {
        AccountError::Repository(error)
    }
}

impl From<HandleOrganizationError> for AccountError {
    fn from(error: HandleOrganizationError) -> (wrapped: AccountError) {
        AccountError::Organization(error)
    }
}

impl vstd::std_specs::convert::FromSpecImpl<HandleOrganizationError> for AccountError {
    open spec fn obeys_from_spec() -> bool {
        true
    }

    open spec fn from_spec(error: HandleOrganizationError) -> AccountError {
        AccountError::Organization(error)
    }
}

impl From<HandleUserError> for AccountError {
    fn from(error: HandleUserError) -> (wrapped: AccountError) {
        AccountError::User(error)
    }
}

impl vstd::std_specs::convert::FromSpecImpl<HandleUserError> for AccountError {
    open spec fn obeys_from_spec() -> bool {
        true
    }

    open spec fn from_spec(error: HandleUserError) -> AccountError {
        AccountError::User(error)
    }
}

} // verus!
