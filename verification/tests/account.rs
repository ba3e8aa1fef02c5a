use github_client::account::organization::actions::{AllowedActions, HandleActions};
use github_client::account::organization::team::{HandleTeam, HandleTeamError};
use github_client::account::organization::{HandleOrganization, HandleOrganizationError};
use github_client::account::user::{HandleUser, HandleUserError};
use github_client::account::{Account, AccountError};
use github_client::client::{
    ClientError, ClientRequestError, Method, Paginator, Payload, Request,
};
use github_client::models::common::team::Team;
use github_client::models::common::user::User;
use github_client::repository::HandleRepositoryError;
use github_client::{GitHubError, GitHubProperties};

fn get(endpoint: &str) -> Request {
    Request {
        method: Method::Get,
        endpoint: endpoint.to_string(),
        query: Vec::new(),
        payload: Payload::Empty,
    }
}

fn unavailable() -> ClientError {
    ClientError::Request(ClientRequestError::Unavailable)
}

fn acme() -> HandleOrganization {
    HandleOrganization { name: "acme".to_string() }
}

#[test]
fn only_organizations_and_users_are_accounts() {
    let organization = User::from_kind("Organization", "Acme".to_string(), 1).unwrap();
    assert_eq!(
        Account::try_from_name("Acme", Ok(organization)),
        Ok(Account::Organization(acme()))
    );
    let user = User::from_kind("User", "Ann".to_string(), 2).unwrap();
    assert_eq!(
        Account::try_from_name("Ann", Ok(user)),
        Ok(Account::User(HandleUser { name: "ann".to_string() }))
    );
    let bot = User::from_kind("Bot", "helper[bot]".to_string(), 3).unwrap();
    assert!(bot.is_bot());
    assert_eq!(
        Account::try_from_name("helper[bot]", Ok(bot.clone())),
        Err(AccountError::Unsupported { account: bot })
    );
    let mannequin = User::from_kind("Mannequin", "ghost".to_string(), 4).unwrap();
    assert!(mannequin.is_mannequin());
    assert_eq!(
        Account::try_from_name("ghost", Ok(mannequin.clone())),
        Err(AccountError::Unsupported { account: mannequin })
    );
    assert_eq!(
        Account::try_from_name("acme", Err(unavailable())),
        Err(AccountError::Client(unavailable()))
    );
    assert_eq!(User::from_kind("Robot", "x".to_string(), 5), None);
    assert_eq!(User::from_kind("bot", "x".to_string(), 5), None);
}

#[test]
fn an_account_is_asked_for_by_its_name() {
    assert_eq!(Account::from_name_request("Acme"), get("users/Acme"));
    assert_eq!(Account::owner_of("acme/tool"), "acme");
    assert_eq!(Account::owner_of("acme"), "acme");
    assert_eq!(Account::owner_of("acme/tool/issues"), "acme");
    assert_eq!(Account::owner_of("/tool"), "");
}

#[test]
fn accounts_have_their_paths() {
    let organization = Account::Organization(acme());
    let user = Account::User(HandleUser { name: "ann".to_string() });
    assert_eq!(organization.get_endpoint(), "orgs/acme");
    assert_eq!(user.get_endpoint(), "users/ann");
    assert_eq!(organization.to_string(), "acme");
    assert_eq!(user.to_string(), "ann");
    assert_eq!(organization.get_properties_request(), get("orgs/acme"));
    assert_eq!(user.set_properties_request().method, Method::Patch);
    assert_eq!(user.set_properties_request().payload, Payload::Supplied);
    assert_eq!(acme().content_request(), get("orgs/acme"));
    assert_eq!(HandleUser { name: "ann".to_string() }.content_request(), get("users/ann"));
    assert_eq!(
        Account::try_get_properties(Err(unavailable())),
        Err(AccountError::Repository(HandleRepositoryError::Client(unavailable())))
    );
    assert_eq!(Account::try_set_properties(Ok(())), Ok(()));
}

#[test]
fn an_account_of_the_other_kind_is_refused_with_its_description() {
    let organization = Account::Organization(acme());
    let user = Account::User(HandleUser { name: "ann".to_string() });
    assert_eq!(organization.clone().as_organization(), Ok(acme()));
    assert_eq!(user.clone().as_organization(), Err(user.clone()));
    assert_eq!(user.clone().as_user(), Ok(HandleUser { name: "ann".to_string() }));
    assert_eq!(organization.clone().as_user(), Err(organization.clone()));
    let described = User::User { name: "ann".to_string(), number: 2 };
    assert_eq!(
        Account::not_an_organization(Ok(described.clone())),
        GitHubError::Account(AccountError::Organization(HandleOrganizationError::Organization {
            account: described.clone()
        }))
    );
    assert_eq!(
        Account::not_a_user(Ok(described.clone())),
        GitHubError::Account(AccountError::User(HandleUserError::User { account: described }))
    );
    assert_eq!(
        Account::not_a_user(Err(AccountError::Client(unavailable()))),
        GitHubError::Account(AccountError::Client(unavailable()))
    );
}

fn team(slug: &str, number: usize) -> Team {
    Team {
        name: slug.to_uppercase(),
        description: String::new(),
        slug: slug.to_string(),
        number,
    }
}

#[test]
fn teams_are_known_by_their_slug() {
    let organization = acme();
    assert_eq!(HandleTeam::fetch_request(&organization, "core"), get("orgs/acme/teams/core"));
    let handle = HandleTeam::try_fetch(&organization, Ok(team("core", 1))).unwrap();
    assert_eq!(handle, HandleTeam { organization: acme(), slug: "core".to_string() });
    assert_eq!(handle.get_endpoint(), "orgs/acme/teams/core");
    assert_eq!(handle.to_string(), "core");
    assert_eq!(handle.get_parent(), &organization);
    assert_eq!(handle.team_members_request(), get("orgs/acme/teams/core/members"));
    assert_eq!(
        HandleTeam::try_fetch(&organization, Err(unavailable())),
        Err(HandleTeamError::Client(unavailable()))
    );
    let request = HandleTeam::fetch_all_request(&organization, &Paginator::new());
    assert_eq!(request.endpoint, "orgs/acme/teams");
    let handles = HandleTeam::try_fetch_all(&organization, &vec![team("core", 1), team("docs", 2)]);
    assert_eq!(
        handles,
        vec![
            HandleTeam { organization: acme(), slug: "core".to_string() },
            HandleTeam { organization: acme(), slug: "docs".to_string() },
        ]
    );
    assert_eq!(
        HandleOrganization::try_get_team(Err(HandleTeamError::Client(unavailable()))),
        Err(HandleOrganizationError::Team(HandleTeamError::Client(unavailable())))
    );
    assert_eq!(HandleOrganization::try_is_verified(Ok(true)), Ok(true));
}

#[test]
fn a_member_is_found_by_its_number() {
    let members = vec![
        User::User { name: "ann".to_string(), number: 11 },
        User::User { name: "bob".to_string(), number: 12 },
    ];
    let renamed = User::User { name: "ann-new".to_string(), number: 11 };
    let other = User::User { name: "ann".to_string(), number: 13 };
    assert_eq!(HandleTeam::try_has_team_member(&renamed, Ok(members.clone())), Ok(true));
    assert_eq!(HandleTeam::try_has_team_member(&other, Ok(members.clone())), Ok(false));
    assert_eq!(HandleTeam::try_has_team_member(&other, Ok(Vec::new())), Ok(false));
    assert_eq!(
        HandleTeam::try_has_team_member(&other, Err(unavailable())),
        Err(HandleTeamError::Client(unavailable()))
    );
    assert_eq!(HandleTeam::try_get_team_members(Ok(members.clone())), Ok(members));
}

fn strings(items: &[&str]) -> Vec<String> {
    items.iter().map(|item| item.to_string()).collect()
}

fn current() -> AllowedActions {
    AllowedActions { verified: true, native: false, list: strings(&["b/*", "a/*"]) }
}

#[test]
fn allowed_patterns_are_written_in_order_and_once() {
    let actions = acme().get_actions();
    assert_eq!(actions, HandleActions { organization: acme() });
    assert_eq!(actions.get_request(), get("orgs/acme/actions/permissions/selected-actions"));
    let request = actions.try_set_allow_list(&strings(&["z/x", "a/b", "z/x", "m/*", "a/b", "A/b"]), current());
    assert_eq!(
        request,
        Request {
            method: Method::Put,
            endpoint: "orgs/acme/actions/permissions/selected-actions".to_string(),
            query: Vec::new(),
            payload: Payload::Actions {
                verified: true,
                native: false,
                list: strings(&["A/b", "a/b", "m/*", "z/x"]),
            },
        }
    );
    let request = actions.try_set_allow_list(&Vec::new(), current());
    assert_eq!(
        request.payload,
        Payload::Actions { verified: true, native: false, list: Vec::new() }
    );
}

#[test]
fn added_patterns_join_those_allowed_now() {
    let actions = acme().get_actions();
    let request = actions.try_add_allow_list(&strings(&["c/*", "a/*", "0/*"]), current());
    assert_eq!(
        request.payload,
        Payload::Actions { verified: true, native: false, list: strings(&["0/*", "a/*", "b/*", "c/*"]) }
    );
    let request = actions.try_add_allow_list(&Vec::new(), current());
    assert_eq!(
        request.payload,
        Payload::Actions { verified: true, native: false, list: strings(&["a/*", "b/*"]) }
    );
}

#[test]
fn patterns_are_ordered_as_std_sorts_them() {
    let items = strings(&["é", "e", "", "Z", "a", "aa", "a", "ab", "10", "9", "é", "\u{10000}", "\u{ffff}"]);
    let mut expected = items.clone();
    expected.sort();
    expected.dedup();
    let request = acme().get_actions().try_set_allow_list(&items, current());
    assert_eq!(
        request.payload,
        Payload::Actions { verified: true, native: false, list: expected }
    );
}

#[test]
fn switches_keep_the_rest_as_it_is() {
    let actions = acme().get_actions();
    assert_eq!(
        actions.try_set_allow_native(true, current()).payload,
        Payload::Actions { verified: true, native: true, list: strings(&["b/*", "a/*"]) }
    );
    assert_eq!(
        actions.try_set_allow_verified(false, current()).payload,
        Payload::Actions { verified: false, native: false, list: strings(&["b/*", "a/*"]) }
    );
    assert_eq!(HandleActions::try_get_allow_list(Ok(current())), Ok(strings(&["b/*", "a/*"])));
    assert_eq!(HandleActions::try_get_allow_native(Ok(current())), Ok(false));
    assert_eq!(HandleActions::try_get_allow_verified(Ok(current())), Ok(true));
    assert_eq!(HandleActions::try_get_allow_verified(Err(unavailable())), Err(unavailable()));
}
