use github_client::common::Date;
use github_client::models::common::commit::{
    Commit, CommitAuthor, CommitVerification, MissingField, VerificationParts,
};
use github_client::models::common::issue::comment::Comment;
use github_client::models::common::issue::{Issue, IssueContent, IssueState};
use github_client::models::common::repository::{Repository, Security, Status, Visibility};
use github_client::models::common::team::Team;
use github_client::models::common::user::User;
use github_client::models::events::{Event, EventIssue, EventIssueComment};
use github_client::repository::properties::{RepositoryProperties, SecurityProperties};
use github_client::repository::sha::Sha;

fn ann() -> User {
    User::User { name: "ann".to_string(), number: 11 }
}

fn content() -> IssueContent {
    IssueContent {
        assignees: None,
        number: 7,
        author: ann(),
        title: "Title".to_string(),
        body: "Body".to_string(),
        state: IssueState::Open,
    }
}

#[test]
fn users_are_equal_by_number() {
    let renamed = User::Bot { name: "other".to_string(), number: 11 };
    assert_eq!(ann(), renamed);
    assert_ne!(ann(), User::User { name: "ann".to_string(), number: 12 });
    assert_eq!(ann().get_name(), "ann");
    assert_eq!(ann().get_number(), 11);
    assert_eq!(ann().to_string(), "ann");
    assert_eq!(ann().as_ref(), "ann");
    assert!(ann().is_user() && !ann().is_bot() && !ann().is_organization() && !ann().is_mannequin());
    assert!(User::Organization { name: "acme".to_string(), number: 1 }.is_organization());
    let copy = ann().clone();
    assert_eq!(copy.get_name(), "ann");
}

#[test]
fn teams_are_equal_by_number_and_slug() {
    let team = Team {
        name: "Core".to_string(),
        description: "The core".to_string(),
        slug: "core".to_string(),
        number: 1,
    };
    let renamed = Team { name: "Kernel".to_string(), description: String::new(), ..team.clone() };
    assert_eq!(team, renamed);
    assert_ne!(team, Team { slug: "kernel".to_string(), ..team.clone() });
    assert_ne!(team, Team { number: 2, ..team.clone() });
    assert_eq!(team.get_name(), "Core");
    assert_eq!(team.get_description(), "The core");
    assert_eq!(team.get_slug(), "core");
    assert_eq!(team.get_number(), 1);
    assert_eq!(team.to_string(), "core");
    assert_eq!(team.as_ref(), "core");
}

#[test]
fn issue_states_are_told_apart() {
    assert!(IssueState::Open.is_open() && !IssueState::Open.is_closed());
    assert!(IssueState::Closed.is_closed() && !IssueState::Closed.is_open());
}

#[test]
fn an_issue_is_changed_field_by_field() {
    let mut issue = content();
    assert_eq!(issue.get_number(), 7);
    assert_eq!(issue.get_author(), ann());
    assert_eq!(issue.get_title(), "Title");
    assert_eq!(issue.get_body(), "Body");
    assert_eq!(issue.get_state(), IssueState::Open);
    assert_eq!(issue.get_assignees(), Vec::new());
    assert!(issue.is_open() && !issue.is_closed());
    issue.set_title("New");
    issue.set_body("Text");
    issue.set_state(IssueState::Closed);
    issue.set_assignees(&vec![ann()]);
    assert_eq!(
        issue,
        IssueContent {
            assignees: Some(vec![ann()]),
            number: 7,
            author: ann(),
            title: "New".to_string(),
            body: "Text".to_string(),
            state: IssueState::Closed,
        }
    );
    assert_eq!(issue.get_assignees(), vec![ann()]);
    issue.open();
    assert!(issue.is_open());
    issue.close();
    assert!(issue.is_closed());
    assert_eq!(issue.to_string(), "7");
    let built = content()
        .with_title("New")
        .with_body("Text")
        .with_state(IssueState::Open)
        .with_assignees(&vec![ann()])
        .as_closed();
    assert_eq!(built, issue);
    assert_eq!(built.clone().as_open().get_state(), IssueState::Open);
    assert_eq!(built.clone(), built);
}

#[test]
fn an_issue_is_a_pull_request_if_it_came_with_that_entry() {
    let pull = Issue::from_content(true, content());
    let plain = Issue::from_content(false, content());
    assert_eq!(pull, Issue::PullRequest(content()));
    assert_eq!(plain, Issue::Plain(content()));
    assert!(pull.is_pull_request() && !pull.is_plain());
    assert!(plain.is_plain() && !plain.is_pull_request());
    assert_eq!(pull.get_author(), ann());
    assert_eq!(plain.get_state(), IssueState::Open);
    assert!(plain.is_open() && !plain.is_closed());
    assert_eq!(pull.deref(), &content());
    assert_eq!(plain.to_string(), "7");
}

#[test]
fn a_comment_is_changed_by_its_body() {
    let mut comment = Comment { body: "old".to_string(), author: ann(), number: 5 };
    assert_eq!(comment.get_author(), ann());
    assert_eq!(comment.get_number(), 5);
    assert_eq!(comment.get_body(), "old");
    comment.set_body("new");
    assert_eq!(comment.get_body(), "new");
    assert_eq!(comment.clone().with_body("newer").get_body(), "newer");
    assert_eq!(comment.to_string(), "5");
}

#[test]
fn a_verification_travels_in_three_entries() {
    let signed = CommitVerification::Signed { signature: "sig".to_string(), payload: "pay".to_string() };
    assert!(signed.is_verified());
    assert!(!CommitVerification::Unsigned.is_verified());
    assert_eq!(
        signed.serialize(),
        VerificationParts {
            verified: true,
            signature: Some("sig".to_string()),
            payload: Some("pay".to_string())
        }
    );
    assert_eq!(
        CommitVerification::Unsigned.serialize(),
        VerificationParts { verified: false, signature: None, payload: None }
    );
    assert_eq!(CommitVerification::deserialize(signed.serialize()), Ok(signed.clone()));
    assert_eq!(
        CommitVerification::deserialize(CommitVerification::Unsigned.serialize()),
        Ok(CommitVerification::Unsigned)
    );
    assert_eq!(
        CommitVerification::deserialize(VerificationParts {
            verified: false,
            signature: Some("sig".to_string()),
            payload: None
        }),
        Ok(CommitVerification::Unsigned)
    );
    assert_eq!(
        CommitVerification::deserialize(VerificationParts {
            verified: true,
            signature: None,
            payload: Some("pay".to_string())
        }),
        Err(MissingField::Signature)
    );
    assert_eq!(
        CommitVerification::deserialize(VerificationParts {
            verified: true,
            signature: None,
            payload: None
        }),
        Err(MissingField::Signature)
    );
    assert_eq!(
        CommitVerification::deserialize(VerificationParts {
            verified: true,
            signature: Some("sig".to_string()),
            payload: None
        }),
        Err(MissingField::Payload)
    );
}

#[test]
fn a_commit_is_described_by_author_verification_and_parents() {
    let author = CommitAuthor {
        email: "ann@example.org".to_string(),
        name: "Ann".to_string(),
        date: Date { seconds: 1, nanoseconds: 2 },
    };
    assert_eq!(author.get_name(), "Ann");
    assert_eq!(author.get_email(), "ann@example.org");
    assert_eq!(author.get_date(), Date { seconds: 1, nanoseconds: 2 });
    let commit =
        Commit::deserialize(author.clone(), CommitVerification::Unsigned, vec![Sha::new("first")]);
    assert_eq!(
        commit,
        Commit { author, verified: CommitVerification::Unsigned, parents: vec![Sha::new("first")] }
    );
}

#[test]
fn security_features_are_switched_one_by_one() {
    assert_eq!(
        Security::new(),
        Security {
            advanced_security: Status::Disabled,
            secret_scanning_push_protection: Status::Disabled,
            secret_scanning: Status::Disabled,
        }
    );
    assert_eq!(Security::default(), Security::new());
    assert_eq!(
        Security::new().with_advanced_security(true).with_secret_scanning(true),
        Security {
            advanced_security: Status::Enabled,
            secret_scanning_push_protection: Status::Disabled,
            secret_scanning: Status::Enabled,
        }
    );
    assert_eq!(
        Security::new().with_secret_scanning_push_protection(true).with_secret_scanning_push_protection(false),
        Security::new()
    );
    assert_eq!(Status::from(true), Status::Enabled);
    assert_eq!(Status::from(false), Status::Disabled);
    assert_eq!(Status::default(), Status::Disabled);
    assert_eq!(
        SecurityProperties::new().with_secret_scanning_push_protection(true),
        SecurityProperties {
            advanced_security: github_client::repository::properties::Status::Disabled,
            secret_scanning_push_protection: github_client::repository::properties::Status::Enabled,
            secret_scanning: github_client::repository::properties::Status::Disabled,
        }
    );
}

fn described() -> Repository {
    Repository {
        name: "tool".to_string(),
        description: "A tool".to_string(),
        homepage: "https://example.org".to_string(),
        owner: User::Organization { name: "acme".to_string(), number: 1 },
        default_branch: "main".to_string(),
        visibility: Visibility::Public,
        template: false,
        private: false,
        issues: true,
        projects: false,
        wiki: false,
        downloads: true,
        security: None,
        forking: true,
        signoff: false,
        archived: false,
        date_created: Some(Date { seconds: 1, nanoseconds: 0 }),
        date_updated: None,
        date_pushed: None,
    }
}

#[test]
fn a_repository_is_described_and_changed() {
    let mut repository = described();
    assert_eq!(repository.get_name(), "tool");
    assert_eq!(repository.get_description(), "A tool");
    assert_eq!(repository.get_homepage(), "https://example.org");
    assert_eq!(repository.get_owner().get_name(), "acme");
    assert_eq!(repository.get_default_branch(), "main");
    assert_eq!(repository.get_visibility(), Visibility::Public);
    assert!(repository.has_issues() && repository.has_downloads() && repository.has_forking());
    assert!(!repository.has_template() && !repository.has_private() && !repository.has_projects());
    assert!(!repository.has_wiki() && !repository.has_signoff() && !repository.has_archived());
    assert_eq!(repository.get_security(), None);
    assert_eq!(repository.get_date_created(), Some(Date { seconds: 1, nanoseconds: 0 }));
    assert_eq!(repository.get_date_updated(), None);
    assert_eq!(repository.get_date_pushed(), None);
    assert_eq!(repository.to_string(), "tool");

    repository.set_default_branch("trunk".to_string());
    repository.set_visibility(Visibility::Internal);
    repository.set_template(true);
    repository.set_private(true);
    repository.set_issues(false);
    repository.set_projects(true);
    repository.set_wiki(true);
    repository.set_downloads(false);
    repository.set_security(Some(Security::new()));
    repository.set_forking(false);
    repository.set_signoff(true);
    repository.set_archived(true);
    let built = described()
        .with_default_branch("trunk".to_string())
        .with_visibility(Visibility::Internal)
        .with_template(true)
        .with_private(true)
        .with_issues(false)
        .with_projects(true)
        .with_wiki(true)
        .with_downloads(false)
        .with_security(Some(Security::new()))
        .with_forking(false)
        .with_signoff(true)
        .with_archived(true);
    assert_eq!(repository, built);
    assert_eq!(repository.clone(), built);
    let renamed = built
        .with_name("kit".to_string())
        .with_description("A kit".to_string())
        .with_homepage(String::new());
    assert_eq!(renamed.get_name(), "kit");
    assert_eq!(renamed.get_description(), "A kit");
    assert_eq!(renamed.get_homepage(), "");
    assert_eq!(renamed.get_default_branch(), "trunk");
    assert!(renamed.has_archived());
}

#[test]
fn properties_are_what_the_service_answered() {
    let properties = RepositoryProperties {
        name: "tool".to_string(),
        description: String::new(),
        homepage: String::new(),
        owner: User::Organization { name: "acme".to_string(), number: 1 },
        default_branch: "main".to_string(),
        visibility: github_client::repository::properties::Visibility::Private,
        template: false,
        private: true,
        issues: true,
        projects: false,
        wiki: false,
        downloads: true,
        security: Some(SecurityProperties::new().with_advanced_security(true)),
        forking: false,
        signoff: false,
        archived: false,
        date_created: None,
        date_updated: None,
        date_pushed: None,
    };
    assert_eq!(RepositoryProperties::build_from(Ok(properties.clone())), Ok(properties.clone()));
    assert!(properties.has_private());
    assert_eq!(properties.clone().with_private(false).has_private(), false);
    assert_eq!(properties.get_default_branch(), "main");
}

#[test]
fn events_tell_of_their_issue_and_comment() {
    let issue = Issue::from_content(false, content());
    let comment = Comment { body: "text".to_string(), author: ann(), number: 5 };
    for event in [
        EventIssue::Opened { issue: Issue::from_content(false, content()) },
        EventIssue::Closed { issue: Issue::from_content(false, content()) },
        EventIssue::Edited { issue: Issue::from_content(false, content()) },
        EventIssue::Reopened { issue: Issue::from_content(false, content()) },
        EventIssue::Deleted { issue: Issue::from_content(true, content()) },
    ] {
        assert_eq!(event.get_state(), IssueState::Open);
        assert_eq!(event.get_author(), ann());
        assert_eq!(event.get_body(), "Body");
        assert_eq!(event.get_number(), 7);
    }
    let event = EventIssueComment::Created { issue, comment };
    assert_eq!(event.get_issue_number(), 7);
    assert_eq!(event.get_issue_comment_number(), 5);
    assert_ne!(Event::IssueComment(event), Event::Schedule);
}
