use github_client::account::organization::HandleOrganization;
use github_client::account::Account;
use github_client::client::{
    ClientError, ClientRequestError, ClientResponseError, Method, Paginator, Payload, Request,
};
use github_client::models::common::issue::comment::Comment;
use github_client::models::common::issue::{Issue, IssueContent, IssueState};
use github_client::models::common::user::User;
use github_client::repository::issue::{
    HandleIssue, HandleIssueComment, IssueCommentError, IssueError,
};
use github_client::repository::{HandleRepository, HandleRepositoryError};

fn repository() -> HandleRepository {
    HandleRepository {
        owner: Account::Organization(HandleOrganization { name: "acme".to_string() }),
        name: "tool".to_string(),
    }
}

fn ann() -> User {
    User::User { name: "ann".to_string(), number: 11 }
}

fn content(number: usize) -> IssueContent {
    IssueContent {
        assignees: None,
        number,
        author: ann(),
        title: "Title".to_string(),
        body: "Body".to_string(),
        state: IssueState::Open,
    }
}

fn comment(number: usize) -> Comment {
    Comment { body: "text".to_string(), author: ann(), number }
}

fn issue(number: usize) -> HandleIssue {
    HandleIssue { repository: repository(), number }
}

fn not_found() -> ClientError {
    ClientError::Response(ClientResponseError::Nothing { code: 404, message: None })
}

fn unavailable() -> ClientError {
    ClientError::Request(ClientRequestError::Unavailable)
}

fn get(endpoint: &str) -> Request {
    Request {
        method: Method::Get,
        endpoint: endpoint.to_string(),
        query: Vec::new(),
        payload: Payload::Empty,
    }
}

#[test]
fn a_pull_request_is_no_issue() {
    let repository = repository();
    let secretly = Issue::from_content(true, content(7));
    assert!(secretly.is_pull_request());
    assert_eq!(
        HandleIssue::try_fetch(&repository, 7, Ok(secretly)),
        Err(IssueError::Issue { number: 7 })
    );
    let plain = Issue::from_content(false, content(7));
    assert!(plain.is_plain());
    assert_eq!(HandleIssue::try_fetch(&repository, 7, Ok(plain)), Ok(issue(7)));
    assert_eq!(
        HandleIssue::try_fetch(&repository, 7, Err(not_found())),
        Err(IssueError::Client(not_found()))
    );
    let fetched = HandleIssue::try_fetch(&repository, 7, Ok(Issue::from_content(true, content(7))));
    assert_eq!(
        HandleRepository::try_get_issue(fetched),
        Err(HandleRepositoryError::Issue(IssueError::Issue { number: 7 }))
    );
}

#[test]
fn an_issue_has_its_paths() {
    let handle = issue(7);
    assert_eq!(HandleIssue::fetch_request(&repository(), 7), get("repos/acme/tool/issues/7"));
    assert_eq!(handle.get_endpoint(), "repos/acme/tool/issues/7");
    assert_eq!(handle.to_string(), "7");
    assert_eq!(issue(0).to_string(), "0");
    assert_eq!(issue(1234567890).get_endpoint(), "repos/acme/tool/issues/1234567890");
    assert_eq!(issue(usize::MAX).to_string(), usize::MAX.to_string());
    assert_eq!(handle.get_parent(), &repository());
}

#[test]
fn pull_requests_are_left_out_of_the_list() {
    let repository = repository();
    let collected = vec![
        Issue::from_content(false, content(1)),
        Issue::from_content(true, content(2)),
        Issue::from_content(true, content(3)),
        Issue::from_content(false, content(4)),
        Issue::from_content(false, content(5)),
    ];
    assert_eq!(HandleIssue::try_fetch_all(&repository, &collected), vec![issue(1), issue(4), issue(5)]);
    assert_eq!(HandleIssue::try_fetch_all(&repository, &Vec::new()), Vec::new());
    let only = vec![Issue::from_content(true, content(2))];
    assert_eq!(HandleIssue::try_fetch_all(&repository, &only), Vec::new());
    let request = HandleIssue::fetch_all_request(&repository, &Paginator::new());
    assert_eq!(request.endpoint, "repos/acme/tool/issues");
    assert_eq!(request.query[1], ("page".to_string(), "1".to_string()));
}

#[test]
fn assignees_are_set_and_read_at_one_path() {
    let handle = issue(7);
    assert_eq!(
        handle.set_assignees_request(vec!["ann".to_string(), "bob".to_string()]),
        Request {
            method: Method::Post,
            endpoint: "repos/acme/tool/issues/7/assignees".to_string(),
            query: Vec::new(),
            payload: Payload::Assignees { assignees: vec!["ann".to_string(), "bob".to_string()] },
        }
    );
    assert_eq!(
        handle.get_assignees_request(),
        Request {
            method: Method::Post,
            endpoint: "repos/acme/tool/issues/7/assignees".to_string(),
            query: Vec::new(),
            payload: Payload::Assignees { assignees: Vec::new() },
        }
    );
    assert_eq!(HandleIssue::try_get_assignees(Ok(vec![ann()])), Ok(vec![ann()]));
    assert_eq!(HandleIssue::try_set_assignees(Ok(())), Ok(()));
    assert_eq!(
        HandleIssue::try_set_assignees(Err(unavailable())),
        Err(IssueError::Client(unavailable()))
    );
}

#[test]
fn a_comment_is_known_by_its_number() {
    let handle = issue(7);
    assert_eq!(
        HandleIssueComment::fetch_request(&handle, 99),
        get("repos/acme/tool/issues/comments/99")
    );
    let fetched = HandleIssueComment::try_fetch(&handle, 99, Ok(comment(99)));
    assert_eq!(fetched, Ok(HandleIssueComment { issue: issue(7), number: 99 }));
    let found = fetched.unwrap();
    assert_eq!(found.get_endpoint(), "repos/acme/tool/issues/comments/99");
    assert_eq!(found.to_string(), "99");
    assert_eq!(found.get_parent(), &handle);
    assert_eq!(
        HandleIssueComment::try_fetch(&handle, 99, Err(not_found())),
        Err(IssueCommentError::Nothing { number: 99 })
    );
    assert_eq!(
        HandleIssueComment::try_fetch(&handle, 99, Err(unavailable())),
        Err(IssueCommentError::Client(unavailable()))
    );
}

#[test]
fn absence_of_a_comment_is_an_answer() {
    let handle = issue(7);
    assert_eq!(
        HandleIssue::try_has_comment(HandleIssueComment::try_fetch(&handle, 99, Err(not_found()))),
        Ok(false)
    );
    assert_eq!(
        HandleIssue::try_has_comment(HandleIssueComment::try_fetch(&handle, 99, Ok(comment(99)))),
        Ok(true)
    );
    assert_eq!(
        HandleIssue::try_has_comment(HandleIssueComment::try_fetch(&handle, 99, Err(unavailable()))),
        Err(IssueError::Comment(IssueCommentError::Client(unavailable())))
    );
    assert_eq!(
        HandleIssue::try_get_comment(HandleIssueComment::try_fetch(&handle, 99, Err(not_found()))),
        Err(IssueError::Comment(IssueCommentError::Nothing { number: 99 }))
    );
    assert_eq!(HandleIssue::try_has_comments(Ok(Vec::new())), Ok(true));
    assert_eq!(
        HandleIssue::try_has_comments(Err(IssueCommentError::Nothing { number: 0 })),
        Ok(false)
    );
}

#[test]
fn comments_are_listed_until_a_short_page_or_nothing() {
    let handle = issue(7);
    let mut pages = Paginator::new();
    let mut collected: Vec<Comment> = Vec::new();
    let request = HandleIssueComment::fetch_all_request(&handle, &pages);
    assert_eq!(request.endpoint, "repos/acme/tool/issues/7/comments");
    let full: Vec<Comment> = (0..100).map(comment).collect();
    assert_eq!(HandleIssueComment::accept_page(&mut pages, &mut collected, Ok(full)), Ok(true));
    let request = HandleIssueComment::fetch_all_request(&handle, &pages);
    assert_eq!(request.query[1], ("page".to_string(), "2".to_string()));
    assert_eq!(
        HandleIssueComment::accept_page(&mut pages, &mut collected, Err(not_found())),
        Ok(false)
    );
    assert!(!pages.has_next());
    assert_eq!(collected.len(), 100);
    let handles = HandleIssueComment::try_fetch_all(&handle, &collected);
    assert_eq!(handles.len(), 100);
    assert_eq!(handles[42], HandleIssueComment { issue: issue(7), number: 42 });

    let mut pages = Paginator::new();
    let mut collected: Vec<Comment> = Vec::new();
    assert_eq!(
        HandleIssueComment::accept_page(&mut pages, &mut collected, Ok(vec![comment(1)])),
        Ok(false)
    );
    assert!(pages.finished);

    let mut pages = Paginator::new();
    assert_eq!(
        HandleIssueComment::accept_page(&mut pages, &mut collected, Err(unavailable())),
        Err(IssueCommentError::Client(unavailable()))
    );
}

#[test]
fn comments_are_made_and_deleted() {
    let handle = issue(7);
    assert_eq!(
        HandleIssueComment::create_request(&handle, "hello"),
        Request {
            method: Method::Post,
            endpoint: "repos/acme/tool/issues/7/comments".to_string(),
            query: Vec::new(),
            payload: Payload::Comment { body: "hello".to_string() },
        }
    );
    assert_eq!(
        HandleIssueComment::try_create(&handle, Ok(comment(5))),
        Ok(HandleIssueComment { issue: issue(7), number: 5 })
    );
    assert_eq!(
        HandleIssueComment::delete_request(&handle, 5),
        Request {
            method: Method::Delete,
            endpoint: "repos/acme/tool/issues/comments/5".to_string(),
            query: Vec::new(),
            payload: Payload::Empty,
        }
    );
    assert_eq!(HandleIssueComment::try_delete(Ok(())), Ok(()));
    assert_eq!(
        HandleIssue::try_delete_comment(HandleIssueComment::try_delete(Err(unavailable()))),
        Err(IssueError::Comment(IssueCommentError::Client(unavailable())))
    );
    assert_eq!(
        HandleIssue::try_create_comment(HandleIssueComment::try_create(&handle, Ok(comment(5)))),
        Ok(HandleIssueComment { issue: issue(7), number: 5 })
    );
}

#[test]
fn a_pull_request_is_told_by_the_key_alone() {
    let keys = |names: &[&str]| names.iter().map(|name| name.to_string()).collect::<Vec<String>>();
    let with = Issue::deserialize(&keys(&["number", "pull_request", "title"]), content(7));
    assert_eq!(with, Issue::PullRequest(content(7)));
    let without = Issue::deserialize(&keys(&["number", "title", "pull_requests"]), content(7));
    assert_eq!(without, Issue::Plain(content(7)));
    assert_eq!(Issue::deserialize(&Vec::new(), content(7)), Issue::Plain(content(7)));
    assert_eq!(
        HandleIssue::try_fetch(&repository(), 7, Ok(with)),
        Err(IssueError::Issue { number: 7 })
    );
}
