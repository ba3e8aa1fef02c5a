use github_client::account::organization::HandleOrganization;
use github_client::account::user::HandleUser;
use github_client::account::Account;
use github_client::client::{
    ClientError, ClientRequestError, ClientResponseError, Encoding, Method, Paginator, Payload,
    Request,
};
use github_client::common::Date;
use github_client::repository::blob::Blob;
use github_client::repository::commit::{
    CommitError, CommitStamp, Compare, CompareError, CompareFile, HandleCommit,
};
use github_client::repository::reference::{HandleReference, ReferenceError};
use github_client::repository::sha::Sha;
use github_client::repository::tree::{Tree, TreeEntry, TreeError};
use github_client::repository::{HandleRepository, HandleRepositoryError};
use github_client::GitHubProperties;

fn owner() -> Account {
    Account::Organization(HandleOrganization { name: "acme".to_string() })
}

fn repository() -> HandleRepository {
    HandleRepository { owner: owner(), name: "tool".to_string() }
}

fn get(endpoint: &str) -> Request {
    Request {
        method: Method::Get,
        endpoint: endpoint.to_string(),
        query: Vec::new(),
        payload: Payload::Empty,
    }
}

fn not_found() -> ClientError {
    ClientError::Response(ClientResponseError::Nothing { code: 404, message: None })
}

fn unavailable() -> ClientError {
    ClientError::Request(ClientRequestError::Unavailable)
}

fn date() -> Date {
    Date { seconds: 1_700_000_000, nanoseconds: 5 }
}

fn commit(sha: &str) -> HandleCommit {
    HandleCommit { repository: repository(), date: date(), sha: Sha::new(sha) }
}

#[test]
fn the_short_name_follows_the_owner() {
    assert_eq!(HandleRepository::short_name_of("tool"), "tool");
    assert_eq!(HandleRepository::short_name_of("acme/tool"), "tool");
    assert_eq!(HandleRepository::short_name_of("acme/tool/issues/7"), "tool");
    assert_eq!(HandleRepository::short_name_of("acme/"), "");
    assert_eq!(HandleRepository::short_name_of(""), "");
}

#[test]
fn a_repository_is_known_by_owner_and_short_name() {
    assert_eq!(HandleRepository::fetch_request(&owner(), "acme/tool/pulls"), get("repos/acme/tool"));
    assert_eq!(HandleRepository::fetch_request(&owner(), "tool"), get("repos/acme/tool"));
    let handle = HandleRepository::try_fetch(&owner(), "acme/tool/pulls", Ok(())).unwrap();
    assert_eq!(handle, repository());
    assert_eq!(handle.to_string(), "acme/tool");
    assert_eq!(handle.get_endpoint(), "repos/acme/tool");
    assert_eq!(handle.get_parent(), &owner());
    assert_eq!(
        HandleRepository::try_fetch(&owner(), "tool", Err(not_found())),
        Err(HandleRepositoryError::Client(not_found()))
    );
    let user = Account::User(HandleUser { name: "ann".to_string() });
    assert_eq!(HandleRepository::fetch_request(&user, "notes"), get("repos/ann/notes"));
}

#[test]
fn repositories_are_listed_page_by_page() {
    let mut pages = Paginator::new();
    let request = HandleRepository::fetch_all_request(&owner(), &pages);
    assert_eq!(request.endpoint, "users/acme/repos");
    assert_eq!(
        request.query,
        vec![("per_page".to_string(), "100".to_string()), ("page".to_string(), "1".to_string())]
    );
    let mut names: Vec<String> = Vec::new();
    assert!(!pages.accept(&mut names, vec!["tool".to_string(), "site".to_string()]));
    let handles = HandleRepository::try_fetch_all(&owner(), names);
    assert_eq!(
        handles,
        vec![repository(), HandleRepository { owner: owner(), name: "site".to_string() }]
    );
}

#[test]
fn snapshots_and_workflows_have_their_paths() {
    let repository = repository();
    assert_eq!(
        repository.submit_dependency_snapshot_request(),
        Request {
            method: Method::Post,
            endpoint: "repos/acme/tool/dependency-graph/snapshots".to_string(),
            query: Vec::new(),
            payload: Payload::Supplied,
        }
    );
    assert_eq!(
        repository.active_workflows_request(),
        Request {
            method: Method::Get,
            endpoint: "repos/acme/tool/actions/runs".to_string(),
            query: vec![("status".to_string(), "in_progress".to_string())],
            payload: Payload::Empty,
        }
    );
    assert_eq!(HandleRepository::try_get_active_workflows(Ok(3)), Ok(3));
    assert_eq!(
        HandleRepository::try_get_active_workflows(Err(unavailable())),
        Err(HandleRepositoryError::Client(unavailable()))
    );
    assert_eq!(HandleRepository::try_submit_dependency_snapshot(Ok(())), Ok(()));
    assert_eq!(repository.content_request(), get("repos/acme/tool"));
    assert_eq!(repository.set_properties_request().method, Method::Patch);
    assert_eq!(repository.clone().try_set_properties(Ok(())), Ok(repository.clone()));
    assert_eq!(
        repository.clone().try_set_properties(Err(unavailable())),
        Err(HandleRepositoryError::Client(unavailable()))
    );
    assert_eq!(repository.properties_request(), get("repos/acme/tool"));
}

#[test]
fn a_branch_is_looked_up_by_its_plain_name() {
    let repository = repository();
    assert_eq!(repository.get_branch_request("main"), Ok(get("repos/acme/tool/git/ref/heads/main")));
    assert_eq!(
        repository.get_branch_request("refs/heads/main"),
        Ok(get("repos/acme/tool/git/ref/heads/main"))
    );
    assert_eq!(
        repository.get_branch_request("feature/x"),
        Ok(get("repos/acme/tool/git/ref/heads/feature/x"))
    );
    let main = HandleReference::Branch { repository: repository.clone(), branch: "main".to_string() };
    assert_eq!(repository.try_get_branch("main", Ok("refs/heads/main".to_string())), Ok(main.clone()));
    assert_eq!(
        repository.try_get_some_branch("main", Ok("refs/heads/main".to_string())),
        Ok(Some(main.clone()))
    );
    assert_eq!(repository.try_has_branch("main", Ok("refs/heads/main".to_string())), Ok(true));
    assert_eq!(repository.try_has_branch("main", Err(not_found())), Ok(false));
    assert_eq!(repository.try_get_some_branch("main", Err(not_found())), Ok(None));
    assert_eq!(
        repository.try_get_some_branch("main", Ok("refs/heads/domain".to_string())),
        Ok(None)
    );
    assert_eq!(
        repository.try_get_branch("main", Err(not_found())),
        Err(HandleRepositoryError::InvalidBranch { name: "main".to_string() })
    );
    assert_eq!(
        repository.try_get_branch("main", Err(unavailable())),
        Err(HandleRepositoryError::InvalidBranch { name: "main".to_string() })
    );
    assert_eq!(
        repository.try_get_some_branch("main", Err(unavailable())),
        Err(HandleRepositoryError::Reference(ReferenceError::Client(unavailable())))
    );
}

#[test]
fn a_tag_is_no_branch() {
    let repository = repository();
    assert_eq!(
        repository.try_get_branch("tags/v1", Ok("refs/tags/v1".to_string())),
        Err(HandleRepositoryError::InvalidBranch { name: "tags/v1".to_string() })
    );
    assert_eq!(
        repository.try_get_some_branch("tags/v1", Ok("refs/tags/v1".to_string())),
        Err(HandleRepositoryError::InvalidBranch { name: "tags/v1".to_string() })
    );
    assert_eq!(
        repository.try_get_tag("heads/main", Ok("refs/heads/main".to_string())),
        Err(HandleRepositoryError::InvalidTag { name: "heads/main".to_string() })
    );
    let tag = HandleReference::Tag { repository: repository.clone(), tag: "v1".to_string() };
    assert_eq!(repository.try_get_tag("v1", Ok("refs/tags/v1".to_string())), Ok(tag.clone()));
    assert_eq!(repository.try_get_tag("tags/v1", Ok("refs/tags/v1".to_string())), Ok(tag.clone()));
    assert_eq!(repository.try_get_some_tag("v1", Ok("refs/tags/v1".to_string())), Ok(Some(tag)));
    assert_eq!(repository.try_has_tag("v1", Err(not_found())), Ok(false));
    assert_eq!(repository.try_has_tag("v1", Ok("refs/tags/v1".to_string())), Ok(true));
    assert_eq!(repository.get_tag_request("v1"), Ok(get("repos/acme/tool/git/ref/tags/v1")));
    assert_eq!(
        repository.try_get_tag("v1", Ok("refs/tags/v10".to_string())),
        Err(HandleRepositoryError::InvalidTag { name: "v1".to_string() })
    );
}

#[test]
fn a_pull_request_with_a_bad_number_is_no_candidate() {
    let repository = repository();
    assert_eq!(
        repository.get_branch_request("pull/x/head"),
        Ok(get("repos/acme/tool/git/ref/heads/pull/x/head"))
    );
    assert_eq!(
        repository.try_get_branch("pull/7/head", Ok("refs/pull/7/head".to_string())),
        Err(HandleRepositoryError::InvalidBranch { name: "pull/7/head".to_string() })
    );
}

#[test]
fn the_default_branch_fails_under_its_own_name() {
    let repository = repository();
    let main = HandleReference::Branch { repository: repository.clone(), branch: "main".to_string() };
    assert_eq!(
        repository.try_get_default_branch("main", Ok("refs/heads/main".to_string())),
        Ok(main)
    );
    assert_eq!(
        repository.try_get_default_branch("main", Err(not_found())),
        Err(HandleRepositoryError::DefaultBranch { name: "main".to_string() })
    );
    assert_eq!(
        repository.try_get_default_branch("tags/v1", Ok("refs/tags/v1".to_string())),
        Err(HandleRepositoryError::DefaultBranch { name: "tags/v1".to_string() })
    );
}

#[test]
fn branches_and_tags_are_created_under_their_prefix() {
    let repository = repository();
    let request = repository.create_branch_request("main", &commit("ccc333")).unwrap();
    assert_eq!(request.endpoint, "repos/acme/tool/git/refs");
    assert_eq!(request.method, Method::Post);
    assert_eq!(
        request.payload,
        Payload::Reference { reference: "refs/heads/main".to_string(), sha: Sha::new("ccc333") }
    );
    let request = repository.create_tag_request("v1", &commit("ccc333")).unwrap();
    assert_eq!(
        request.payload,
        Payload::Reference { reference: "refs/tags/v1".to_string(), sha: Sha::new("ccc333") }
    );
    let main = HandleReference::Branch { repository: repository.clone(), branch: "main".to_string() };
    assert_eq!(repository.try_create_branch("main", Ok("refs/heads/main".to_string())), Ok(main));
    assert_eq!(
        repository.try_create_branch("main", Ok("refs/heads/other".to_string())),
        Err(HandleRepositoryError::Reference(ReferenceError::Nothing {
            reference: "heads/main".to_string()
        }))
    );
    let tag = HandleReference::Tag { repository: repository.clone(), tag: "v1".to_string() };
    assert_eq!(repository.try_create_tag("v1", Ok("refs/tags/v1".to_string())), Ok(tag));
    assert_eq!(
        repository.try_create_tag("v1", Err(unavailable())),
        Err(HandleRepositoryError::Reference(ReferenceError::Client(unavailable())))
    );
}

#[test]
fn only_a_tag_is_deleted_as_a_tag() {
    let repository = repository();
    let tag = HandleReference::Tag { repository: repository.clone(), tag: "v1".to_string() };
    let main = HandleReference::Branch { repository: repository.clone(), branch: "main".to_string() };
    assert_eq!(
        repository.delete_tag_request(&tag).map(|request| request.endpoint),
        Ok("repos/acme/tool/git/refs/tags/v1".to_string())
    );
    assert_eq!(
        repository.delete_tag_request(&main),
        Err(HandleRepositoryError::InvalidTag { name: "heads/main".to_string() })
    );
    assert_eq!(
        repository.delete_branch_request(&main).map(|request| request.method),
        Ok(Method::Delete)
    );
    assert_eq!(
        repository.delete_branch_request(&tag),
        Err(HandleRepositoryError::InvalidBranch { name: "tags/v1".to_string() })
    );
    assert_eq!(HandleRepository::try_delete_tag(Ok(())), Ok(()));
    assert_eq!(
        HandleRepository::try_delete_branch(Err(ReferenceError::Delete)),
        Err(HandleRepositoryError::Reference(ReferenceError::Delete))
    );
}

#[test]
fn absence_is_an_answer_where_it_is_asked_for() {
    let missing: Result<HandleReference, ReferenceError> =
        Err(ReferenceError::Nothing { reference: "heads/x".to_string() });
    assert_eq!(HandleRepository::try_get_some_reference(missing), Ok(None));
    let missing: Result<HandleReference, ReferenceError> =
        Err(ReferenceError::Nothing { reference: "heads/x".to_string() });
    assert_eq!(HandleRepository::try_has_reference(missing), Ok(false));
    let invalid: Result<HandleReference, ReferenceError> =
        Err(ReferenceError::Invalid { reference: "x".to_string() });
    assert_eq!(
        HandleRepository::try_has_reference(invalid),
        Err(HandleRepositoryError::Reference(ReferenceError::Invalid { reference: "x".to_string() }))
    );
    assert_eq!(HandleRepository::try_has_commit(Ok(commit("abc"))), Ok(true));
    assert_eq!(
        HandleRepository::try_has_commit(Err(CommitError::Nothing { commit: Sha::new("abc") })),
        Ok(false)
    );
    assert_eq!(HandleRepository::try_has_commit(Err(CommitError::Client(not_found()))), Ok(false));
    assert_eq!(
        HandleRepository::try_has_commit(Err(CommitError::Client(unavailable()))),
        Err(HandleRepositoryError::Commit(CommitError::Client(unavailable())))
    );
}

#[test]
fn a_commit_is_fetched_by_its_hash() {
    let repository = repository();
    assert_eq!(
        HandleCommit::fetch_request(&repository, &Sha::new("ccc333")),
        get("repos/acme/tool/git/commits/ccc333")
    );
    let stamp = CommitStamp { sha: Sha::new("ccc333"), date: date() };
    assert_eq!(
        HandleCommit::try_fetch(&repository, Sha::new("ccc333"), Ok(stamp)),
        Ok(commit("ccc333"))
    );
    assert_eq!(
        HandleCommit::try_fetch(&repository, Sha::new("ccc333"), Err(not_found())),
        Err(CommitError::Nothing { commit: Sha::new("ccc333") })
    );
    assert_eq!(
        HandleCommit::try_fetch(&repository, Sha::new("ccc333"), Err(unavailable())),
        Err(CommitError::Client(unavailable()))
    );
    let handle = commit("ccc333");
    assert_eq!(handle.get_endpoint(), "repos/acme/tool/git/commits/ccc333");
    assert_eq!(handle.to_string(), "ccc333");
    assert_eq!(handle.get_sha(), Sha::new("ccc333"));
    assert_eq!(handle.get_date(), date());
    assert_eq!(handle.get_parent(), &repository);
    assert_eq!(handle.content_request(), get("repos/acme/tool/git/commits/ccc333"));
    assert_eq!(handle.download_request(), get("repos/acme/tool/zipball/ccc333"));
    assert_eq!(handle.try_get_date(Ok(date())), Ok(date()));
}

#[test]
fn a_commit_is_created_of_parents_tree_and_message() {
    let repository = repository();
    let tree = Tree { tree: Vec::new(), sha: Sha::new("bbb222") };
    let request = HandleCommit::create_request(
        &repository,
        &vec![commit("first"), commit("second")],
        &tree,
        "init",
    );
    assert_eq!(
        request,
        Request {
            method: Method::Post,
            endpoint: "repos/acme/tool/git/commits".to_string(),
            query: Vec::new(),
            payload: Payload::Commit {
                parents: vec![Sha::new("first"), Sha::new("second")],
                message: "init".to_string(),
                tree: Sha::new("bbb222"),
            },
        }
    );
    let stamp = CommitStamp { sha: Sha::new("ccc333"), date: date() };
    assert_eq!(HandleCommit::try_create(&repository, Ok(stamp)), Ok(commit("ccc333")));
    assert_eq!(
        HandleCommit::try_create(&repository, Err(not_found())),
        Err(CommitError::Client(not_found()))
    );
}

#[test]
fn parents_and_tree_are_asked_for_by_the_hashes_that_came_back() {
    let handle = commit("ccc333");
    let requests = handle.try_get_parents(Ok(vec![Sha::new("first"), Sha::new("second")])).unwrap();
    assert_eq!(
        requests,
        vec![get("repos/acme/tool/git/commits/first"), get("repos/acme/tool/git/commits/second")]
    );
    assert_eq!(handle.try_get_parents(Ok(Vec::new())), Ok(Vec::new()));
    assert_eq!(
        handle.try_get_parents(Err(unavailable())),
        Err(CommitError::Client(unavailable()))
    );
    assert_eq!(
        handle.try_get_tree(false, Ok(Sha::new("bbb222"))),
        Ok(get("repos/acme/tool/git/trees/bbb222"))
    );
    let recursive = handle.try_get_tree(true, Ok(Sha::new("bbb222"))).unwrap();
    assert_eq!(recursive.query, vec![("recursive".to_string(), "true".to_string())]);
    assert_eq!(handle.try_get_tree(true, Err(unavailable())), Err(unavailable()));
}

#[test]
fn commits_are_compared_from_base_to_head() {
    let base = commit("aaa");
    let head = commit("bbb");
    assert_eq!(base.compare_request(&head), get("repos/acme/tool/compare/aaa...bbb"));
    let files = vec![
        CompareFile::from_status("added", "a.txt".to_string(), Sha::new("1")).unwrap(),
        CompareFile::from_status("removed", "b.txt".to_string(), Sha::new("2")).unwrap(),
    ];
    let compared = base.try_compare(head.clone(), Ok(files.clone())).unwrap();
    assert_eq!(compared, Compare { files: files.clone(), base: base.clone(), head: head.clone() });
    assert_eq!(compared.files(), &files);
    assert_eq!(compared.get_base(), base);
    assert_eq!(compared.get_head(), head);
    assert_eq!(compared.to_string(), "aaa..bbb");
    assert_eq!(
        base.try_compare(commit("bbb"), Err(unavailable())),
        Err(CommitError::Compare(CompareError::Client(unavailable())))
    );
}

#[test]
fn a_status_outside_the_seven_is_no_status() {
    let path = || "a.txt".to_string();
    let sha = || Sha::new("1");
    assert_eq!(
        CompareFile::from_status("added", path(), sha()),
        Some(CompareFile::Added { path: path(), sha: sha() })
    );
    assert_eq!(
        CompareFile::from_status("removed", path(), sha()),
        Some(CompareFile::Removed { path: path(), sha: sha() })
    );
    assert_eq!(
        CompareFile::from_status("modified", path(), sha()),
        Some(CompareFile::Modified { path: path(), sha: sha() })
    );
    assert_eq!(
        CompareFile::from_status("renamed", path(), sha()),
        Some(CompareFile::Renamed { path: path(), sha: sha() })
    );
    assert_eq!(
        CompareFile::from_status("copied", path(), sha()),
        Some(CompareFile::Copied { path: path(), sha: sha() })
    );
    assert_eq!(
        CompareFile::from_status("changed", path(), sha()),
        Some(CompareFile::Changed { path: path(), sha: sha() })
    );
    assert_eq!(
        CompareFile::from_status("unchanged", path(), sha()),
        Some(CompareFile::Unchanged { path: path(), sha: sha() })
    );
    assert_eq!(CompareFile::from_status("Added", path(), sha()), None);
    assert_eq!(CompareFile::from_status("", path(), sha()), None);
}

#[test]
fn trees_are_created_with_and_without_a_base() {
    let repository = repository();
    let entry =
        TreeEntry::Blob { path: "hello.txt".to_string(), mode: 0o100644, sha: Sha::new("aaa111") };
    assert_eq!(
        Tree::create_request(&repository, &vec![entry.clone()]),
        Request {
            method: Method::Post,
            endpoint: "repos/acme/tool/git/trees".to_string(),
            query: Vec::new(),
            payload: Payload::Tree { base_tree: None, tree: vec![entry.clone()] },
        }
    );
    let base = Tree { tree: Vec::new(), sha: Sha::new("base00") };
    assert_eq!(
        Tree::create_with_base_request(&repository, &base, &vec![entry.clone()]).payload,
        Payload::Tree { base_tree: Some(Sha::new("base00")), tree: vec![entry.clone()] }
    );
    assert_eq!(
        Tree::fetch_request(&repository, &Sha::new("bbb222"), false),
        get("repos/acme/tool/git/trees/bbb222")
    );
    let made = Tree { tree: vec![entry], sha: Sha::new("bbb222") };
    assert_eq!(Tree::try_create(Ok(made.clone())), Ok(made.clone()));
    assert_eq!(Tree::try_fetch(Ok(made.clone())), Ok(made.clone()));
    assert_eq!(Tree::try_create_with_base(Ok(made.clone())), Ok(made));
    assert_eq!(Tree::try_fetch(Err(unavailable())), Err(TreeError::Client(unavailable())));
}

#[test]
fn blobs_are_made_of_text_and_of_bytes() {
    let repository = repository();
    assert_eq!(
        Blob::create_text_request(&repository, "hello"),
        Request {
            method: Method::Post,
            endpoint: "repos/acme/tool/git/blobs".to_string(),
            query: Vec::new(),
            payload: Payload::Blob { encoding: Encoding::Utf8, content: "hello".to_string() },
        }
    );
    assert_eq!(
        Blob::create_binary_request(&repository, b"hello").payload,
        Payload::Blob { encoding: Encoding::Base64, content: "aGVsbG8=".to_string() }
    );
    assert_eq!(
        Blob::fetch_request(&repository, &Sha::new("aaa111")),
        get("repos/acme/tool/git/blobs/aaa111")
    );
}

#[test]
fn a_failed_unpacking_is_reported_with_its_reason() {
    assert_eq!(HandleCommit::try_download(Ok(())), Ok(()));
    assert_eq!(
        HandleCommit::try_download(Err("invalid Zip archive".to_string())),
        Err(HandleRepositoryError::Archive { reason: "invalid Zip archive".to_string() })
    );
    assert_eq!(HandleReference::try_set_commit(Ok(())), Ok(()));
    assert_eq!(
        HandleReference::try_set_commit(Err(unavailable())),
        Err(HandleRepositoryError::Client(unavailable()))
    );
}
