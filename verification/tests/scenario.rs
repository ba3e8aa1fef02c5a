use github_client::account::organization::HandleOrganization;
use github_client::account::Account;
use github_client::client::{ClientError, ClientResponseError, Encoding, Method, Payload};
use github_client::common::Date;
use github_client::repository::blob::Blob;
use github_client::repository::commit::{CommitStamp, HandleCommit};
use github_client::repository::reference::{HandleReference, Resolution, Step, Target};
use github_client::repository::sha::Sha;
use github_client::repository::tree::{serialize_mode, Tree, TreeEntry, TreeEntryMode};
use github_client::repository::HandleRepository;

#[test]
fn a_file_is_committed_to_a_new_branch_and_found_again() {
    let owner = Account::Organization(HandleOrganization { name: "acme".to_string() });
    let repository = HandleRepository::try_fetch(&owner, "acme/tool", Ok(())).unwrap();

    let request = Blob::create_text_request(&repository, "hello");
    assert_eq!(request.method, Method::Post);
    assert_eq!(request.endpoint, "repos/acme/tool/git/blobs");
    assert_eq!(
        request.payload,
        Payload::Blob { encoding: Encoding::Utf8, content: "hello".to_string() }
    );
    let blob = Blob::try_create_text_blob("hello", Ok(Sha::new("aaa111"))).unwrap();
    assert_eq!(blob.get_sha(), Sha::new("aaa111"));

    let entry = TreeEntry::blob(blob).with_path("hello.txt").with_mode(TreeEntryMode::file());
    assert_eq!(
        entry,
        TreeEntry::Blob { path: "hello.txt".to_string(), mode: 0o100644, sha: Sha::new("aaa111") }
    );
    assert_eq!(serialize_mode(0o100644), "100644");

    let request = Tree::create_request(&repository, &vec![entry.clone()]);
    assert_eq!(request.endpoint, "repos/acme/tool/git/trees");
    assert_eq!(request.payload, Payload::Tree { base_tree: None, tree: vec![entry.clone()] });
    let tree = Tree::try_create(Ok(Tree { tree: vec![entry], sha: Sha::new("bbb222") })).unwrap();

    let request = HandleCommit::create_request(&repository, &Vec::new(), &tree, "init");
    assert_eq!(request.endpoint, "repos/acme/tool/git/commits");
    assert_eq!(
        request.payload,
        Payload::Commit {
            parents: Vec::new(),
            message: "init".to_string(),
            tree: Sha::new("bbb222"),
        }
    );
    let date = Date { seconds: 1_700_000_000, nanoseconds: 0 };
    let commit = HandleCommit::try_create(
        &repository,
        Ok(CommitStamp { sha: Sha::new("ccc333"), date }),
    )
    .unwrap();

    let request = repository.create_branch_request("main", &commit).unwrap();
    assert_eq!(request.endpoint, "repos/acme/tool/git/refs");
    assert_eq!(
        request.payload,
        Payload::Reference { reference: "refs/heads/main".to_string(), sha: Sha::new("ccc333") }
    );
    let created = repository.try_create_branch("main", Ok("refs/heads/main".to_string())).unwrap();

    let request = repository.get_branch_request("main").unwrap();
    assert_eq!(request.endpoint, "repos/acme/tool/git/ref/heads/main");
    let branch = repository.try_get_branch("main", Ok("refs/heads/main".to_string())).unwrap();
    assert_eq!(branch, created);
    assert_eq!(
        branch,
        HandleReference::Branch { repository: repository.clone(), branch: "main".to_string() }
    );

    let request = branch.get_commit_request();
    assert_eq!(request.endpoint, "repos/acme/tool/git/ref/heads/main");
    let mut way = Resolution::new();
    let step = branch.try_get_commit(&mut way, Target::Commit { sha: commit.get_sha() }).unwrap();
    let found = match step {
        Step::Found { sha } => sha,
        Step::Follow { .. } => panic!("a branch points at its commit"),
    };
    let request = HandleCommit::fetch_request(&repository, &found);
    assert_eq!(request.endpoint, "repos/acme/tool/git/commits/ccc333");
    let resolved = HandleCommit::try_fetch(
        &repository,
        found.clone(),
        Ok(CommitStamp { sha: Sha::new("ccc333"), date }),
    );
    assert_eq!(
        HandleRepository::try_get_commit(resolved).map(|handle| handle.get_sha()),
        Ok(commit.get_sha())
    );
}

#[test]
fn a_branch_that_is_not_there_is_not_found_again() {
    let owner = Account::Organization(HandleOrganization { name: "acme".to_string() });
    let repository = HandleRepository { owner, name: "tool".to_string() };
    let missing = ClientError::Response(ClientResponseError::Nothing {
        code: 404,
        message: Some("Not Found".to_string()),
    });
    assert_eq!(repository.try_get_some_branch("main", Err(missing)), Ok(None));
}
