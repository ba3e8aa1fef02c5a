//! Repositories and what they hold.
use crate::account::Account;
use crate::client::{ClientError, Method, Paginator, Payload, PayloadView, Request, RequestView};
use crate::repository::blob::{Blob, BlobError};
use crate::repository::commit::{CommitError, HandleCommit};
use crate::repository::issue::{HandleIssue, IssueError};
use crate::repository::reference::{
    lemma_reference_reads_back, reference_of, reference_path, HandleReference, ReferenceError,
    ReferenceKind,
};
use crate::repository::tree::{Tree, TreeError};
use crate::text::{chars_of, ends_with, joined, split_chars, split_on, string_of, views};
use vstd::prelude::*;
use vstd::string::StringExecFns;

pub mod blob;
pub mod commit;
pub mod issue;
pub mod properties;
pub mod reference;
pub mod sha;
pub mod tree;

verus! {

/// Why something of a repository could not be had.
#[derive(Debug, PartialEq, Eq)]
pub enum HandleRepositoryError {
    Client(ClientError),
    Reference(ReferenceError),
    Commit(CommitError),
    Issue(IssueError),
    Blob(BlobError),
    Tree(TreeError),
    InvalidReference { name: String },
    InvalidBranch { name: String },
    InvalidTag { name: String },
    /// The default branch of the repository could not be had.
    DefaultBranch { name: String },
    /// The archive of a commit could not be unpacked.
    Archive { reason: String },
}

/// A repository, known by its owner and its short name.
#[derive(Debug, PartialEq, Eq)]
pub struct HandleRepository {
    pub owner: Account,
    pub name: String,
}

impl Clone for HandleRepository {
    fn clone(&self) -> (repository: HandleRepository)
        ensures
            repository == *self,
    {
        HandleRepository { owner: self.owner.clone(), name: self.name.clone() }
    }
}

impl HandleRepository {
    /// The full name of the repository: the owner's login, `/`, the short name.
    pub open spec fn full_name(&self) -> Seq<char> {
        self.owner.name() + "/"@ + self.name@
    }

    /// The path of the repository: `repos/` and the full name.
    pub open spec fn endpoint(&self) -> Seq<char> {
        "repos/"@ + self.full_name()
    }

    /// The full name, as the repository is shown.
    pub fn to_string(&self) -> (text: String)
        ensures
            text@ == self.full_name(),
    {
        let mut text = self.owner.to_string();
        text.append("/");
        text.append(self.name.as_str());
        text
    }

    /// The path of the repository.
    pub fn get_endpoint(&self) -> (endpoint: String)
        ensures
            endpoint@ == self.endpoint(),
    {
        let name = self.to_string();
        joined("repos/", name.as_str())
    }

    /// The owner of the repository.
    pub fn get_parent(&self) -> (owner: &Account)
        ensures
            *owner == self.owner,
    {
        &self.owner
    }

    /// The path of something below the repository: its own path, `/`, and `below`.
    pub fn path_to(&self, below: &str) -> (path: String)
        ensures
            path@ == self.endpoint() + "/"@ + below@,
    {
        let mut path = self.get_endpoint();
        path.append("/");
        path.append(below);
        path
    }
}

/// The short name in what a caller gives for a repository. The text is cut
/// at every `/`: where there are two pieces or more, the first is taken for
/// the owner and the second is the short name; a text of one piece is the
/// short name itself.
pub open spec fn short_name(name: Seq<char>) -> Seq<char> {
    let pieces = split_on(name, '/');
    if pieces.len() >= 2 {
        pieces[1]
    } else {
        pieces[0]
    }
}

/// What a name stands for as a reference of one kind: the name as it is
/// where it reads as a reference, and else the name behind the kind's prefix.
pub open spec fn candidate_of(name: Seq<char>, prefix: Seq<char>) -> Option<ReferenceKind> {
    match reference_of(name) {
        Some(kind) => Some(kind),
        None => reference_of(prefix + name),
    }
}

/// What became of looking a reference up at the service.
pub enum Lookup {
    /// The service holds it.
    Found,
    /// The service holds nothing under the name, or something else.
    Missing,
    /// The transport failed otherwise.
    Failed(ClientError),
}

/// What the answer to a request for the reference `kind` comes to. The
/// reference is held only if the full name that came back ends with its short form.
pub open spec fn lookup_of(kind: ReferenceKind, answer: Result<String, ClientError>) -> Lookup {
    match answer {
        Err(error) => if error.is_nothing() {
            Lookup::Missing
        } else {
            Lookup::Failed(error)
        },
        Ok(found) => if ends_with(found@, reference_path(kind)) {
            Lookup::Found
        } else {
            Lookup::Missing
        },
    }
}

/// The names of the given repositories, in their order.
pub open spec fn repository_names(handles: Seq<HandleRepository>) -> Seq<Seq<char>> {
    handles.map_values(|handle: HandleRepository| handle.name@)
}

impl HandleRepository {
    /// The short name in what a caller gives for a repository.
    pub fn short_name_of(name: &str) -> (short: String)
        ensures
            short@ == short_name(name@),
    {
        let text = chars_of(name);
        let pieces = split_chars(&text, '/');
        assert(views(pieces@)[0] == pieces@[0]@);
        if pieces.len() >= 2 {
            assert(views(pieces@)[1] == pieces@[1]@);
            string_of(&pieces[1])
        } else {
            string_of(&pieces[0])
        }
    }

    /// The request that asks whether `owner` has the repository that `name` stands for.
    pub fn fetch_request(owner: &Account, name: &str) -> (request: Request)
        ensures
            request@ == RequestView::plain(
                Method::Get,
                "repos/"@ + owner.name() + "/"@ + short_name(name@),
            ),
    {
        let mut endpoint = "repos/".to_owned();
        let login = owner.to_string();
        endpoint.append(login.as_str());
        endpoint.append("/");
        let short = HandleRepository::short_name_of(name);
        endpoint.append(short.as_str());
        Request::new(Method::Get, endpoint, Payload::Empty)
    }

    /// The repository that `name` stands for, once the service has answered for it.
    pub fn try_fetch(owner: &Account, name: &str, answer: Result<(), ClientError>) -> (fetched:
        Result<HandleRepository, HandleRepositoryError>)
        ensures
            match answer {
                Err(error) => fetched == Err::<HandleRepository, HandleRepositoryError>(
                    HandleRepositoryError::Client(error),
                ),
                Ok(()) => fetched matches Ok(handle) && handle.owner == *owner && handle.name@
                    == short_name(name@),
            },
    {
        match answer {
            Err(error) => Err(HandleRepositoryError::Client(error)),
            Ok(()) => Ok(
                HandleRepository {
                    owner: owner.clone(),
                    name: HandleRepository::short_name_of(name),
                },
            ),
        }
    }

    /// The request for the next page of the repositories of `owner`.
    pub fn fetch_all_request(owner: &Account, pages: &Paginator) -> (request: Request)
        requires
            pages.page < usize::MAX,
        ensures
            request@ == RequestView::page(
                "users/"@ + owner.name() + "/repos"@,
                (pages.page + 1) as nat,
            ),
    {
        let mut endpoint = "users/".to_owned();
        let login = owner.to_string();
        endpoint.append(login.as_str());
        endpoint.append("/repos");
        pages.next_request(endpoint)
    }

    /// The handles of the repositories whose names were collected, in their order.
    pub fn try_fetch_all(owner: &Account, collected: Vec<String>) -> (handles: Vec<
        HandleRepository,
    >)
        ensures
            repository_names(handles@) == crate::text::texts(collected@),
            forall|i: int| 0 <= i < handles@.len() ==> (#[trigger] handles@[i]).owner == *owner,
    {
        let mut handles: Vec<HandleRepository> = Vec::new();
        let mut i: usize = 0;
        while i < collected.len()
            invariant
                i <= collected.len(),
                repository_names(handles@) == crate::text::texts(collected@.take(i as int)),
                forall|k: int| 0 <= k < handles@.len() ==> (#[trigger] handles@[k]).owner == *owner,
            decreases collected.len() - i,
        {
            let ghost before = handles@;
            let handle = HandleRepository { owner: owner.clone(), name: collected[i].clone() };
            handles.push(handle);
            i = i + 1;
            proof {
                let seen = collected@.take(i - 1);
                assert(collected@.take(i as int) == seen.push(collected@[i - 1]));
                assert(repository_names(before.push(handle)) =~= repository_names(before).push(
                    handle.name@,
                ));
                assert(crate::text::texts(seen.push(collected@[i - 1]))
                    =~= crate::text::texts(seen).push(collected@[i - 1]@));
            }
        }
        assert(collected@.take(collected.len() as int) == collected@);
        handles
    }

    /// The request that hands a snapshot of the dependencies to the service;
    /// the snapshot is the caller's and travels beside the request.
    pub fn submit_dependency_snapshot_request(&self) -> (request: Request)
        ensures
            request@ == RequestView::with_payload(
                Method::Post,
                self.endpoint() + "/"@ + "dependency-graph/snapshots"@,
                PayloadView::Supplied,
            ),
    {
        Request::new(Method::Post, self.path_to("dependency-graph/snapshots"), Payload::Supplied)
    }

    /// What the handing over of a snapshot came to.
    pub fn try_submit_dependency_snapshot(answer: Result<(), ClientError>) -> (done: Result<
        (),
        HandleRepositoryError,
    >)
        ensures
            done == match answer {
                Ok(()) => Ok::<(), HandleRepositoryError>(()),
                Err(error) => Err(HandleRepositoryError::Client(error)),
            },
    {
        match answer {
            Ok(()) => Ok(()),
            Err(error) => Err(HandleRepositoryError::Client(error)),
        }
    }

    /// The request that asks for the workflow runs in progress.
    pub fn active_workflows_request(&self) -> (request: Request)
        ensures
            request@ == (RequestView {
                method: Method::Get,
                endpoint: self.endpoint() + "/"@ + "actions/runs"@,
                query: seq![("status"@, "in_progress"@)],
                payload: PayloadView::Empty,
            }),
    {
        let request = Request::new(
            Method::Get,
            self.path_to("actions/runs"),
            Payload::Empty,
        ).with_query("status", "in_progress");
        assert(request@.query == seq![("status"@, "in_progress"@)]);
        request
    }

    /// The number of workflow runs in progress: the `total_count` of the answer.
    pub fn try_get_active_workflows(answer: Result<usize, ClientError>) -> (count: Result<
        usize,
        HandleRepositoryError,
    >)
        ensures
            count == match answer {
                Ok(total) => Ok::<usize, HandleRepositoryError>(total),
                Err(error) => Err(HandleRepositoryError::Client(error)),
            },
    {
        match answer {
            Ok(total) => Ok(total),
            Err(error) => Err(HandleRepositoryError::Client(error)),
        }
    }

    /// The issue that was fetched, or why there is none.
    pub fn try_get_issue(fetched: Result<HandleIssue, IssueError>) -> (issue: Result<
        HandleIssue,
        HandleRepositoryError,
    >)
        ensures
            issue == match fetched {
                Ok(handle) => Ok::<HandleIssue, HandleRepositoryError>(handle),
                Err(error) => Err(HandleRepositoryError::Issue(error)),
            },
    {
        match fetched {
            Ok(handle) => Ok(handle),
            Err(error) => Err(HandleRepositoryError::Issue(error)),
        }
    }

    /// The reference that a name stands for as one of a kind, before the service is asked.
    fn candidate(&self, name: &str, prefix: &str) -> (parsed: Result<
        HandleReference,
        ReferenceError,
    >)
        ensures
            match candidate_of(name@, prefix@) {
                Some(kind) => parsed matches Ok(handle) && handle.kind() == kind
                    && handle.repository() == *self,
                None => parsed matches Err(ReferenceError::Invalid { reference: refused })
                    && refused@ == prefix@ + name@,
            },
    {
        match HandleReference::try_parse(self, name) {
            Ok(parsed) => Ok(parsed),
            Err(_) => {
                let longer = joined(prefix, name);
                HandleReference::try_parse(self, longer.as_str())
            },
        }
    }

    /// Looks a name up as a reference of one kind: the candidate is made,
    /// and the answer of the service is read for it.
    fn lookup(&self, name: &str, prefix: &str, answer: Result<String, ClientError>) -> (found:
        Result<Result<HandleReference, ReferenceError>, ReferenceError>)
        ensures
            match candidate_of(name@, prefix@) {
                None => found matches Err(ReferenceError::Invalid { reference: refused })
                    && refused@ == prefix@ + name@,
                Some(kind) => found matches Ok(inner) && match lookup_of(kind, answer) {
                    Lookup::Found => inner matches Ok(handle) && handle.kind() == kind
                        && handle.repository() == *self,
                    Lookup::Missing => inner matches Err(ReferenceError::Nothing { .. }),
                    Lookup::Failed(error) => inner == Err::<HandleReference, ReferenceError>(
                        ReferenceError::Client(error),
                    ),
                },
            },
    {
        match self.candidate(name, prefix) {
            Err(error) => Err(error),
            Ok(candidate) => {
                let path = candidate.to_string();
                proof {
                    lemma_reference_reads_back(candidate.kind());
                }
                Ok(HandleReference::try_fetch(self, path.as_str(), answer))
            },
        }
    }

    /// The request that asks for the reference that `name` stands for as one of a kind.
    fn lookup_request(&self, name: &str, prefix: &str) -> (request: Result<
        Request,
        HandleRepositoryError,
    >)
        ensures
            match candidate_of(name@, prefix@) {
                Some(kind) => request matches Ok(made) && made@ == RequestView::plain(
                    Method::Get,
                    self.endpoint() + "/git/ref/"@ + reference_path(kind),
                ),
                None => request matches Err(
                    HandleRepositoryError::Reference(
                        ReferenceError::Invalid { reference: refused },
                    ),
                ) && refused@ == prefix@ + name@,
            },
    {
        match self.candidate(name, prefix) {
            Err(error) => Err(HandleRepositoryError::Reference(error)),
            Ok(candidate) => Ok(
                Request::new(Method::Get, candidate.get_endpoint(), Payload::Empty),
            ),
        }
    }

    /// The request that asks for the tag named `tag`: the name as it is where
    /// it reads as a reference, and else as `tags/` and the name.
    pub fn get_tag_request(&self, tag: &str) -> (request: Result<Request, HandleRepositoryError>)
        ensures
            match candidate_of(tag@, "tags/"@) {
                Some(kind) => request matches Ok(made) && made@ == RequestView::plain(
                    Method::Get,
                    self.endpoint() + "/git/ref/"@ + reference_path(kind),
                ),
                None => request matches Err(
                    HandleRepositoryError::Reference(
                        ReferenceError::Invalid { reference: refused },
                    ),
                ) && refused@ == "tags/"@ + tag@,
            },
    {
        self.lookup_request(tag, "tags/")
    }

    /// The request that asks for the branch named `branch`: the name as it is
    /// where it reads as a reference, and else as `heads/` and the name.
    pub fn get_branch_request(&self, branch: &str) -> (request: Result<
        Request,
        HandleRepositoryError,
    >)
        ensures
            match candidate_of(branch@, "heads/"@) {
                Some(kind) => request matches Ok(made) && made@ == RequestView::plain(
                    Method::Get,
                    self.endpoint() + "/git/ref/"@ + reference_path(kind),
                ),
                None => request matches Err(
                    HandleRepositoryError::Reference(
                        ReferenceError::Invalid { reference: refused },
                    ),
                ) && refused@ == "heads/"@ + branch@,
            },
    {
        self.lookup_request(branch, "heads/")
    }

    /// The tag named `tag`, if the service holds it. That the service holds
    /// nothing under the name is an answer; that it holds something that is
    /// no tag is a failure, as every other failure stays one.
    pub fn try_get_some_tag(&self, tag: &str, answer: Result<String, ClientError>) -> (found:
        Result<Option<HandleReference>, HandleRepositoryError>)
        ensures
            match candidate_of(tag@, "tags/"@) {
                None => found matches Err(
                    HandleRepositoryError::Reference(
                        ReferenceError::Invalid { reference: refused },
                    ),
                ) && refused@ == "tags/"@ + tag@,
                Some(kind) => match lookup_of(kind, answer) {
                    Lookup::Missing => found == Ok::<
                        Option<HandleReference>,
                        HandleRepositoryError,
                    >(None),
                    Lookup::Failed(error) => found == Err::<
                        Option<HandleReference>,
                        HandleRepositoryError,
                    >(HandleRepositoryError::Reference(ReferenceError::Client(error))),
                    Lookup::Found => if kind is Tag {
                        found matches Ok(Some(handle)) && handle.kind() == kind
                            && handle.repository() == *self
                    } else {
                        found matches Err(HandleRepositoryError::InvalidTag { name }) && name@
                            == tag@
                    },
                },
            },
    {
        match self.lookup(tag, "tags/", answer) {
            Err(error) => Err(HandleRepositoryError::Reference(error)),
            Ok(Err(ReferenceError::Nothing { .. })) => Ok(None),
            Ok(Err(error)) => Err(HandleRepositoryError::Reference(error)),
            Ok(Ok(handle)) => if handle.is_tag() {
                Ok(Some(handle))
            } else {
                Err(HandleRepositoryError::InvalidTag { name: tag.to_owned() })
            },
        }
    }

    /// Whether the service holds the tag named `tag`.
    pub fn try_has_tag(&self, tag: &str, answer: Result<String, ClientError>) -> (has: Result<
        bool,
        HandleRepositoryError,
    >)
        ensures
            match candidate_of(tag@, "tags/"@) {
                None => has matches Err(
                    HandleRepositoryError::Reference(
                        ReferenceError::Invalid { reference: refused },
                    ),
                ) && refused@ == "tags/"@ + tag@,
                Some(kind) => match lookup_of(kind, answer) {
                    Lookup::Missing => has == Ok::<bool, HandleRepositoryError>(false),
                    Lookup::Failed(error) => has == Err::<bool, HandleRepositoryError>(
                        HandleRepositoryError::Reference(ReferenceError::Client(error)),
                    ),
                    Lookup::Found => if kind is Tag {
                        has == Ok::<bool, HandleRepositoryError>(true)
                    } else {
                        has matches Err(HandleRepositoryError::InvalidTag { name }) && name@
                            == tag@
                    },
                },
            },
    {
        match self.try_get_some_tag(tag, answer) {
            Ok(found) => Ok(found.is_some()),
            Err(error) => Err(error),
        }
    }

    /// The tag named `tag`. Whatever keeps the service from handing out a
    /// tag under the name, the name is refused as a tag.
    pub fn try_get_tag(&self, tag: &str, answer: Result<String, ClientError>) -> (found: Result<
        HandleReference,
        HandleRepositoryError,
    >)
        ensures
            match candidate_of(tag@, "tags/"@) {
                None => found matches Err(
                    HandleRepositoryError::Reference(
                        ReferenceError::Invalid { reference: refused },
                    ),
                ) && refused@ == "tags/"@ + tag@,
                Some(kind) => if lookup_of(kind, answer) is Found && kind is Tag {
                    found matches Ok(handle) && handle.kind() == kind && handle.repository()
                        == *self
                } else {
                    found matches Err(HandleRepositoryError::InvalidTag { name }) && name@
                        == tag@
                },
            },
    {
        match self.lookup(tag, "tags/", answer) {
            Err(error) => Err(HandleRepositoryError::Reference(error)),
            Ok(Ok(handle)) => if handle.is_tag() {
                Ok(handle)
            } else {
                Err(HandleRepositoryError::InvalidTag { name: tag.to_owned() })
            },
            Ok(Err(_)) => Err(HandleRepositoryError::InvalidTag { name: tag.to_owned() }),
        }
    }

    /// The branch named `branch`, if the service holds it. That the service
    /// holds nothing under the name is an answer; that it holds something
    /// that is no branch is a failure, as every other failure stays one.
    pub fn try_get_some_branch(&self, branch: &str, answer: Result<String, ClientError>) -> (found:
        Result<Option<HandleReference>, HandleRepositoryError>)
        ensures
            match candidate_of(branch@, "heads/"@) {
                None => found matches Err(
                    HandleRepositoryError::Reference(
                        ReferenceError::Invalid { reference: refused },
                    ),
                ) && refused@ == "heads/"@ + branch@,
                Some(kind) => match lookup_of(kind, answer) {
                    Lookup::Missing => found == Ok::<
                        Option<HandleReference>,
                        HandleRepositoryError,
                    >(None),
                    Lookup::Failed(error) => found == Err::<
                        Option<HandleReference>,
                        HandleRepositoryError,
                    >(HandleRepositoryError::Reference(ReferenceError::Client(error))),
                    Lookup::Found => if kind is Branch {
                        found matches Ok(Some(handle)) && handle.kind() == kind
                            && handle.repository() == *self
                    } else {
                        found matches Err(HandleRepositoryError::InvalidBranch { name }) && name@
                            == branch@
                    },
                },
            },
    {
        match self.lookup(branch, "heads/", answer) {
            Err(error) => Err(HandleRepositoryError::Reference(error)),
            Ok(Err(ReferenceError::Nothing { .. })) => Ok(None),
            Ok(Err(error)) => Err(HandleRepositoryError::Reference(error)),
            Ok(Ok(handle)) => if handle.is_branch() {
                Ok(Some(handle))
            } else {
                Err(HandleRepositoryError::InvalidBranch { name: branch.to_owned() })
            },
        }
    }

    /// Whether the service holds the branch named `branch`.
    pub fn try_has_branch(&self, branch: &str, answer: Result<String, ClientError>) -> (has:
        Result<bool, HandleRepositoryError>)
        ensures
            match candidate_of(branch@, "heads/"@) {
                None => has matches Err(
                    HandleRepositoryError::Reference(
                        ReferenceError::Invalid { reference: refused },
                    ),
                ) && refused@ == "heads/"@ + branch@,
                Some(kind) => match lookup_of(kind, answer) {
                    Lookup::Missing => has == Ok::<bool, HandleRepositoryError>(false),
                    Lookup::Failed(error) => has == Err::<bool, HandleRepositoryError>(
                        HandleRepositoryError::Reference(ReferenceError::Client(error)),
                    ),
                    Lookup::Found => if kind is Branch {
                        has == Ok::<bool, HandleRepositoryError>(true)
                    } else {
                        has matches Err(HandleRepositoryError::InvalidBranch { name }) && name@
                            == branch@
                    },
                },
            },
    {
        match self.try_get_some_branch(branch, answer) {
            Ok(found) => Ok(found.is_some()),
            Err(error) => Err(error),
        }
    }

    /// The branch named `branch`. Whatever keeps the service from handing
    /// out a branch under the name, the name is refused as a branch.
    pub fn try_get_branch(&self, branch: &str, answer: Result<String, ClientError>) -> (found:
        Result<HandleReference, HandleRepositoryError>)
        ensures
            match candidate_of(branch@, "heads/"@) {
                None => found matches Err(
                    HandleRepositoryError::Reference(
                        ReferenceError::Invalid { reference: refused },
                    ),
                ) && refused@ == "heads/"@ + branch@,
                Some(kind) => if lookup_of(kind, answer) is Found && kind is Branch {
                    found matches Ok(handle) && handle.kind() == kind && handle.repository()
                        == *self
                } else {
                    found matches Err(HandleRepositoryError::InvalidBranch { name }) && name@
                        == branch@
                },
            },
    {
        match self.lookup(branch, "heads/", answer) {
            Err(error) => Err(HandleRepositoryError::Reference(error)),
            Ok(Ok(handle)) => if handle.is_branch() {
                Ok(handle)
            } else {
                Err(HandleRepositoryError::InvalidBranch { name: branch.to_owned() })
            },
            Ok(Err(_)) => Err(HandleRepositoryError::InvalidBranch { name: branch.to_owned() }),
        }
    }

    /// The default branch, once the service has named it and answered for
    /// it. Whatever keeps the branch from being had, the failure names it.
    pub fn try_get_default_branch(&self, default_branch: &str, answer: Result<
        String,
        ClientError,
    >) -> (found: Result<HandleReference, HandleRepositoryError>)
        ensures
            match candidate_of(default_branch@, "heads/"@) {
                Some(kind) if lookup_of(kind, answer) is Found && kind is Branch => {
                    found matches Ok(handle) && handle.kind() == kind && handle.repository()
                        == *self
                },
                _ => found matches Err(HandleRepositoryError::DefaultBranch { name }) && name@
                    == default_branch@,
            },
    {
        match self.try_get_branch(default_branch, answer) {
            Ok(handle) => Ok(handle),
            Err(_) => Err(HandleRepositoryError::DefaultBranch { name: default_branch.to_owned() }),
        }
    }
}

impl HandleRepository {
    /// The issues that were listed, or why they were not.
    pub fn try_get_all_issues(fetched: Result<Vec<HandleIssue>, IssueError>) -> (found: Result<
        Vec<HandleIssue>,
        HandleRepositoryError,
    >)
        ensures
            found == match fetched {
                Ok(value) => Ok::<Vec<HandleIssue>, HandleRepositoryError>(value),
                Err(error) => Err(HandleRepositoryError::Issue(error)),
            },
    {
        match fetched {
            Ok(value) => Ok(value),
            Err(error) => Err(HandleRepositoryError::Issue(error)),
        }
    }

    /// The reference that was fetched, or why there is none.
    pub fn try_get_reference(fetched: Result<HandleReference, ReferenceError>) -> (found: Result<
        HandleReference,
        HandleRepositoryError,
    >)
        ensures
            found == match fetched {
                Ok(value) => Ok::<HandleReference, HandleRepositoryError>(value),
                Err(error) => Err(HandleRepositoryError::Reference(error)),
            },
    {
        match fetched {
            Ok(value) => Ok(value),
            Err(error) => Err(HandleRepositoryError::Reference(error)),
        }
    }

    /// The reference that was made, or why it was not.
    pub fn try_create_reference(created: Result<HandleReference, ReferenceError>) -> (made: Result<
        HandleReference,
        HandleRepositoryError,
    >)
        ensures
            made == match created {
                Ok(value) => Ok::<HandleReference, HandleRepositoryError>(value),
                Err(error) => Err(HandleRepositoryError::Reference(error)),
            },
    {
        match created {
            Ok(value) => Ok(value),
            Err(error) => Err(HandleRepositoryError::Reference(error)),
        }
    }

    /// What the deletion of a reference came to.
    pub fn try_delete_reference(deleted: Result<(), ReferenceError>) -> (done: Result<
        (),
        HandleRepositoryError,
    >)
        ensures
            done == match deleted {
                Ok(value) => Ok::<(), HandleRepositoryError>(value),
                Err(error) => Err(HandleRepositoryError::Reference(error)),
            },
    {
        match deleted {
            Ok(value) => Ok(value),
            Err(error) => Err(HandleRepositoryError::Reference(error)),
        }
    }

    /// The blob that was fetched, or why there is none.
    pub fn try_get_blob(fetched: Result<Blob, BlobError>) -> (found: Result<
        Blob,
        HandleRepositoryError,
    >)
        ensures
            found == match fetched {
                Ok(value) => Ok::<Blob, HandleRepositoryError>(value),
                Err(error) => Err(HandleRepositoryError::Blob(error)),
            },
    {
        match fetched {
            Ok(value) => Ok(value),
            Err(error) => Err(HandleRepositoryError::Blob(error)),
        }
    }

    /// The blob that was made of bytes, or why it was not.
    pub fn try_create_binary_blob(created: Result<Blob, BlobError>) -> (made: Result<
        Blob,
        HandleRepositoryError,
    >)
        ensures
            made == match created {
                Ok(value) => Ok::<Blob, HandleRepositoryError>(value),
                Err(error) => Err(HandleRepositoryError::Blob(error)),
            },
    {
        match created {
            Ok(value) => Ok(value),
            Err(error) => Err(HandleRepositoryError::Blob(error)),
        }
    }

    /// The blob that was made of text, or why it was not.
    pub fn try_create_text_blob(created: Result<Blob, BlobError>) -> (made: Result<
        Blob,
        HandleRepositoryError,
    >)
        ensures
            made == match created {
                Ok(value) => Ok::<Blob, HandleRepositoryError>(value),
                Err(error) => Err(HandleRepositoryError::Blob(error)),
            },
    {
        match created {
            Ok(value) => Ok(value),
            Err(error) => Err(HandleRepositoryError::Blob(error)),
        }
    }

    /// The tree that was fetched, or why there is none.
    pub fn try_get_tree(fetched: Result<Tree, TreeError>) -> (found: Result<
        Tree,
        HandleRepositoryError,
    >)
        ensures
            found == match fetched {
                Ok(value) => Ok::<Tree, HandleRepositoryError>(value),
                Err(error) => Err(HandleRepositoryError::Tree(error)),
            },
    {
        match fetched {
            Ok(value) => Ok(value),
            Err(error) => Err(HandleRepositoryError::Tree(error)),
        }
    }

    /// The tree that was made, or why it was not.
    pub fn try_create_tree(created: Result<Tree, TreeError>) -> (made: Result<
        Tree,
        HandleRepositoryError,
    >)
        ensures
            made == match created {
                Ok(value) => Ok::<Tree, HandleRepositoryError>(value),
                Err(error) => Err(HandleRepositoryError::Tree(error)),
            },
    {
        match created {
            Ok(value) => Ok(value),
            Err(error) => Err(HandleRepositoryError::Tree(error)),
        }
    }

    /// The tree that was made on a base, or why it was not.
    pub fn try_create_tree_with_base(created: Result<Tree, TreeError>) -> (made: Result<
        Tree,
        HandleRepositoryError,
    >)
        ensures
            made == match created {
                Ok(value) => Ok::<Tree, HandleRepositoryError>(value),
                Err(error) => Err(HandleRepositoryError::Tree(error)),
            },
    {
        match created {
            Ok(value) => Ok(value),
            Err(error) => Err(HandleRepositoryError::Tree(error)),
        }
    }

    /// The commit that was fetched, or why there is none.
    pub fn try_get_commit(fetched: Result<HandleCommit, CommitError>) -> (found: Result<
        HandleCommit,
        HandleRepositoryError,
    >)
        ensures
            found == match fetched {
                Ok(value) => Ok::<HandleCommit, HandleRepositoryError>(value),
                Err(error) => Err(HandleRepositoryError::Commit(error)),
            },
    {
        match fetched {
            Ok(value) => Ok(value),
            Err(error) => Err(HandleRepositoryError::Commit(error)),
        }
    }

    /// The commit that was made, or why it was not.
    pub fn try_create_commit(created: Result<HandleCommit, CommitError>) -> (made: Result<
        HandleCommit,
        HandleRepositoryError,
    >)
        ensures
            made == match created {
                Ok(value) => Ok::<HandleCommit, HandleRepositoryError>(value),
                Err(error) => Err(HandleRepositoryError::Commit(error)),
            },
    {
        match created {
            Ok(value) => Ok(value),
            Err(error) => Err(HandleRepositoryError::Commit(error)),
        }
    }

    /// The reference that was fetched, if the service holds it: that it holds
    /// nothing under the name is an answer, every other failure stays one.
    pub fn try_get_some_reference(fetched: Result<HandleReference, ReferenceError>) -> (found:
        Result<Option<HandleReference>, HandleRepositoryError>)
        ensures
            found == match fetched {
                Ok(handle) => Ok::<Option<HandleReference>, HandleRepositoryError>(Some(handle)),
                Err(ReferenceError::Nothing { .. }) => Ok(None),
                Err(error) => Err(HandleRepositoryError::Reference(error)),
            },
    {
        match fetched {
            Ok(handle) => Ok(Some(handle)),
            Err(ReferenceError::Nothing { .. }) => Ok(None),
            Err(error) => Err(HandleRepositoryError::Reference(error)),
        }
    }

    /// Whether the service holds the reference that was asked for.
    pub fn try_has_reference(fetched: Result<HandleReference, ReferenceError>) -> (has: Result<
        bool,
        HandleRepositoryError,
    >)
        ensures
            has == match fetched {
                Ok(_) => Ok::<bool, HandleRepositoryError>(true),
                Err(ReferenceError::Nothing { .. }) => Ok(false),
                Err(error) => Err(HandleRepositoryError::Reference(error)),
            },
    {
        match HandleRepository::try_get_some_reference(fetched) {
            Ok(found) => Ok(found.is_some()),
            Err(error) => Err(error),
        }
    }

    /// Whether the service holds the commit that was asked for: that it
    /// holds none with the hash is an answer, every other failure stays one.
    pub fn try_has_commit(fetched: Result<HandleCommit, CommitError>) -> (has: Result<
        bool,
        HandleRepositoryError,
    >)
        ensures
            has == match fetched {
                Ok(_) => Ok::<bool, HandleRepositoryError>(true),
                Err(CommitError::Nothing { .. }) => Ok(false),
                Err(CommitError::Client(error)) => if error.is_nothing() {
                    Ok(false)
                } else {
                    Err(HandleRepositoryError::Commit(CommitError::Client(error)))
                },
                Err(error) => Err(HandleRepositoryError::Commit(error)),
            },
    {
        match fetched {
            Ok(_) => Ok(true),
            Err(CommitError::Nothing { .. }) => Ok(false),
            Err(CommitError::Client(error)) => if error.nothing_found() {
                Ok(false)
            } else {
                Err(HandleRepositoryError::Commit(CommitError::Client(error)))
            },
            Err(error) => Err(HandleRepositoryError::Commit(error)),
        }
    }

    /// The request that makes the tag named `tag` and lets it point at `commit`.
    pub fn create_tag_request(&self, tag: &str, commit: &HandleCommit) -> (request: Result<
        Request,
        HandleRepositoryError,
    >)
        ensures
            match reference_of("tags/"@ + tag@) {
                Some(kind) => request matches Ok(made) && made@ == RequestView::with_payload(
                    Method::Post,
                    self.endpoint() + "/git/refs"@,
                    PayloadView::Reference {
                        reference: "refs/"@ + reference_path(kind),
                        sha: commit.sha@,
                    },
                ),
                None => request matches Err(
                    HandleRepositoryError::Reference(
                        ReferenceError::Invalid { reference: refused },
                    ),
                ) && refused@ == "tags/"@ + tag@,
            },
    {
        let name = joined("tags/", tag);
        match HandleReference::create_request(self, commit, name.as_str()) {
            Ok(request) => Ok(request),
            Err(error) => Err(HandleRepositoryError::Reference(error)),
        }
    }

    /// The tag that was made under the name `tag`. What the service made
    /// must be a tag, and be kept under a name that ends with `tags/` and the name.
    pub fn try_create_tag(&self, tag: &str, answer: Result<String, ClientError>) -> (made: Result<
        HandleReference,
        HandleRepositoryError,
    >)
        ensures
            match HandleReference::created("tags/"@ + tag@, answer) {
                Err(error) => match made {
                    Err(HandleRepositoryError::Reference(found)) => found.same_as(error),
                    _ => false,
                },
                Ok(kind) => if kind is Tag {
                    made matches Ok(handle) && handle.kind() == kind && handle.repository()
                        == *self
                } else {
                    made matches Err(HandleRepositoryError::InvalidTag { name }) && name@ == tag@
                },
            },
    {
        let name = joined("tags/", tag);
        match HandleReference::try_create(self, name.as_str(), answer) {
            Err(error) => Err(HandleRepositoryError::Reference(error)),
            Ok(reference) => if reference.is_tag() {
                Ok(reference)
            } else {
                Err(HandleRepositoryError::InvalidTag { name: tag.to_owned() })
            },
        }
    }

    /// The request that makes the branch named `branch` and lets it point at `commit`.
    pub fn create_branch_request(&self, branch: &str, commit: &HandleCommit) -> (request: Result<
        Request,
        HandleRepositoryError,
    >)
        ensures
            match reference_of("heads/"@ + branch@) {
                Some(kind) => request matches Ok(made) && made@ == RequestView::with_payload(
                    Method::Post,
                    self.endpoint() + "/git/refs"@,
                    PayloadView::Reference {
                        reference: "refs/"@ + reference_path(kind),
                        sha: commit.sha@,
                    },
                ),
                None => request matches Err(
                    HandleRepositoryError::Reference(
                        ReferenceError::Invalid { reference: refused },
                    ),
                ) && refused@ == "heads/"@ + branch@,
            },
    {
        let name = joined("heads/", branch);
        match HandleReference::create_request(self, commit, name.as_str()) {
            Ok(request) => Ok(request),
            Err(error) => Err(HandleRepositoryError::Reference(error)),
        }
    }

    /// The branch that was made under the name `branch`. What the service
    /// made must be a branch, and be kept under a name that ends with
    /// `heads/` and the name.
    pub fn try_create_branch(&self, branch: &str, answer: Result<String, ClientError>) -> (made:
        Result<HandleReference, HandleRepositoryError>)
        ensures
            match HandleReference::created("heads/"@ + branch@, answer) {
                Err(error) => match made {
                    Err(HandleRepositoryError::Reference(found)) => found.same_as(error),
                    _ => false,
                },
                Ok(kind) => if kind is Branch {
                    made matches Ok(handle) && handle.kind() == kind && handle.repository()
                        == *self
                } else {
                    made matches Err(HandleRepositoryError::InvalidBranch { name }) && name@
                        == branch@
                },
            },
    {
        let name = joined("heads/", branch);
        match HandleReference::try_create(self, name.as_str(), answer) {
            Err(error) => Err(HandleRepositoryError::Reference(error)),
            Ok(reference) => if reference.is_branch() {
                Ok(reference)
            } else {
                Err(HandleRepositoryError::InvalidBranch { name: branch.to_owned() })
            },
        }
    }

    /// The request that deletes `tag`, which must be a tag.
    pub fn delete_tag_request(&self, tag: &HandleReference) -> (request: Result<
        Request,
        HandleRepositoryError,
    >)
        ensures
            if *tag is Tag {
                request matches Ok(made) && made@ == RequestView::plain(
                    Method::Delete,
                    tag.refs_endpoint(),
                )
            } else {
                request matches Err(HandleRepositoryError::InvalidTag { name }) && name@
                    == tag.path()
            },
    {
        if tag.is_tag() {
            Ok(tag.delete_request())
        } else {
            Err(HandleRepositoryError::InvalidTag { name: tag.to_string() })
        }
    }

    /// The request that deletes `branch`, which must be a branch.
    pub fn delete_branch_request(&self, branch: &HandleReference) -> (request: Result<
        Request,
        HandleRepositoryError,
    >)
        ensures
            if *branch is Branch {
                request matches Ok(made) && made@ == RequestView::plain(
                    Method::Delete,
                    branch.refs_endpoint(),
                )
            } else {
                request matches Err(HandleRepositoryError::InvalidBranch { name }) && name@
                    == branch.path()
            },
    {
        if branch.is_branch() {
            Ok(branch.delete_request())
        } else {
            Err(HandleRepositoryError::InvalidBranch { name: branch.to_string() })
        }
    }

    /// What the deletion of a tag came to.
    pub fn try_delete_tag(deleted: Result<(), ReferenceError>) -> (done: Result<
        (),
        HandleRepositoryError,
    >)
        ensures
            done == match deleted {
                Ok(value) => Ok::<(), HandleRepositoryError>(value),
                Err(error) => Err(HandleRepositoryError::Reference(error)),
            },
    {
        HandleRepository::try_delete_reference(deleted)
    }

    /// What the deletion of a branch came to.
    pub fn try_delete_branch(deleted: Result<(), ReferenceError>) -> (done: Result<
        (),
        HandleRepositoryError,
    >)
        ensures
            done == match deleted {
                Ok(value) => Ok::<(), HandleRepositoryError>(value),
                Err(error) => Err(HandleRepositoryError::Reference(error)),
            },
    {
        HandleRepository::try_delete_reference(deleted)
    }
}

impl From<ClientError> for HandleRepositoryError {
    fn from(error: ClientError) -> (wrapped: HandleRepositoryError) {
        HandleRepositoryError::Client(error)
    }
}

impl vstd::std_specs::convert::FromSpecImpl<ClientError> for HandleRepositoryError {
    open spec fn obeys_from_spec() -> bool {
        true
    }

    open spec fn from_spec(error: ClientError) -> HandleRepositoryError {
        HandleRepositoryError::Client(error)
    }
}

impl From<ReferenceError> for HandleRepositoryError {
    fn from(error: ReferenceError) -> (wrapped: HandleRepositoryError) {
        HandleRepositoryError::Reference(error)
    }
}

impl vstd::std_specs::convert::FromSpecImpl<ReferenceError> for HandleRepositoryError {
    open spec fn obeys_from_spec() -> bool {
        true
    }

    open spec fn from_spec(error: ReferenceError) -> HandleRepositoryError {
        HandleRepositoryError::Reference(error)
    }
}

impl From<CommitError> for HandleRepositoryError {
    fn from(error: CommitError) -> (wrapped: HandleRepositoryError) {
        HandleRepositoryError::Commit(error)
    }
}

impl vstd::std_specs::convert::FromSpecImpl<CommitError> for HandleRepositoryError {
    open spec fn obeys_from_spec() -> bool {
        true
    }

    open spec fn from_spec(error: CommitError) -> HandleRepositoryError {
        HandleRepositoryError::Commit(error)
    }
}

impl From<IssueError> for HandleRepositoryError {
    fn from(error: IssueError) -> (wrapped: HandleRepositoryError) {
        HandleRepositoryError::Issue(error)
    }
}

impl vstd::std_specs::convert::FromSpecImpl<IssueError> for HandleRepositoryError {
    open spec fn obeys_from_spec() -> bool {
        true
    }

    open spec fn from_spec(error: IssueError) -> HandleRepositoryError {
        HandleRepositoryError::Issue(error)
    }
}

impl From<BlobError> for HandleRepositoryError {
    fn from(error: BlobError) -> (wrapped: HandleRepositoryError) {
        HandleRepositoryError::Blob(error)
    }
}

impl vstd::std_specs::convert::FromSpecImpl<BlobError> for HandleRepositoryError {
    open spec fn obeys_from_spec() -> bool {
        true
    }

    open spec fn from_spec(error: BlobError) -> HandleRepositoryError {
        HandleRepositoryError::Blob(error)
    }
}

impl From<TreeError> for HandleRepositoryError {
    fn from(error: TreeError) -> (wrapped: HandleRepositoryError) {
        HandleRepositoryError::Tree(error)
    }
}

impl vstd::std_specs::convert::FromSpecImpl<TreeError> for HandleRepositoryError {
    open spec fn obeys_from_spec() -> bool {
        true
    }

    open spec fn from_spec(error: TreeError) -> HandleRepositoryError {
        HandleRepositoryError::Tree(error)
    }
}

impl crate::GitHubProperties for HandleRepository {
    open spec fn path(&self) -> Seq<char> {
        self.endpoint()
    }

    fn get_endpoint(&self) -> (endpoint: String) {
        HandleRepository::get_endpoint(self)
    }
}

} // verus!
