//! Commits: a tree, its parents, and when it was written.
use crate::client::{hashes, ClientError, Method, Payload, PayloadView, Request, RequestView};
use crate::common::Date;
use crate::repository::reference::ReferenceError;
use crate::repository::sha::Sha;
use crate::repository::tree::Tree;
use crate::repository::HandleRepository;
use vstd::prelude::*;
use vstd::string::StringExecFns;

pub mod compare;

pub use compare::{Compare, CompareError, CompareFile};

verus! {

/// Why a commit could not be had.
#[derive(Debug, PartialEq, Eq)]
pub enum CommitError {
    Compare(CompareError),
    Reference(ReferenceError),
    Client(ClientError),
    /// The repository holds no commit with this hash.
    Nothing { commit: Sha },
}

/// A commit of a repository, known by its hash.
#[derive(Debug, PartialEq, Eq)]
pub struct HandleCommit {
    pub repository: HandleRepository,
    pub date: Date,
    pub sha: Sha,
}

impl Clone for HandleCommit {
    fn clone(&self) -> (commit: HandleCommit)
        ensures
            commit == *self,
    {
        HandleCommit { repository: self.repository.clone(), date: self.date, sha: self.sha.clone() }
    }
}

impl HandleCommit {
    /// When the commit was written.
    pub fn get_date(&self) -> (date: Date)
        ensures
            date == self.date,
    {
        self.date
    }

    /// The hash of the commit.
    pub fn get_sha(&self) -> (sha: Sha)
        ensures
            sha == self.sha,
    {
        self.sha.clone()
    }

    /// The repository that holds the commit.
    pub fn get_parent(&self) -> (repository: &HandleRepository)
        ensures
            *repository == self.repository,
    {
        &self.repository
    }

    /// The hash, as the commit is shown.
    pub fn to_string(&self) -> (text: String)
        ensures
            text@ == self.sha@,
    {
        self.sha.to_string()
    }
}

/// What the service tells of a commit when it is fetched or created.
#[derive(Debug, PartialEq, Eq)]
pub struct CommitStamp {
    pub sha: Sha,
    pub date: Date,
}

impl HandleCommit {
    /// The path of the commit.
    pub open spec fn endpoint(&self) -> Seq<char> {
        self.repository.endpoint() + "/git/commits/"@ + self.sha@
    }

    /// The path of the commit.
    pub fn get_endpoint(&self) -> (endpoint: String)
        ensures
            endpoint@ == self.endpoint(),
    {
        let mut endpoint = self.repository.get_endpoint();
        endpoint.append("/git/commits/");
        endpoint.append(self.sha.as_ref());
        endpoint
    }

    /// The request that asks for the commit with the given hash.
    pub fn fetch_request(repository: &HandleRepository, commit: &Sha) -> (request: Request)
        ensures
            request@ == (RequestView {
                method: Method::Get,
                endpoint: repository.endpoint() + "/git/commits/"@ + commit@,
                query: Seq::empty(),
                payload: PayloadView::Empty,
            }),
    {
        let mut endpoint = repository.get_endpoint();
        endpoint.append("/git/commits/");
        endpoint.append(commit.as_ref());
        Request::new(Method::Get, endpoint, Payload::Empty)
    }

    /// What the answer to a request for a commit comes to. Where the server
    /// found nothing, the failure names the hash that was asked for.
    pub fn try_fetch(repository: &HandleRepository, commit: Sha, answer: Result<
        CommitStamp,
        ClientError,
    >) -> (fetched: Result<HandleCommit, CommitError>)
        ensures
            fetched == match answer {
                Ok(stamp) => Ok::<HandleCommit, CommitError>(
                    HandleCommit { repository: *repository, date: stamp.date, sha: stamp.sha },
                ),
                Err(error) => if error.is_nothing() {
                    Err(CommitError::Nothing { commit })
                } else {
                    Err(CommitError::Client(error))
                },
            },
    {
        match answer {
            Ok(stamp) => Ok(
                HandleCommit { repository: repository.clone(), date: stamp.date, sha: stamp.sha },
            ),
            Err(error) => if error.nothing_found() {
                Err(CommitError::Nothing { commit })
            } else {
                Err(CommitError::Client(error))
            },
        }
    }

    /// The hashes of the given commits, in their order.
    pub open spec fn hashes_in(commits: Seq<HandleCommit>) -> Seq<Seq<char>> {
        commits.map_values(|commit: HandleCommit| commit.sha@)
    }

    /// The hashes of the given commits, in their order.
    pub fn hashes_of(commits: &Vec<HandleCommit>) -> (shas: Vec<Sha>)
        ensures
            hashes(shas@) == HandleCommit::hashes_in(commits@),
    {
        let mut shas: Vec<Sha> = Vec::new();
        let mut i: usize = 0;
        while i < commits.len()
            invariant
                i <= commits.len(),
                hashes(shas@) == HandleCommit::hashes_in(commits@.take(i as int)),
            decreases commits.len() - i,
        {
            let ghost before = shas@;
            let sha = commits[i].get_sha();
            shas.push(sha);
            i = i + 1;
            proof {
                let seen = commits@.take(i - 1);
                assert(commits@.take(i as int) == seen.push(commits@[i - 1]));
                assert(hashes(before.push(sha)) =~= hashes(before).push(sha@));
                assert(HandleCommit::hashes_in(seen.push(commits@[i - 1]))
                    =~= HandleCommit::hashes_in(seen).push(commits@[i - 1].sha@));
            }
        }
        assert(commits@.take(commits.len() as int) == commits@);
        shas
    }

    /// The request that creates a commit of `tree` with the given parents and message.
    pub fn create_request(
        repository: &HandleRepository,
        parents: &Vec<HandleCommit>,
        tree: &Tree,
        message: &str,
    ) -> (request: Request)
        ensures
            request@ == (RequestView {
                method: Method::Post,
                endpoint: repository.endpoint() + "/git/commits"@,
                query: Seq::empty(),
                payload: PayloadView::Commit {
                    parents: HandleCommit::hashes_in(parents@),
                    message: message@,
                    tree: tree.sha@,
                },
            }),
    {
        let mut endpoint = repository.get_endpoint();
        endpoint.append("/git/commits");
        Request::new(
            Method::Post,
            endpoint,
            Payload::Commit {
                parents: HandleCommit::hashes_of(parents),
                message: message.to_owned(),
                tree: tree.sha.clone(),
            },
        )
    }

    /// What the answer to the creation of a commit comes to.
    pub fn try_create(repository: &HandleRepository, answer: Result<CommitStamp, ClientError>) -> (created:
        Result<HandleCommit, CommitError>)
        ensures
            created == match answer {
                Ok(stamp) => Ok::<HandleCommit, CommitError>(
                    HandleCommit { repository: *repository, date: stamp.date, sha: stamp.sha },
                ),
                Err(error) => Err(CommitError::Client(error)),
            },
    {
        match answer {
            Ok(stamp) => Ok(
                HandleCommit { repository: repository.clone(), date: stamp.date, sha: stamp.sha },
            ),
            Err(error) => Err(CommitError::Client(error)),
        }
    }

    /// The requests that ask for the parents of the commit, one for each hash
    /// that the service named, in the order in which it named them.
    pub fn try_get_parents(&self, answer: Result<Vec<Sha>, ClientError>) -> (requests: Result<
        Vec<Request>,
        CommitError,
    >)
        ensures
            match answer {
                Err(error) => requests == Err::<Vec<Request>, CommitError>(
                    CommitError::Client(error),
                ),
                Ok(parents) => requests matches Ok(made) && made@.len() == parents@.len() && forall|
                    i: int,
                |
                    0 <= i < parents@.len() ==> (#[trigger] made@[i])@ == (RequestView {
                        method: Method::Get,
                        endpoint: self.repository.endpoint() + "/git/commits/"@ + parents@[i]@,
                        query: Seq::empty(),
                        payload: PayloadView::Empty,
                    }),
            },
    {
        match answer {
            Err(error) => Err(CommitError::Client(error)),
            Ok(parents) => {
                let mut requests: Vec<Request> = Vec::new();
                let mut i: usize = 0;
                while i < parents.len()
                    invariant
                        i <= parents.len(),
                        requests@.len() == i,
                        forall|k: int|
                            0 <= k < i ==> (#[trigger] requests@[k])@ == (RequestView {
                                method: Method::Get,
                                endpoint: self.repository.endpoint() + "/git/commits/"@
                                    + parents@[k]@,
                                query: Seq::empty(),
                                payload: PayloadView::Empty,
                            }),
                    decreases parents.len() - i,
                {
                    requests.push(HandleCommit::fetch_request(&self.repository, &parents[i]));
                    i = i + 1;
                }
                Ok(requests)
            },
        }
    }

    /// The request that asks for the tree of the commit, once the service has
    /// named the tree's hash; `recursive` asks for all that is below it too.
    pub fn try_get_tree(&self, recursive: bool, answer: Result<Sha, ClientError>) -> (request:
        Result<Request, ClientError>)
        ensures
            match answer {
                Err(error) => request == Err::<Request, ClientError>(error),
                Ok(sha) => request matches Ok(made) && made@ == Tree::fetch_view(
                    self.repository,
                    sha@,
                    recursive,
                ),
            },
    {
        match answer {
            Err(error) => Err(error),
            Ok(sha) => Ok(Tree::fetch_request(&self.repository, &sha, recursive)),
        }
    }

    /// When the commit was written, as the service tells it now.
    pub fn try_get_date(&self, answer: Result<Date, ClientError>) -> (date: Result<
        Date,
        CommitError,
    >)
        ensures
            date == match answer {
                Ok(date) => Ok::<Date, CommitError>(date),
                Err(error) => Err(CommitError::Client(error)),
            },
    {
        match answer {
            Ok(date) => Ok(date),
            Err(error) => Err(CommitError::Client(error)),
        }
    }

    /// The request that asks for the archive of the commit's tree.
    pub fn download_request(&self) -> (request: Request)
        ensures
            request@ == (RequestView {
                method: Method::Get,
                endpoint: self.repository.endpoint() + "/zipball/"@ + self.sha@,
                query: Seq::empty(),
                payload: PayloadView::Empty,
            }),
    {
        let mut endpoint = self.repository.get_endpoint();
        endpoint.append("/zipball/");
        endpoint.append(self.sha.as_ref());
        Request::new(Method::Get, endpoint, Payload::Empty)
    }

    /// What unpacking the archive came to: a failure is reported with its reason.
    pub fn try_download(unpacked: Result<(), String>) -> (done: Result<
        (),
        crate::repository::HandleRepositoryError,
    >)
        ensures
            done == match unpacked {
                Ok(()) => Ok::<(), crate::repository::HandleRepositoryError>(()),
                Err(reason) => Err(crate::repository::HandleRepositoryError::Archive { reason }),
            },
    {
        match unpacked {
            Ok(()) => Ok(()),
            Err(reason) => Err(crate::repository::HandleRepositoryError::Archive { reason }),
        }
    }

    /// The request that asks how `head` differs from this commit.
    pub fn compare_request(&self, head: &HandleCommit) -> (request: Request)
        ensures
            request@ == (RequestView {
                method: Method::Get,
                endpoint: self.repository.endpoint() + "/compare/"@ + self.sha@ + "..."@
                    + head.sha@,
                query: Seq::empty(),
                payload: PayloadView::Empty,
            }),
    {
        let mut endpoint = self.repository.get_endpoint();
        endpoint.append("/compare/");
        endpoint.append(self.sha.as_ref());
        endpoint.append("...");
        endpoint.append(head.sha.as_ref());
        Request::new(Method::Get, endpoint, Payload::Empty)
    }

    /// How `head` differs from this commit, as the service answered.
    pub fn try_compare(&self, head: HandleCommit, answer: Result<Vec<CompareFile>, ClientError>) -> (compared:
        Result<Compare, CommitError>)
        ensures
            compared == match answer {
                Ok(files) => Ok::<Compare, CommitError>(Compare { files, base: *self, head }),
                Err(error) => Err(CommitError::Compare(CompareError::Client(error))),
            },
    {
        match Compare::try_from_base_head(self.clone(), head, answer) {
            Ok(compare) => Ok(compare),
            Err(error) => Err(CommitError::Compare(error)),
        }
    }
}

impl From<CompareError> for CommitError {
    fn from(error: CompareError) -> (wrapped: CommitError) {
        CommitError::Compare(error)
    }
}

impl vstd::std_specs::convert::FromSpecImpl<CompareError> for CommitError {
    open spec fn obeys_from_spec() -> bool {
        true
    }

    open spec fn from_spec(error: CompareError) -> CommitError {
        CommitError::Compare(error)
    }
}

impl From<ReferenceError> for CommitError {
    fn from(error: ReferenceError) -> (wrapped: CommitError) {
        CommitError::Reference(error)
    }
}

impl vstd::std_specs::convert::FromSpecImpl<ReferenceError> for CommitError {
    open spec fn obeys_from_spec() -> bool {
        true
    }

    open spec fn from_spec(error: ReferenceError) -> CommitError {
        CommitError::Reference(error)
    }
}

impl From<ClientError> for CommitError {
    fn from(error: ClientError) -> (wrapped: CommitError) {
        CommitError::Client(error)
    }
}

impl vstd::std_specs::convert::FromSpecImpl<ClientError> for CommitError {
    open spec fn obeys_from_spec() -> bool {
        true
    }

    open spec fn from_spec(error: ClientError) -> CommitError {
        CommitError::Client(error)
    }
}

impl crate::GitHubProperties for HandleCommit {
    open spec fn path(&self) -> Seq<char> {
        self.endpoint()
    }

    fn get_endpoint(&self) -> (endpoint: String) {
        HandleCommit::get_endpoint(self)
    }
}

} // verus!
