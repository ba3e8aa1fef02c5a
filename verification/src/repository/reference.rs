//! References: the names under which commits are found.
use crate::client::{hashes, ClientError, Method, Payload, PayloadView, Request, RequestView};
use crate::repository::commit::HandleCommit;
use crate::repository::sha::Sha;
use crate::repository::HandleRepository;
use crate::text::{
    chars_of, decimal_text, digits_of, is_digit, join_chars, join_with, lemma_digits_of_value,
    lemma_join_of_split, lemma_split_after_first, lemma_written_number_reads_back, parse_decimal,
    spells, split_chars, split_on, string_of, text_ends_with, unsigned_of, views,
};
use crate::Number;
use vstd::prelude::*;
use vstd::string::StringExecFns;

verus! {

/// Why a reference could not be had.
#[derive(Debug, PartialEq, Eq)]
pub enum ReferenceError {
    Client(ClientError),
    /// The text is no reference.
    Invalid { reference: String },
    /// The repository holds no such reference.
    Nothing { reference: String },
    /// The reference leads back to a tag that was already passed.
    Circular { reference: String },
    Delete,
}

/// A reference of a repository: a branch, a tag, or the head of a pull request.
#[derive(Debug, PartialEq, Eq)]
pub enum HandleReference {
    PullRequest { repository: HandleRepository, branch: String, issue: Number },
    Branch { repository: HandleRepository, branch: String },
    Tag { repository: HandleRepository, tag: String },
}

/// What a reference names, apart from its repository.
pub enum ReferenceKind {
    PullRequest { issue: Number, branch: Seq<char> },
    Branch { branch: Seq<char> },
    Tag { tag: Seq<char> },
}

/// The pieces of a reference once one leading `refs` is taken off.
pub open spec fn reference_body(raw: Seq<char>) -> Seq<Seq<char>> {
    let tokens = split_on(raw, '/');
    if tokens.len() > 0 && tokens[0] == "refs"@ {
        tokens.skip(1)
    } else {
        tokens
    }
}

/// What a text names as a reference. The text is cut at every `/`; a first
/// piece `refs` is optional. Then `heads` or `tags` is followed by the name,
/// which is all that remains, slashes included; `pull` is followed by the
/// number of the pull request and then by the name. Anything else names nothing.
pub open spec fn reference_of(raw: Seq<char>) -> Option<ReferenceKind> {
    let body = reference_body(raw);
    if body.len() == 0 {
        None
    } else if body[0] == "pull"@ {
        if body.len() < 2 {
            None
        } else {
            match unsigned_of(body[1], 10, usize::MAX as nat) {
                Some(issue) => Some(
                    ReferenceKind::PullRequest {
                        issue: issue as usize,
                        branch: join_with(body.skip(2), '/'),
                    },
                ),
                None => None,
            }
        }
    } else if body[0] == "heads"@ {
        Some(ReferenceKind::Branch { branch: join_with(body.skip(1), '/') })
    } else if body[0] == "tags"@ {
        Some(ReferenceKind::Tag { tag: join_with(body.skip(1), '/') })
    } else {
        None
    }
}

/// The short form of a reference, as it is shown and as it stands in a path.
pub open spec fn reference_path(kind: ReferenceKind) -> Seq<char> {
    match kind {
        ReferenceKind::PullRequest { issue, branch } => "pull/"@ + digits_of(issue as nat, 10)
            + "/"@ + branch,
        ReferenceKind::Branch { branch } => "heads/"@ + branch,
        ReferenceKind::Tag { tag } => "tags/"@ + tag,
    }
}

/// The pieces of the short form of a reference: the word for its kind, for a
/// pull request its number, and then the pieces of its name.
pub proof fn lemma_path_pieces(kind: ReferenceKind)
    ensures
        split_on(reference_path(kind), '/') == match kind {
            ReferenceKind::PullRequest { issue, branch } => seq![
                "pull"@,
                digits_of(issue as nat, 10),
            ] + split_on(branch, '/'),
            ReferenceKind::Branch { branch } => seq!["heads"@] + split_on(branch, '/'),
            ReferenceKind::Tag { tag } => seq!["tags"@] + split_on(tag, '/'),
        },
{
    reveal_strlit("pull");
    reveal_strlit("pull/");
    reveal_strlit("heads");
    reveal_strlit("heads/");
    reveal_strlit("tags");
    reveal_strlit("tags/");
    reveal_strlit("/");
    match kind {
        ReferenceKind::PullRequest { issue, branch } => {
            let digits = digits_of(issue as nat, 10);
            lemma_digits_of_value(issue as nat, 10);
            assert forall|i: int| 0 <= i < digits.len() implies digits[i] != '/' by {
                assert(is_digit(digits[i], 10));
            }
            assert("pull/"@ == "pull"@.push('/'));
            assert("/"@ == seq!['/']);
            assert(reference_path(kind) == "pull"@.push('/') + (digits.push('/') + branch));
            lemma_split_after_first("pull"@, digits.push('/') + branch, '/');
            lemma_split_after_first(digits, branch, '/');
            assert(seq!["pull"@] + (seq![digits] + split_on(branch, '/')) == seq!["pull"@, digits]
                + split_on(branch, '/'));
        },
        ReferenceKind::Branch { branch } => {
            assert("heads/"@ == "heads"@.push('/'));
            lemma_split_after_first("heads"@, branch, '/');
        },
        ReferenceKind::Tag { tag } => {
            assert("tags/"@ == "tags"@.push('/'));
            lemma_split_after_first("tags"@, tag, '/');
        },
    }
}

/// A reference is found again under its own short form, and under the full
/// form that begins with `refs/`: reading either gives what the reference names.
pub proof fn lemma_reference_reads_back(kind: ReferenceKind)
    ensures
        reference_of(reference_path(kind)) == Some(kind),
        reference_of("refs/"@ + reference_path(kind)) == Some(kind),
{
    reveal_strlit("refs");
    reveal_strlit("refs/");
    reveal_strlit("pull");
    reveal_strlit("heads");
    reveal_strlit("tags");
    lemma_path_pieces(kind);
    let short = split_on(reference_path(kind), '/');
    assert("refs/"@ == "refs"@.push('/'));
    lemma_split_after_first("refs"@, reference_path(kind), '/');
    let full = split_on("refs/"@ + reference_path(kind), '/');
    assert(full == seq!["refs"@] + short);
    assert(full.skip(1) == short);
    assert(full[0] == "refs"@);
    assert(short[0] != "refs"@) by {
        match kind {
            ReferenceKind::PullRequest { .. } => {
                assert(short[0] == "pull"@);
                assert("pull"@[0] != "refs"@[0]);
            },
            ReferenceKind::Branch { .. } => {
                assert(short[0] == "heads"@);
                assert("heads"@.len() != "refs"@.len());
            },
            ReferenceKind::Tag { .. } => {
                assert(short[0] == "tags"@);
                assert("tags"@[0] != "refs"@[0]);
            },
        }
    }
    assert(reference_body(reference_path(kind)) == short);
    assert(reference_body("refs/"@ + reference_path(kind)) == short);
    match kind {
        ReferenceKind::PullRequest { issue, branch } => {
            assert(short[0] == "pull"@);
            assert(short[1] == digits_of(issue as nat, 10));
            lemma_written_number_reads_back(issue as nat, 10, 0, usize::MAX as nat);
            assert(short.skip(2) == split_on(branch, '/'));
            lemma_join_of_split(branch, '/');
        },
        ReferenceKind::Branch { branch } => {
            assert(short[0] == "heads"@);
            assert("heads"@.len() != "pull"@.len());
            assert(short.skip(1) == split_on(branch, '/'));
            lemma_join_of_split(branch, '/');
        },
        ReferenceKind::Tag { tag } => {
            assert(short[0] == "tags"@);
            assert("tags"@[0] != "pull"@[0]);
            assert("tags"@.len() != "heads"@.len());
            assert(short.skip(1) == split_on(tag, '/'));
            lemma_join_of_split(tag, '/');
        },
    }
}

impl Clone for HandleReference {
    fn clone(&self) -> (reference: HandleReference)
        ensures
            reference == *self,
    {
        match self {
            HandleReference::PullRequest { repository, branch, issue } => {
                HandleReference::PullRequest {
                    repository: repository.clone(),
                    branch: branch.clone(),
                    issue: *issue,
                }
            },
            HandleReference::Branch { repository, branch } => HandleReference::Branch {
                repository: repository.clone(),
                branch: branch.clone(),
            },
            HandleReference::Tag { repository, tag } => HandleReference::Tag {
                repository: repository.clone(),
                tag: tag.clone(),
            },
        }
    }
}

impl HandleReference {
    /// What the reference names.
    pub open spec fn kind(&self) -> ReferenceKind {
        match *self {
            HandleReference::PullRequest { branch, issue, .. } => ReferenceKind::PullRequest {
                issue,
                branch: branch@,
            },
            HandleReference::Branch { branch, .. } => ReferenceKind::Branch { branch: branch@ },
            HandleReference::Tag { tag, .. } => ReferenceKind::Tag { tag: tag@ },
        }
    }

    /// The repository that holds the reference.
    pub open spec fn repository(&self) -> HandleRepository {
        match *self {
            HandleReference::PullRequest { repository, .. } => repository,
            HandleReference::Branch { repository, .. } => repository,
            HandleReference::Tag { repository, .. } => repository,
        }
    }

    /// The short form of the reference.
    pub open spec fn path(&self) -> Seq<char> {
        reference_path(self.kind())
    }

    /// Reads a reference of `repository` from a text.
    pub fn try_parse(repository: &HandleRepository, reference: &str) -> (parsed: Result<
        HandleReference,
        ReferenceError,
    >)
        ensures
            match reference_of(reference@) {
                Some(kind) => parsed matches Ok(handle) && handle.kind() == kind
                    && handle.repository() == *repository,
                None => parsed matches Err(ReferenceError::Invalid { reference: refused })
                    && refused@ == reference@,
            },
    {
        let raw = chars_of(reference);
        let tokens = split_chars(&raw, '/');
        let start: usize = if spells(&tokens[0], "refs") {
            1
        } else {
            0
        };
        let ghost body = reference_body(reference@);
        proof {
            assert(views(tokens@)[0] == tokens@[0]@);
            assert(body == views(tokens@).skip(start as int));
        }
        if start == tokens.len() {
            return Err(ReferenceError::Invalid { reference: reference.to_owned() });
        }
        assert(body[0] == tokens@[start as int]@);
        if spells(&tokens[start], "pull") {
            if tokens.len() - start < 2 {
                return Err(ReferenceError::Invalid { reference: reference.to_owned() });
            }
            assert(body[1] == tokens@[start + 1]@);
            match parse_decimal(&tokens[start + 1]) {
                None => Err(ReferenceError::Invalid { reference: reference.to_owned() }),
                Some(issue) => {
                    let name = join_chars(&tokens, start + 2, '/');
                    assert(views(tokens@).skip(start + 2) == body.skip(2));
                    Ok(
                        HandleReference::PullRequest {
                            repository: repository.clone(),
                            branch: string_of(&name),
                            issue,
                        },
                    )
                },
            }
        } else if spells(&tokens[start], "heads") {
            let name = join_chars(&tokens, start + 1, '/');
            assert(views(tokens@).skip(start + 1) == body.skip(1));
            Ok(HandleReference::Branch { repository: repository.clone(), branch: string_of(&name) })
        } else if spells(&tokens[start], "tags") {
            let name = join_chars(&tokens, start + 1, '/');
            assert(views(tokens@).skip(start + 1) == body.skip(1));
            Ok(HandleReference::Tag { repository: repository.clone(), tag: string_of(&name) })
        } else {
            Err(ReferenceError::Invalid { reference: reference.to_owned() })
        }
    }

    /// The short form, as the reference is shown: `heads/`, `tags/` or
    /// `pull/` with the number and `/`, and then the name.
    pub fn to_string(&self) -> (text: String)
        ensures
            text@ == self.path(),
    {
        match self {
            HandleReference::PullRequest { branch, issue, .. } => {
                let mut text = "pull/".to_owned();
                let number = decimal_text(*issue);
                text.append(number.as_str());
                text.append("/");
                text.append(branch.as_str());
                text
            },
            HandleReference::Branch { branch, .. } => {
                let mut text = "heads/".to_owned();
                text.append(branch.as_str());
                text
            },
            HandleReference::Tag { tag, .. } => {
                let mut text = "tags/".to_owned();
                text.append(tag.as_str());
                text
            },
        }
    }

    /// The repository that holds the reference.
    pub fn get_repository(&self) -> (repository: &HandleRepository)
        ensures
            *repository == self.repository(),
    {
        match self {
            HandleReference::PullRequest { repository, .. } => repository,
            HandleReference::Branch { repository, .. } => repository,
            HandleReference::Tag { repository, .. } => repository,
        }
    }

    pub fn is_pull_request(&self) -> (is: bool)
        ensures
            is == (*self is PullRequest),
    {
        match self {
            HandleReference::PullRequest { .. } => true,
            _ => false,
        }
    }

    pub fn is_branch(&self) -> (is: bool)
        ensures
            is == (*self is Branch),
    {
        match self {
            HandleReference::Branch { .. } => true,
            _ => false,
        }
    }

    pub fn is_tag(&self) -> (is: bool)
        ensures
            is == (*self is Tag),
    {
        match self {
            HandleReference::Tag { .. } => true,
            _ => false,
        }
    }
}

/// A failure by the texts it holds.
pub enum ReferenceFailure {
    Client(ClientError),
    Invalid { reference: Seq<char> },
    Nothing { reference: Seq<char> },
    Circular { reference: Seq<char> },
    Delete,
}

impl ReferenceError {
    /// Whether the failure is the given one.
    pub open spec fn same_as(&self, failure: ReferenceFailure) -> bool {
        match *self {
            ReferenceError::Client(error) => failure == ReferenceFailure::Client(error),
            ReferenceError::Invalid { reference } => failure == (ReferenceFailure::Invalid {
                reference: reference@,
            }),
            ReferenceError::Nothing { reference } => failure == (ReferenceFailure::Nothing {
                reference: reference@,
            }),
            ReferenceError::Circular { reference } => failure == (ReferenceFailure::Circular {
                reference: reference@,
            }),
            ReferenceError::Delete => failure == ReferenceFailure::Delete,
        }
    }
}

impl HandleReference {
    /// What the answer to fetching or creating the reference named by
    /// `reference` comes to. A text that is no reference is refused whatever
    /// the answer. `answer` is the full name under which the server keeps what
    /// it found or made: the reference is had only if that name ends with
    /// the text asked for. A server that found nothing, or something else,
    /// gives `Nothing`; every other failure of the transport stays what it is.
    pub open spec fn created(reference: Seq<char>, answer: Result<String, ClientError>) -> Result<
        ReferenceKind,
        ReferenceFailure,
    > {
        match reference_of(reference) {
            None => Err(ReferenceFailure::Invalid { reference }),
            Some(kind) => match answer {
                Err(error) => if error.is_nothing() {
                    Err(ReferenceFailure::Nothing { reference })
                } else {
                    Err(ReferenceFailure::Client(error))
                },
                Ok(name) => if crate::text::ends_with(name@, reference) {
                    Ok(kind)
                } else {
                    Err(ReferenceFailure::Nothing { reference })
                },
            },
        }
    }
}

/// A server that keeps a reference under its full name, `refs/` and the
/// short form, is believed, whether it was asked for the short form or for
/// the full one.
pub proof fn lemma_full_name_is_accepted(kind: ReferenceKind, answer: String)
    requires
        answer@ == "refs/"@ + reference_path(kind),
    ensures
        HandleReference::created(reference_path(kind), Ok(answer)) == Ok::<
            ReferenceKind,
            ReferenceFailure,
        >(kind),
        HandleReference::created("refs/"@ + reference_path(kind), Ok(answer)) == Ok::<
            ReferenceKind,
            ReferenceFailure,
        >(kind),
{
    lemma_reference_reads_back(kind);
    let short = reference_path(kind);
    let full = "refs/"@ + short;
    assert(full.subrange(full.len() - short.len(), full.len() as int) == short);
    assert(full.subrange(0, full.len() as int) == full);
}

/// What a reference, or an annotated tag, points at.
#[derive(Debug, PartialEq, Eq)]
pub enum Target {
    /// A commit: the end of the way.
    Commit { sha: Sha },
    /// An annotated tag, which points on.
    Tag { sha: Sha },
}

/// The kind of object that a `type` on the wire names.
pub open spec fn target_is_tag(kind: Seq<char>) -> Option<bool> {
    if kind == "commit"@ {
        Some(false)
    } else if kind == "tag"@ {
        Some(true)
    } else {
        None
    }
}

impl Target {
    /// The hash that is pointed at.
    pub open spec fn sha(&self) -> Sha {
        match *self {
            Target::Commit { sha } => sha,
            Target::Tag { sha } => sha,
        }
    }

    /// What an object on the wire points at: a commit under the type
    /// `commit`, an annotated tag under `tag`, and nothing under any other type.
    pub fn from_kind(kind: &str, sha: Sha) -> (target: Option<Target>)
        ensures
            match target_is_tag(kind@) {
                Some(tag) => target matches Some(found) && found.sha() == sha && (found is Tag
                    <==> tag),
                None => target is None,
            },
    {
        if crate::text::same_text(kind, "commit") {
            Some(Target::Commit { sha })
        } else if crate::text::same_text(kind, "tag") {
            Some(Target::Tag { sha })
        } else {
            None
        }
    }
}

/// What to do next on the way from a reference to its commit.
#[derive(Debug, PartialEq, Eq)]
pub enum Step {
    /// The commit is found: fetch it by this hash.
    Found { sha: Sha },
    /// An annotated tag stands in between: ask for it.
    Follow { request: Request },
}

/// The way from a reference to its commit, as far as it has been gone: the
/// annotated tags passed, each once.
#[derive(Debug, PartialEq, Eq)]
pub struct Resolution {
    pub visited: Vec<Sha>,
}

impl Resolution {
    /// The hashes of the tags passed.
    pub open spec fn passed(&self) -> Seq<Seq<char>> {
        hashes(self.visited@)
    }

    /// No tag was passed twice.
    pub open spec fn well_formed(&self) -> bool {
        self.passed().no_duplicates()
    }

    /// The start of the way: no tag passed yet.
    pub fn new() -> (resolution: Resolution)
        ensures
            resolution.well_formed(),
            resolution.passed() == Seq::<Seq<char>>::empty(),
    {
        let resolution = Resolution { visited: Vec::new() };
        assert(resolution.passed() == Seq::<Seq<char>>::empty());
        resolution
    }

    /// Whether the tag with this hash was passed.
    pub fn has_passed(&self, sha: &Sha) -> (passed: bool)
        ensures
            passed == self.passed().contains(sha@),
    {
        let mut i: usize = 0;
        while i < self.visited.len()
            invariant
                i <= self.visited.len(),
                forall|k: int| 0 <= k < i ==> self.passed()[k] != sha@,
            decreases self.visited.len() - i,
        {
            if self.visited[i] == *sha {
                assert(self.passed()[i as int] == sha@);
                return true;
            }
            assert(self.passed()[i as int] == self.visited@[i as int]@);
            i = i + 1;
        }
        false
    }
}

impl HandleReference {
    /// The path at which the service keeps the reference for reading.
    pub open spec fn endpoint(&self) -> Seq<char> {
        self.repository().endpoint() + "/git/ref/"@ + self.path()
    }

    /// The path at which the service keeps the reference for changing and deleting.
    pub open spec fn refs_endpoint(&self) -> Seq<char> {
        self.repository().endpoint() + "/git/refs/"@ + self.path()
    }

    /// The path at which the reference is read.
    pub fn get_endpoint(&self) -> (endpoint: String)
        ensures
            endpoint@ == self.endpoint(),
    {
        let mut endpoint = self.get_repository().get_endpoint();
        endpoint.append("/git/ref/");
        let path = self.to_string();
        endpoint.append(path.as_str());
        endpoint
    }

    /// The path at which the reference is changed and deleted.
    pub fn get_refs_endpoint(&self) -> (endpoint: String)
        ensures
            endpoint@ == self.refs_endpoint(),
    {
        let mut endpoint = self.get_repository().get_endpoint();
        endpoint.append("/git/refs/");
        let path = self.to_string();
        endpoint.append(path.as_str());
        endpoint
    }

    /// The request that asks for the reference named by `reference`; a text
    /// that is no reference is refused before anything is sent.
    pub fn fetch_request(repository: &HandleRepository, reference: &str) -> (request: Result<
        Request,
        ReferenceError,
    >)
        ensures
            match reference_of(reference@) {
                Some(kind) => request matches Ok(made) && made@ == (RequestView {
                    method: Method::Get,
                    endpoint: repository.endpoint() + "/git/ref/"@ + reference_path(kind),
                    query: Seq::empty(),
                    payload: PayloadView::Empty,
                }),
                None => request matches Err(ReferenceError::Invalid { reference: refused })
                    && refused@ == reference@,
            },
    {
        match HandleReference::try_parse(repository, reference) {
            Err(error) => Err(error),
            Ok(parsed) => Ok(Request::new(Method::Get, parsed.get_endpoint(), Payload::Empty)),
        }
    }

    /// What the answer to a request for a reference comes to.
    pub fn try_fetch(repository: &HandleRepository, reference: &str, answer: Result<
        String,
        ClientError,
    >) -> (fetched: Result<HandleReference, ReferenceError>)
        ensures
            match HandleReference::created(reference@, answer) {
                Ok(kind) => fetched matches Ok(handle) && handle.kind() == kind
                    && handle.repository() == *repository,
                Err(failure) => fetched matches Err(error) && error.same_as(failure),
            },
    {
        let parsed = match HandleReference::try_parse(repository, reference) {
            Err(error) => {
                return Err(error);
            },
            Ok(parsed) => parsed,
        };
        match answer {
            Err(error) => if error.nothing_found() {
                Err(ReferenceError::Nothing { reference: reference.to_owned() })
            } else {
                Err(ReferenceError::Client(error))
            },
            Ok(name) => if text_ends_with(name.as_str(), reference) {
                Ok(parsed)
            } else {
                Err(ReferenceError::Nothing { reference: reference.to_owned() })
            },
        }
    }

    /// The request that creates the reference named by `reference` and lets
    /// it point at `commit`; a text that is no reference is refused before
    /// anything is sent.
    pub fn create_request(repository: &HandleRepository, commit: &HandleCommit, reference: &str) -> (request:
        Result<Request, ReferenceError>)
        ensures
            match reference_of(reference@) {
                Some(kind) => request matches Ok(made) && made@ == (RequestView {
                    method: Method::Post,
                    endpoint: repository.endpoint() + "/git/refs"@,
                    query: Seq::empty(),
                    payload: PayloadView::Reference {
                        reference: "refs/"@ + reference_path(kind),
                        sha: commit.sha@,
                    },
                }),
                None => request matches Err(ReferenceError::Invalid { reference: refused })
                    && refused@ == reference@,
            },
    {
        match HandleReference::try_parse(repository, reference) {
            Err(error) => Err(error),
            Ok(parsed) => {
                let path = parsed.to_string();
                let mut full = "refs/".to_owned();
                full.append(path.as_str());
                let mut endpoint = repository.get_endpoint();
                endpoint.append("/git/refs");
                Ok(
                    Request::new(
                        Method::Post,
                        endpoint,
                        Payload::Reference { reference: full, sha: commit.get_sha() },
                    ),
                )
            },
        }
    }

    /// What the answer to the creation of a reference comes to: as on
    /// fetching, the name that the server gives back must end with the text
    /// asked for.
    pub fn try_create(repository: &HandleRepository, reference: &str, answer: Result<
        String,
        ClientError,
    >) -> (made: Result<HandleReference, ReferenceError>)
        ensures
            match HandleReference::created(reference@, answer) {
                Ok(kind) => made matches Ok(handle) && handle.kind() == kind
                    && handle.repository() == *repository,
                Err(failure) => made matches Err(error) && error.same_as(failure),
            },
    {
        HandleReference::try_fetch(repository, reference, answer)
    }

    /// The request that lets the reference point at `commit`, by force or not.
    pub fn set_commit_request(&self, force: bool, commit: Sha) -> (request: Request)
        ensures
            request@ == (RequestView {
                method: Method::Patch,
                endpoint: self.refs_endpoint(),
                query: Seq::empty(),
                payload: PayloadView::Target { sha: commit@, force },
            }),
    {
        Request::new(Method::Patch, self.get_refs_endpoint(), Payload::Target { sha: commit, force })
    }

    /// What moving the reference came to: the transport's failure, if any.
    pub fn try_set_commit(answer: Result<(), ClientError>) -> (moved: Result<
        (),
        crate::repository::HandleRepositoryError,
    >)
        ensures
            moved == match answer {
                Ok(()) => Ok::<(), crate::repository::HandleRepositoryError>(()),
                Err(error) => Err(crate::repository::HandleRepositoryError::Client(error)),
            },
    {
        match answer {
            Ok(()) => Ok(()),
            Err(error) => Err(crate::repository::HandleRepositoryError::Client(error)),
        }
    }

    /// The request that deletes the reference.
    pub fn delete_request(&self) -> (request: Request)
        ensures
            request@ == (RequestView {
                method: Method::Delete,
                endpoint: self.refs_endpoint(),
                query: Seq::empty(),
                payload: PayloadView::Empty,
            }),
    {
        Request::new(Method::Delete, self.get_refs_endpoint(), Payload::Empty)
    }

    /// What the answer to a deletion comes to: the transport's failure, if any.
    pub fn try_delete(&self, answer: Result<(), ClientError>) -> (deleted: Result<
        (),
        ReferenceError,
    >)
        ensures
            deleted == match answer {
                Ok(()) => Ok::<(), ReferenceError>(()),
                Err(error) => Err(ReferenceError::Client(error)),
            },
    {
        match answer {
            Ok(()) => Ok(()),
            Err(error) => Err(ReferenceError::Client(error)),
        }
    }

    /// The request that starts the way from the reference to its commit.
    pub fn get_commit_request(&self) -> (request: Request)
        ensures
            request@ == (RequestView {
                method: Method::Get,
                endpoint: self.endpoint(),
                query: Seq::empty(),
                payload: PayloadView::Empty,
            }),
    {
        Request::new(Method::Get, self.get_endpoint(), Payload::Empty)
    }

    /// One step on the way from the reference to its commit. A commit ends
    /// the way. An annotated tag is passed and asked for, unless it was passed
    /// before: then the way is a circle, and it ends with `Circular`.
    pub fn try_get_commit(&self, resolution: &mut Resolution, target: Target) -> (step: Result<
        Step,
        ReferenceError,
    >)
        requires
            old(resolution).well_formed(),
        ensures
            final(resolution).well_formed(),
            match target {
                Target::Commit { sha } => {
                    &&& step == Ok::<Step, ReferenceError>(Step::Found { sha })
                    &&& final(resolution).passed() == old(resolution).passed()
                },
                Target::Tag { sha } => if old(resolution).passed().contains(sha@) {
                    &&& step matches Err(ReferenceError::Circular { reference })
                    &&& reference@ == self.path()
                    &&& final(resolution).passed() == old(resolution).passed()
                } else {
                    &&& step matches Ok(Step::Follow { request })
                    &&& request@ == (RequestView {
                        method: Method::Get,
                        endpoint: self.repository().endpoint() + "/git/tags/"@ + sha@,
                        query: Seq::empty(),
                        payload: PayloadView::Empty,
                    })
                    &&& final(resolution).passed() == old(resolution).passed().push(sha@)
                },
            },
    {
        match target {
            Target::Commit { sha } => Ok(Step::Found { sha }),
            Target::Tag { sha } => {
                if resolution.has_passed(&sha) {
                    return Err(ReferenceError::Circular { reference: self.to_string() });
                }
                let mut endpoint = self.get_repository().get_endpoint();
                endpoint.append("/git/tags/");
                endpoint.append(sha.as_ref());
                let ghost before = resolution.visited@;
                resolution.visited.push(sha);
                proof {
                    assert(hashes(resolution.visited@) == hashes(before).push(sha@));
                    assert forall|i: int, j: int|
                        0 <= i < resolution.passed().len() && 0 <= j < resolution.passed().len() && i
                            != j implies resolution.passed()[i] != resolution.passed()[j] by {
                        if i < before.len() && j < before.len() {
                            assert(hashes(before)[i] != hashes(before)[j]);
                        } else if i < before.len() {
                            assert(hashes(before).contains(hashes(before)[i]));
                        } else {
                            assert(hashes(before).contains(hashes(before)[j]));
                        }
                    }
                }
                Ok(Step::Follow { request: Request::new(Method::Get, endpoint, Payload::Empty) })
            },
        }
    }
}

impl From<ClientError> for ReferenceError {
    fn from(error: ClientError) -> (wrapped: ReferenceError) {
        ReferenceError::Client(error)
    }
}

impl vstd::std_specs::convert::FromSpecImpl<ClientError> for ReferenceError {
    open spec fn obeys_from_spec() -> bool {
        true
    }

    open spec fn from_spec(error: ClientError) -> ReferenceError {
        ReferenceError::Client(error)
    }
}

} // verus!
