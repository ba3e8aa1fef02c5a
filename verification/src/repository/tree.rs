//! Trees: the directory listings of git.
use crate::client::{ClientError, Method, Payload, PayloadView, Request, RequestView};
use crate::repository::HandleRepository;
use crate::repository::blob::Blob;
use crate::repository::sha::Sha;
use crate::text::{
    chars_of, digits_of, lemma_written_number_reads_back, parse_unsigned, push_digits, string_of,
    unsigned_of, zero_padded,
};
use vstd::prelude::*;
use vstd::string::StringExecFns;

verus! {

/// The file modes that git knows.
#[derive(Debug, Clone, Copy, PartialEq, Eq, Structural)]
pub enum TreeEntryMode {
    File,
    Executable,
    Directory,
    Commit,
    Link,
}

impl TreeEntryMode {
    pub fn file() -> (mode: TreeEntryMode)
        ensures
            mode == TreeEntryMode::File,
    {
        TreeEntryMode::File
    }

    pub fn executable() -> (mode: TreeEntryMode)
        ensures
            mode == TreeEntryMode::Executable,
    {
        TreeEntryMode::Executable
    }

    pub fn directory() -> (mode: TreeEntryMode)
        ensures
            mode == TreeEntryMode::Directory,
    {
        TreeEntryMode::Directory
    }

    pub fn commit() -> (mode: TreeEntryMode)
        ensures
            mode == TreeEntryMode::Commit,
    {
        TreeEntryMode::Commit
    }

    pub fn link() -> (mode: TreeEntryMode)
        ensures
            mode == TreeEntryMode::Link,
    {
        TreeEntryMode::Link
    }

    /// The mode bits of each kind of entry.
    pub open spec fn bits(&self) -> u32 {
        match *self {
            TreeEntryMode::File => 0o100644,
            TreeEntryMode::Executable => 0o100755,
            TreeEntryMode::Directory => 0o040000,
            TreeEntryMode::Commit => 0o160000,
            TreeEntryMode::Link => 0o120000,
        }
    }

    /// The mode bits of this kind of entry.
    pub fn to_mode(&self) -> (mode: u32)
        ensures
            mode == self.bits(),
    {
        match self {
            TreeEntryMode::File => 0o100644,
            TreeEntryMode::Executable => 0o100755,
            TreeEntryMode::Directory => 0o040000,
            TreeEntryMode::Commit => 0o160000,
            TreeEntryMode::Link => 0o120000,
        }
    }
}

/// Why a tree could not be had.
#[derive(Debug, PartialEq, Eq)]
pub enum TreeError {
    Client(ClientError),
    /// A mode on the wire that is no octal number of 32 bits.
    Mode { mode: String },
}

/// A mode as it travels: in octal, with zeros in front up to six digits.
pub open spec fn mode_text(mode: u32) -> Seq<char> {
    zero_padded(digits_of(mode as nat, 8), 6)
}

/// The mode that a text on the wire stands for, as `u32::from_str_radix` reads it in radix 8.
pub open spec fn mode_of(text: Seq<char>) -> Option<nat> {
    unsigned_of(text, 8, u32::MAX as nat)
}

/// Whatever the mode, the text written for it reads back as that mode.
pub proof fn lemma_mode_round_trip(mode: u32)
    ensures
        mode_of(mode_text(mode)) == Some(mode as nat),
{
    lemma_written_number_reads_back(mode as nat, 8, 6, u32::MAX as nat);
}

/// Writes a mode for the wire.
pub fn serialize_mode(mode: u32) -> (text: String)
    ensures
        text@ == mode_text(mode),
        mode_of(text@) == Some(mode as nat),
{
    let mut digits: Vec<char> = Vec::new();
    push_digits(mode as u64, 8, &mut digits);
    assert(digits@ == digits_of(mode as nat, 8)) by {
        assert(Seq::<char>::empty() + digits_of(mode as nat, 8) == digits_of(mode as nat, 8));
    }
    let mut padded: Vec<char> = Vec::new();
    let mut i: usize = digits.len();
    while i < 6
        invariant
            digits.len() <= i,
            digits.len() < 6 ==> i <= 6,
            digits.len() >= 6 ==> i == digits.len(),
            padded@ == Seq::new((i - digits.len()) as nat, |k: int| '0'),
        decreases 6 - i,
    {
        padded.push('0');
        i = i + 1;
        assert(padded@ == Seq::new((i - digits.len()) as nat, |k: int| '0'));
    }
    let ghost zeros = padded@;
    crate::text::append_chars(&mut padded, &digits);
    proof {
        if digits.len() >= 6 {
            assert(zeros.len() == 0);
            assert(zeros + digits@ == digits@);
        }
        lemma_mode_round_trip(mode);
    }
    string_of(&padded)
}

/// Reads a mode from the wire. A text that is no octal number of 32 bits is refused.
pub fn deserialize_mode(text: &str) -> (mode: Result<u32, TreeError>)
    ensures
        match mode_of(text@) {
            Some(read) => mode == Ok::<u32, TreeError>(read as u32),
            None => mode matches Err(TreeError::Mode { mode: refused }) && refused@ == text@,
        },
{
    let digits = chars_of(text);
    match parse_unsigned(&digits, 8, u32::MAX as u64) {
        Some(read) => Ok(read as u32),
        None => Err(TreeError::Mode { mode: text.to_owned() }),
    }
}

/// One line of a tree: where it stands, with which mode, and what it points at.
#[derive(Debug, PartialEq, Eq, PartialOrd, Ord)]
pub enum TreeEntry {
    Blob { path: String, mode: u32, sha: Sha },
    Tree { path: String, mode: u32, sha: Sha },
    Commit { path: String, mode: u32, sha: Sha },
}

impl Clone for TreeEntry {
    fn clone(&self) -> (entry: TreeEntry)
        ensures
            entry == *self,
    {
        match self {
            TreeEntry::Blob { path, mode, sha } => TreeEntry::Blob {
                path: path.clone(),
                mode: *mode,
                sha: sha.clone(),
            },
            TreeEntry::Tree { path, mode, sha } => TreeEntry::Tree {
                path: path.clone(),
                mode: *mode,
                sha: sha.clone(),
            },
            TreeEntry::Commit { path, mode, sha } => TreeEntry::Commit {
                path: path.clone(),
                mode: *mode,
                sha: sha.clone(),
            },
        }
    }
}

impl TreeEntry {
    /// The path of the entry.
    pub open spec fn path(&self) -> Seq<char> {
        match *self {
            TreeEntry::Blob { path, .. } => path@,
            TreeEntry::Tree { path, .. } => path@,
            TreeEntry::Commit { path, .. } => path@,
        }
    }

    /// The mode bits of the entry.
    pub open spec fn mode(&self) -> u32 {
        match *self {
            TreeEntry::Blob { mode, .. } => mode,
            TreeEntry::Tree { mode, .. } => mode,
            TreeEntry::Commit { mode, .. } => mode,
        }
    }

    /// The hash that the entry points at.
    pub open spec fn sha(&self) -> Sha {
        match *self {
            TreeEntry::Blob { sha, .. } => sha,
            TreeEntry::Tree { sha, .. } => sha,
            TreeEntry::Commit { sha, .. } => sha,
        }
    }

    /// An entry for a blob, with an empty path and no mode bits yet.
    pub fn blob(blob: Blob) -> (entry: TreeEntry)
        ensures
            entry is Blob,
            entry.path() == Seq::<char>::empty(),
            entry.mode() == 0,
            entry.sha() == blob.sha(),
    {
        TreeEntry::Blob { path: String::new(), mode: 0, sha: blob.get_sha() }
    }

    /// An entry for a tree, with an empty path and no mode bits yet.
    pub fn tree(tree: Tree) -> (entry: TreeEntry)
        ensures
            entry is Tree,
            entry.path() == Seq::<char>::empty(),
            entry.mode() == 0,
            entry.sha() == tree.sha,
    {
        TreeEntry::Tree { path: String::new(), mode: 0, sha: tree.sha }
    }

    /// An entry for a commit, with an empty path and no mode bits yet.
    pub fn commit(sha: Sha) -> (entry: TreeEntry)
        ensures
            entry is Commit,
            entry.path() == Seq::<char>::empty(),
            entry.mode() == 0,
            entry.sha() == sha,
    {
        TreeEntry::Commit { path: String::new(), mode: 0, sha }
    }

    /// The path of the entry.
    pub fn get_path(&self) -> (path: &str)
        ensures
            path@ == self.path(),
    {
        match self {
            TreeEntry::Blob { path, .. } => path.as_str(),
            TreeEntry::Tree { path, .. } => path.as_str(),
            TreeEntry::Commit { path, .. } => path.as_str(),
        }
    }

    /// The same entry with the bits of the given mode.
    pub fn with_mode(self, mode: TreeEntryMode) -> (entry: TreeEntry)
        ensures
            entry.mode() == mode.bits(),
            entry.path() == self.path(),
            entry.sha() == self.sha(),
            entry is Blob <==> self is Blob,
            entry is Tree <==> self is Tree,
            entry is Commit <==> self is Commit,
    {
        match self {
            TreeEntry::Blob { path, sha, .. } => TreeEntry::Blob { path, mode: mode.to_mode(), sha },
            TreeEntry::Tree { path, sha, .. } => TreeEntry::Tree { path, mode: mode.to_mode(), sha },
            TreeEntry::Commit { path, sha, .. } => TreeEntry::Commit {
                path,
                mode: mode.to_mode(),
                sha,
            },
        }
    }

    /// The same entry at the given path.
    pub fn with_path(self, path: &str) -> (entry: TreeEntry)
        ensures
            entry.path() == path@,
            entry.mode() == self.mode(),
            entry.sha() == self.sha(),
            entry is Blob <==> self is Blob,
            entry is Tree <==> self is Tree,
            entry is Commit <==> self is Commit,
    {
        match self {
            TreeEntry::Blob { mode, sha, .. } => TreeEntry::Blob { path: path.to_owned(), mode, sha },
            TreeEntry::Tree { mode, sha, .. } => TreeEntry::Tree { path: path.to_owned(), mode, sha },
            TreeEntry::Commit { mode, sha, .. } => TreeEntry::Commit {
                path: path.to_owned(),
                mode,
                sha,
            },
        }
    }
}

/// A tree as the server knows it: its entries in the server's order, and its hash.
#[derive(Debug, PartialEq, Eq)]
pub struct Tree {
    pub tree: Vec<TreeEntry>,
    pub sha: Sha,
}

impl Clone for Tree {
    fn clone(&self) -> (tree: Tree)
        ensures
            tree.sha == self.sha,
            tree.tree@ == self.tree@,
    {
        let mut entries: Vec<TreeEntry> = Vec::new();
        let mut i: usize = 0;
        while i < self.tree.len()
            invariant
                i <= self.tree.len(),
                entries@ == self.tree@.take(i as int),
            decreases self.tree.len() - i,
        {
            entries.push(self.tree[i].clone());
            i = i + 1;
            assert(entries@ == self.tree@.take(i as int));
        }
        assert(self.tree@.take(self.tree.len() as int) == self.tree@);
        Tree { tree: entries, sha: self.sha.clone() }
    }
}

/// The given entries, copied in their order.
pub fn copy_entries(entries: &Vec<TreeEntry>) -> (copy: Vec<TreeEntry>)
    ensures
        copy@ == entries@,
{
    let mut copy: Vec<TreeEntry> = Vec::new();
    let mut i: usize = 0;
    while i < entries.len()
        invariant
            i <= entries.len(),
            copy@ == entries@.take(i as int),
        decreases entries.len() - i,
    {
        copy.push(entries[i].clone());
        i = i + 1;
        assert(copy@ == entries@.take(i as int));
    }
    assert(entries@.take(entries.len() as int) == entries@);
    copy
}

impl Tree {
    /// The request for the tree with the given hash: with `recursive`, the
    /// query asks for everything below the tree too.
    pub open spec fn fetch_view(repository: HandleRepository, sha: Seq<char>, recursive: bool) -> RequestView {
        RequestView {
            method: Method::Get,
            endpoint: repository.endpoint() + "/git/trees/"@ + sha,
            query: if recursive {
                seq![("recursive"@, "true"@)]
            } else {
                Seq::empty()
            },
            payload: PayloadView::Empty,
        }
    }

    /// The request that asks for the tree with the given hash.
    pub fn fetch_request(repository: &HandleRepository, sha: &Sha, recursive: bool) -> (request:
        Request)
        ensures
            request@ == Tree::fetch_view(*repository, sha@, recursive),
    {
        let mut endpoint = repository.get_endpoint();
        endpoint.append("/git/trees/");
        endpoint.append(sha.as_ref());
        let request = Request::new(Method::Get, endpoint, Payload::Empty);
        if recursive {
            let request = request.with_query("recursive", "true");
            assert(request@.query == seq![("recursive"@, "true"@)]);
            request
        } else {
            request
        }
    }

    /// The tree that the service answered with, on fetching and on creating alike.
    pub fn try_fetch(answer: Result<Tree, ClientError>) -> (fetched: Result<Tree, TreeError>)
        ensures
            fetched == match answer {
                Ok(tree) => Ok::<Tree, TreeError>(tree),
                Err(error) => Err(TreeError::Client(error)),
            },
    {
        match answer {
            Ok(tree) => Ok(tree),
            Err(error) => Err(TreeError::Client(error)),
        }
    }

    /// The request that creates a tree of the given entries.
    pub fn create_request(repository: &HandleRepository, entries: &Vec<TreeEntry>) -> (request:
        Request)
        ensures
            request@ == (RequestView {
                method: Method::Post,
                endpoint: repository.endpoint() + "/git/trees"@,
                query: Seq::empty(),
                payload: PayloadView::Tree { base_tree: None, tree: entries@ },
            }),
    {
        let mut endpoint = repository.get_endpoint();
        endpoint.append("/git/trees");
        Request::new(
            Method::Post,
            endpoint,
            Payload::Tree { base_tree: None, tree: copy_entries(entries) },
        )
    }

    /// The tree that the service made.
    pub fn try_create(answer: Result<Tree, ClientError>) -> (created: Result<Tree, TreeError>)
        ensures
            created == match answer {
                Ok(tree) => Ok::<Tree, TreeError>(tree),
                Err(error) => Err(TreeError::Client(error)),
            },
    {
        Tree::try_fetch(answer)
    }

    /// The request that creates a tree of the given entries on top of `base`,
    /// the tree of the commit to build on: the service merges the two.
    pub fn create_with_base_request(repository: &HandleRepository, base: &Tree, entries: &Vec<
        TreeEntry,
    >) -> (request: Request)
        ensures
            request@ == (RequestView {
                method: Method::Post,
                endpoint: repository.endpoint() + "/git/trees"@,
                query: Seq::empty(),
                payload: PayloadView::Tree { base_tree: Some(base.sha@), tree: entries@ },
            }),
    {
        let mut endpoint = repository.get_endpoint();
        endpoint.append("/git/trees");
        Request::new(
            Method::Post,
            endpoint,
            Payload::Tree { base_tree: Some(base.sha.clone()), tree: copy_entries(entries) },
        )
    }

    /// The tree that the service made on top of the base.
    pub fn try_create_with_base(answer: Result<Tree, ClientError>) -> (created: Result<
        Tree,
        TreeError,
    >)
        ensures
            created == match answer {
                Ok(tree) => Ok::<Tree, TreeError>(tree),
                Err(error) => Err(TreeError::Client(error)),
            },
    {
        Tree::try_fetch(answer)
    }

    /// The entries of the tree.
    pub fn entries(&self) -> (entries: &Vec<TreeEntry>)
        ensures
            *entries == self.tree,
    {
        &self.tree
    }

    /// The hash of the tree.
    pub fn get_sha(&self) -> (sha: Sha)
        ensures
            sha == self.sha,
    {
        self.sha.clone()
    }

    /// The hash, as the tree is shown.
    pub fn to_string(&self) -> (text: String)
        ensures
            text@ == self.sha@,
    {
        self.sha.to_string()
    }
}

impl From<ClientError> for TreeError {
    fn from(error: ClientError) -> (wrapped: TreeError) {
        TreeError::Client(error)
    }
}

impl vstd::std_specs::convert::FromSpecImpl<ClientError> for TreeError {
    open spec fn obeys_from_spec() -> bool {
        true
    }

    open spec fn from_spec(error: ClientError) -> TreeError {
        TreeError::Client(error)
    }
}

} // verus!
