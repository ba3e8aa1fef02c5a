//! The difference between two commits.
use crate::client::ClientError;
use crate::repository::commit::HandleCommit;
use crate::repository::sha::Sha;
use vstd::prelude::*;
use vstd::string::StringExecFns;

verus! {

/// One file of a comparison, under what became of it from the base to the head.
#[derive(Debug, PartialEq, Eq)]
pub enum CompareFile {
    Added { path: String, sha: Sha },
    Removed { path: String, sha: Sha },
    Modified { path: String, sha: Sha },
    Renamed { path: String, sha: Sha },
    Copied { path: String, sha: Sha },
    Changed { path: String, sha: Sha },
    Unchanged { path: String, sha: Sha },
}

/// The seven things that can have become of a file.
#[derive(Debug, Clone, Copy, PartialEq, Eq, Structural)]
pub enum CompareStatus {
    Added,
    Removed,
    Modified,
    Renamed,
    Copied,
    Changed,
    Unchanged,
}

/// The status that a `status` on the wire names.
pub open spec fn status_of(text: Seq<char>) -> Option<CompareStatus> {
    if text == "added"@ {
        Some(CompareStatus::Added)
    } else if text == "removed"@ {
        Some(CompareStatus::Removed)
    } else if text == "modified"@ {
        Some(CompareStatus::Modified)
    } else if text == "renamed"@ {
        Some(CompareStatus::Renamed)
    } else if text == "copied"@ {
        Some(CompareStatus::Copied)
    } else if text == "changed"@ {
        Some(CompareStatus::Changed)
    } else if text == "unchanged"@ {
        Some(CompareStatus::Unchanged)
    } else {
        None
    }
}

impl CompareFile {
    /// What became of the file.
    pub open spec fn status(&self) -> CompareStatus {
        match *self {
            CompareFile::Added { .. } => CompareStatus::Added,
            CompareFile::Removed { .. } => CompareStatus::Removed,
            CompareFile::Modified { .. } => CompareStatus::Modified,
            CompareFile::Renamed { .. } => CompareStatus::Renamed,
            CompareFile::Copied { .. } => CompareStatus::Copied,
            CompareFile::Changed { .. } => CompareStatus::Changed,
            CompareFile::Unchanged { .. } => CompareStatus::Unchanged,
        }
    }

    /// The path of the file.
    pub open spec fn path(&self) -> String {
        match *self {
            CompareFile::Added { path, .. } => path,
            CompareFile::Removed { path, .. } => path,
            CompareFile::Modified { path, .. } => path,
            CompareFile::Renamed { path, .. } => path,
            CompareFile::Copied { path, .. } => path,
            CompareFile::Changed { path, .. } => path,
            CompareFile::Unchanged { path, .. } => path,
        }
    }

    /// The hash of the file's content.
    pub open spec fn sha(&self) -> Sha {
        match *self {
            CompareFile::Added { sha, .. } => sha,
            CompareFile::Removed { sha, .. } => sha,
            CompareFile::Modified { sha, .. } => sha,
            CompareFile::Renamed { sha, .. } => sha,
            CompareFile::Copied { sha, .. } => sha,
            CompareFile::Changed { sha, .. } => sha,
            CompareFile::Unchanged { sha, .. } => sha,
        }
    }

    /// The record of a file whose status the wire names by `status`; a name
    /// outside the seven gives nothing.
    pub fn from_status(status: &str, path: String, sha: Sha) -> (file: Option<CompareFile>)
        ensures
            match status_of(status@) {
                Some(found) => file matches Some(made) && made.status() == found && made.path()
                    == path && made.sha() == sha,
                None => file is None,
            },
    {
        if crate::text::same_text(status, "added") {
            Some(CompareFile::Added { path, sha })
        } else if crate::text::same_text(status, "removed") {
            Some(CompareFile::Removed { path, sha })
        } else if crate::text::same_text(status, "modified") {
            Some(CompareFile::Modified { path, sha })
        } else if crate::text::same_text(status, "renamed") {
            Some(CompareFile::Renamed { path, sha })
        } else if crate::text::same_text(status, "copied") {
            Some(CompareFile::Copied { path, sha })
        } else if crate::text::same_text(status, "changed") {
            Some(CompareFile::Changed { path, sha })
        } else if crate::text::same_text(status, "unchanged") {
            Some(CompareFile::Unchanged { path, sha })
        } else {
            None
        }
    }
}

impl Clone for CompareFile {
    fn clone(&self) -> (file: CompareFile)
        ensures
            file == *self,
    {
        match self {
            CompareFile::Added { path, sha } => CompareFile::Added {
                path: path.clone(),
                sha: sha.clone(),
            },
            CompareFile::Removed { path, sha } => CompareFile::Removed {
                path: path.clone(),
                sha: sha.clone(),
            },
            CompareFile::Modified { path, sha } => CompareFile::Modified {
                path: path.clone(),
                sha: sha.clone(),
            },
            CompareFile::Renamed { path, sha } => CompareFile::Renamed {
                path: path.clone(),
                sha: sha.clone(),
            },
            CompareFile::Copied { path, sha } => CompareFile::Copied {
                path: path.clone(),
                sha: sha.clone(),
            },
            CompareFile::Changed { path, sha } => CompareFile::Changed {
                path: path.clone(),
                sha: sha.clone(),
            },
            CompareFile::Unchanged { path, sha } => CompareFile::Unchanged {
                path: path.clone(),
                sha: sha.clone(),
            },
        }
    }
}

/// Why two commits could not be compared.
#[derive(Debug, PartialEq, Eq)]
pub enum CompareError {
    Client(ClientError),
}

/// How a head differs from a base: the files that changed, in the service's order.
#[derive(Debug, PartialEq, Eq)]
pub struct Compare {
    pub files: Vec<CompareFile>,
    pub base: HandleCommit,
    pub head: HandleCommit,
}

impl Compare {
    /// The comparison of `base` and `head`, as the service answered.
    pub fn try_from_base_head(base: HandleCommit, head: HandleCommit, answer: Result<
        Vec<CompareFile>,
        ClientError,
    >) -> (compared: Result<Compare, CompareError>)
        ensures
            compared == match answer {
                Ok(files) => Ok::<Compare, CompareError>(Compare { files, base, head }),
                Err(error) => Err(CompareError::Client(error)),
            },
    {
        match answer {
            Ok(files) => Ok(Compare { files, base, head }),
            Err(error) => Err(CompareError::Client(error)),
        }
    }

    /// The files that changed.
    pub fn files(&self) -> (files: &Vec<CompareFile>)
        ensures
            *files == self.files,
    {
        &self.files
    }

    /// The commit compared from.
    pub fn get_base(&self) -> (base: HandleCommit)
        ensures
            base == self.base,
    {
        self.base.clone()
    }

    /// The commit compared to.
    pub fn get_head(&self) -> (head: HandleCommit)
        ensures
            head == self.head,
    {
        self.head.clone()
    }

    /// The two hashes with `..` between them, as the comparison is shown.
    pub fn to_string(&self) -> (text: String)
        ensures
            text@ == self.base.sha@ + ".."@ + self.head.sha@,
    {
        let mut text = self.base.to_string();
        text.append("..");
        text.append(self.head.sha.as_ref());
        text
    }
}

impl From<ClientError> for CompareError {
    fn from(error: ClientError) -> (wrapped: CompareError) {
        CompareError::Client(error)
    }
}

impl vstd::std_specs::convert::FromSpecImpl<ClientError> for CompareError {
    open spec fn obeys_from_spec() -> bool {
        true
    }

    open spec fn from_spec(error: ClientError) -> CompareError {
        CompareError::Client(error)
    }
}

} // verus!
