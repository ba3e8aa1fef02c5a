//! Commits as the service describes them.
use crate::common::Date;
use crate::repository::sha::Sha;
use vstd::prelude::*;

verus! {

/// Who wrote a commit, and when.
#[derive(Debug, PartialEq, Eq)]
pub struct CommitAuthor {
    pub email: String,
    pub name: String,
    pub date: Date,
}

impl Clone for CommitAuthor {
    fn clone(&self) -> (author: CommitAuthor)
        ensures
            author == *self,
    {
        CommitAuthor { email: self.email.clone(), name: self.name.clone(), date: self.date }
    }
}

impl CommitAuthor {
    pub fn get_name(&self) -> (name: String)
        ensures
            name == self.name,
    {
        self.name.clone()
    }

    pub fn get_email(&self) -> (email: String)
        ensures
            email == self.email,
    {
        self.email.clone()
    }

    pub fn get_date(&self) -> (date: Date)
        ensures
            date == self.date,
    {
        self.date
    }
}

/// Whether a commit is signed, and with what.
#[derive(Debug, PartialEq, Eq)]
pub enum CommitVerification {
    Signed { signature: String, payload: String },
    Unsigned,
}

/// The entry that a signed commit must come with, and did not.
#[derive(Debug, Clone, Copy, PartialEq, Eq, Structural)]
pub enum MissingField {
    Signature,
    Payload,
}

/// A verification as it travels: `verified`, and where the commit is signed,
/// `signature` and `payload`.
#[derive(Debug, PartialEq, Eq)]
pub struct VerificationParts {
    pub verified: bool,
    pub signature: Option<String>,
    pub payload: Option<String>,
}

impl Clone for CommitVerification {
    fn clone(&self) -> (verification: CommitVerification)
        ensures
            verification == *self,
    {
        match self {
            CommitVerification::Signed { signature, payload } => CommitVerification::Signed {
                signature: signature.clone(),
                payload: payload.clone(),
            },
            CommitVerification::Unsigned => CommitVerification::Unsigned,
        }
    }
}

impl CommitVerification {
    /// What a verification on the wire stands for. An unverified commit is
    /// unsigned whatever else is there; a verified one needs its signature
    /// and its payload, and the signature is looked for first.
    pub open spec fn of(parts: VerificationParts) -> Result<CommitVerification, MissingField> {
        if !parts.verified {
            Ok(CommitVerification::Unsigned)
        } else {
            match (parts.signature, parts.payload) {
                (None, _) => Err(MissingField::Signature),
                (Some(_), None) => Err(MissingField::Payload),
                (Some(signature), Some(payload)) => Ok(
                    CommitVerification::Signed { signature, payload },
                ),
            }
        }
    }

    /// The verification as it travels.
    pub open spec fn parts(&self) -> VerificationParts {
        match *self {
            CommitVerification::Signed { signature, payload } => VerificationParts {
                verified: true,
                signature: Some(signature),
                payload: Some(payload),
            },
            CommitVerification::Unsigned => VerificationParts {
                verified: false,
                signature: None,
                payload: None,
            },
        }
    }

    /// What travels and what is read back are the same verification.
    pub proof fn lemma_parts_read_back(verification: CommitVerification)
        ensures
            CommitVerification::of(verification.parts()) == Ok::<
                CommitVerification,
                MissingField,
            >(verification),
    {
    }

    pub fn is_verified(&self) -> (verified: bool)
        ensures
            verified == (*self is Signed),
    {
        match self {
            CommitVerification::Signed { .. } => true,
            CommitVerification::Unsigned => false,
        }
    }

    /// Takes the verification apart for the wire.
    pub fn serialize(&self) -> (parts: VerificationParts)
        ensures
            parts == self.parts(),
    {
        match self {
            CommitVerification::Signed { signature, payload } => VerificationParts {
                verified: true,
                signature: Some(signature.clone()),
                payload: Some(payload.clone()),
            },
            CommitVerification::Unsigned => VerificationParts {
                verified: false,
                signature: None,
                payload: None,
            },
        }
    }

    /// Reads a verification from the wire.
    pub fn deserialize(parts: VerificationParts) -> (verification: Result<
        CommitVerification,
        MissingField,
    >)
        ensures
            verification == CommitVerification::of(parts),
    {
        if parts.verified {
            match parts.signature {
                None => Err(MissingField::Signature),
                Some(signature) => match parts.payload {
                    None => Err(MissingField::Payload),
                    Some(payload) => Ok(CommitVerification::Signed { signature, payload }),
                },
            }
        } else {
            Ok(CommitVerification::Unsigned)
        }
    }
}

/// What the service tells of a commit.
#[derive(Debug, PartialEq, Eq)]
pub struct Commit {
    pub author: CommitAuthor,
    pub verified: CommitVerification,
    pub parents: Vec<Sha>,
}

impl Commit {
    /// The description made of what the wire holds in two places: the author
    /// and the verification under `commit`, the parents' hashes beside it.
    pub fn deserialize(author: CommitAuthor, verified: CommitVerification, parents: Vec<Sha>) -> (commit:
        Commit)
        ensures
            commit == (Commit { author, verified, parents }),
    {
        Commit { author, verified, parents }
    }
}

} // verus!
