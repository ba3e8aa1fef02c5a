//! Accounts as the service describes them.
use crate::text::same_text;
use crate::Number;
use vstd::prelude::*;

verus! {

/// An account of one of the four kinds that the service tells apart by its
/// `type`. Two descriptions are equal when their numbers are.
#[derive(Debug, Hash, Eq)]
pub enum User {
    Organization { name: String, number: usize },
    Mannequin { name: String, number: usize },
    User { name: String, number: usize },
    Bot { name: String, number: usize },
}

/// The four kinds of account.
#[derive(Debug, Clone, Copy, PartialEq, Eq, Structural)]
pub enum UserKind {
    Organization,
    Mannequin,
    User,
    Bot,
}

/// The kind that a `type` on the wire names.
pub open spec fn kind_of(text: Seq<char>) -> Option<UserKind> {
    if text == "Organization"@ {
        Some(UserKind::Organization)
    } else if text == "Mannequin"@ {
        Some(UserKind::Mannequin)
    } else if text == "User"@ {
        Some(UserKind::User)
    } else if text == "Bot"@ {
        Some(UserKind::Bot)
    } else {
        None
    }
}

impl User {
    /// The login of the account.
    pub open spec fn name(&self) -> Seq<char> {
        match *self {
            User::Organization { name, .. } => name@,
            User::Mannequin { name, .. } => name@,
            User::User { name, .. } => name@,
            User::Bot { name, .. } => name@,
        }
    }

    /// The number of the account.
    pub open spec fn number(&self) -> usize {
        match *self {
            User::Organization { number, .. } => number,
            User::Mannequin { number, .. } => number,
            User::User { number, .. } => number,
            User::Bot { number, .. } => number,
        }
    }

    /// The kind of the account.
    pub open spec fn kind(&self) -> UserKind {
        match *self {
            User::Organization { .. } => UserKind::Organization,
            User::Mannequin { .. } => UserKind::Mannequin,
            User::User { .. } => UserKind::User,
            User::Bot { .. } => UserKind::Bot,
        }
    }

    /// The account of the kind that `kind` names on the wire; a name that
    /// is none of the four gives nothing.
    pub fn from_kind(kind: &str, name: String, number: usize) -> (user: Option<User>)
        ensures
            match kind_of(kind@) {
                Some(found) => user matches Some(made) && made.kind() == found && made.name()
                    == name@ && made.number() == number,
                None => user is None,
            },
    {
        if same_text(kind, "Organization") {
            Some(User::Organization { name, number })
        } else if same_text(kind, "Mannequin") {
            Some(User::Mannequin { name, number })
        } else if same_text(kind, "User") {
            Some(User::User { name, number })
        } else if same_text(kind, "Bot") {
            Some(User::Bot { name, number })
        } else {
            None
        }
    }

    /// The login of the account.
    pub fn get_name(&self) -> (name: String)
        ensures
            name@ == self.name(),
    {
        match self {
            User::Organization { name, .. } => name.clone(),
            User::Mannequin { name, .. } => name.clone(),
            User::User { name, .. } => name.clone(),
            User::Bot { name, .. } => name.clone(),
        }
    }

    /// The number of the account.
    pub fn get_number(&self) -> (number: Number)
        ensures
            number == self.number(),
    {
        match self {
            User::Organization { number, .. } => *number,
            User::Mannequin { number, .. } => *number,
            User::User { number, .. } => *number,
            User::Bot { number, .. } => *number,
        }
    }

    pub fn is_organization(&self) -> (is: bool)
        ensures
            is == (self.kind() == UserKind::Organization),
    {
        match self {
            User::Organization { .. } => true,
            _ => false,
        }
    }

    pub fn is_mannequin(&self) -> (is: bool)
        ensures
            is == (self.kind() == UserKind::Mannequin),
    {
        match self {
            User::Mannequin { .. } => true,
            _ => false,
        }
    }

    pub fn is_user(&self) -> (is: bool)
        ensures
            is == (self.kind() == UserKind::User),
    {
        match self {
            User::User { .. } => true,
            _ => false,
        }
    }

    pub fn is_bot(&self) -> (is: bool)
        ensures
            is == (self.kind() == UserKind::Bot),
    {
        match self {
            User::Bot { .. } => true,
            _ => false,
        }
    }

    /// The login, as the account is shown.
    pub fn to_string(&self) -> (text: String)
        ensures
            text@ == self.name(),
    {
        self.get_name()
    }

    /// The login of the account.
    pub fn as_ref(&self) -> (name: &str)
        ensures
            name@ == self.name(),
    {
        match self {
            User::Organization { name, .. } => name.as_str(),
            User::Mannequin { name, .. } => name.as_str(),
            User::User { name, .. } => name.as_str(),
            User::Bot { name, .. } => name.as_str(),
        }
    }
}

impl Clone for User {
    fn clone(&self) -> (user: User)
        ensures
            user == *self,
    {
        match self {
            User::Organization { name, number } => User::Organization {
                name: name.clone(),
                number: *number,
            },
            User::Mannequin { name, number } => User::Mannequin {
                name: name.clone(),
                number: *number,
            },
            User::User { name, number } => User::User { name: name.clone(), number: *number },
            User::Bot { name, number } => User::Bot { name: name.clone(), number: *number },
        }
    }
}

impl PartialEq for User {
    fn eq(&self, other: &User) -> (same: bool) {
        self.get_number() == other.get_number()
    }
}

impl vstd::std_specs::cmp::PartialEqSpecImpl for User {
    open spec fn obeys_eq_spec() -> bool {
        true
    }

    open spec fn eq_spec(&self, other: &User) -> bool {
        self.number() == other.number()
    }
}

} // verus!
