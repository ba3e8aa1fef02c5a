//! Teams as the service describes them.
use crate::Number;
use vstd::prelude::*;

verus! {

/// A team of an organization. Two descriptions are equal when their numbers
/// and their slugs are.
#[derive(Debug, Eq)]
pub struct Team {
    pub name: String,
    pub description: String,
    pub slug: String,
    pub number: Number,
}

impl Team {
    /// The name of the team.
    pub fn get_name(&self) -> (name: String)
        ensures
            name == self.name,
    {
        self.name.clone()
    }

    /// What the team says of itself.
    pub fn get_description(&self) -> (description: String)
        ensures
            description == self.description,
    {
        self.description.clone()
    }

    /// The slug of the team: its name as it stands in a path.
    pub fn get_slug(&self) -> (slug: String)
        ensures
            slug == self.slug,
    {
        self.slug.clone()
    }

    /// The number of the team.
    pub fn get_number(&self) -> (number: Number)
        ensures
            number == self.number,
    {
        self.number
    }

    /// The slug, as the team is shown.
    pub fn to_string(&self) -> (text: String)
        ensures
            text == self.slug,
    {
        self.slug.clone()
    }

    /// The slug of the team.
    pub fn as_ref(&self) -> (slug: &str)
        ensures
            slug@ == self.slug@,
    {
        self.slug.as_str()
    }
}

impl Clone for Team {
    fn clone(&self) -> (team: Team)
        ensures
            team == *self,
    {
        Team {
            name: self.name.clone(),
            description: self.description.clone(),
            slug: self.slug.clone(),
            number: self.number,
        }
    }
}

impl PartialEq for Team {
    fn eq(&self, other: &Team) -> (same: bool) {
        self.number == other.number && self.slug == other.slug
    }
}

impl vstd::std_specs::cmp::PartialEqSpecImpl for Team {
    open spec fn obeys_eq_spec() -> bool {
        true
    }

    open spec fn eq_spec(&self, other: &Team) -> bool {
        self.number == other.number && self.slug@ == other.slug@
    }
}

} // verus!
