//! Comments as the service describes them.
use crate::models::common::user::User;
use crate::Number;
use vstd::prelude::*;

verus! {

/// A comment on an issue.
#[derive(Debug, Hash, PartialEq, Eq)]
pub struct Comment {
    pub body: String,
    pub author: User,
    pub number: usize,
}

impl Clone for Comment {
    fn clone(&self) -> (comment: Comment)
        ensures
            comment == *self,
    {
        Comment { body: self.body.clone(), author: self.author.clone(), number: self.number }
    }
}

impl Comment {
    /// Who wrote the comment.
    pub fn get_author(&self) -> (author: User)
        ensures
            author == self.author,
    {
        self.author.clone()
    }

    /// The number of the comment.
    pub fn get_number(&self) -> (number: Number)
        ensures
            number == self.number,
    {
        self.number
    }

    /// The text of the comment.
    pub fn get_body(&self) -> (body: String)
        ensures
            body == self.body,
    {
        self.body.clone()
    }

    /// Replaces the text of the comment.
    pub fn set_body(&mut self, body: &str)
        ensures
            final(self).body@ == body@,
            final(self).author == old(self).author,
            final(self).number == old(self).number,
    {
        self.body = body.to_owned();
    }

    /// The same comment with another text.
    pub fn with_body(self, body: &str) -> (comment: Comment)
        ensures
            comment.body@ == body@,
            comment.author == self.author,
            comment.number == self.number,
    {
        let mut comment = self;
        comment.set_body(body);
        comment
    }

    /// The number, as the comment is shown.
    pub fn to_string(&self) -> (text: String)
        ensures
            text@ == crate::text::digits_of(self.number as nat, 10),
    {
        crate::text::decimal_text(self.number)
    }
}

} // verus!
