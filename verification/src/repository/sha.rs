//! The content hash that names every git object.
use crate::text::{
    chars_of, lemma_text_order_flips, lemma_text_order_same, order_chars, text_order, TextOrder,
};
use std::cmp::Ordering;
use vstd::std_specs::cmp::{PartialEqSpec, PartialOrdSpec};
use vstd::prelude::*;

verus! {

/// A content hash. Any text is accepted: the hash is a name, never checked against a format.
/// Two hashes are equal, and ordered, exactly as their texts are.
#[derive(Debug, Hash, Eq, Ord)]
pub struct Sha(pub String);

impl View for Sha {
    type V = Seq<char>;

    open spec fn view(&self) -> Seq<char> {
        self.0@
    }
}

impl Sha {
    /// The hash with the given text.
    pub fn new(value: &str) -> (sha: Sha)
        ensures
            sha@ == value@,
    {
        Sha(value.to_owned())
    }

    /// A hash of its own with the same text.
    pub fn to_owned(&self) -> (sha: Sha)
        ensures
            sha == *self,
    {
        Sha(self.0.clone())
    }

    /// The text of the hash.
    pub fn as_ref(&self) -> (text: &str)
        ensures
            text@ == self@,
    {
        self.0.as_str()
    }

    /// The raw hash, as it is shown and as it stands in a path.
    pub fn to_string(&self) -> (text: String)
        ensures
            text@ == self@,
    {
        self.0.clone()
    }
}

impl Clone for Sha {
    fn clone(&self) -> (sha: Sha)
        ensures
            sha == *self,
    {
        Sha(self.0.clone())
    }
}

impl Default for Sha {
    fn default() -> (sha: Sha)
        ensures
            sha@ == Seq::<char>::empty(),
    {
        Sha(String::new())
    }
}

impl From<String> for Sha {
    fn from(value: String) -> (sha: Sha) {
        Sha(value)
    }
}

impl vstd::std_specs::convert::FromSpecImpl<String> for Sha {
    open spec fn obeys_from_spec() -> bool {
        true
    }

    open spec fn from_spec(value: String) -> Sha {
        Sha(value)
    }
}

impl PartialEq for Sha {
    fn eq(&self, other: &Sha) -> (same: bool) {
        self.0 == other.0
    }
}

impl vstd::std_specs::cmp::PartialEqSpecImpl for Sha {
    open spec fn obeys_eq_spec() -> bool {
        true
    }

    open spec fn eq_spec(&self, other: &Sha) -> bool {
        self@ == other@
    }
}

impl PartialOrd for Sha {
    fn partial_cmp(&self, other: &Sha) -> (order: Option<Ordering>) {
        let left = chars_of(self.0.as_str());
        let right = chars_of(other.0.as_str());
        match order_chars(&left, &right) {
            TextOrder::Before => Some(Ordering::Less),
            TextOrder::Same => Some(Ordering::Equal),
            TextOrder::After => Some(Ordering::Greater),
        }
    }
}

impl vstd::std_specs::cmp::PartialOrdSpecImpl for Sha {
    open spec fn obeys_partial_cmp_spec() -> bool {
        true
    }

    open spec fn partial_cmp_spec(&self, other: &Sha) -> Option<Ordering> {
        match text_order(self@, other@) {
            TextOrder::Before => Some(Ordering::Less),
            TextOrder::Same => Some(Ordering::Equal),
            TextOrder::After => Some(Ordering::Greater),
        }
    }
}

/// Hashes are compared as their texts are: two hashes are equal exactly
/// when neither comes before the other, which is when their texts are the
/// same, and one comes before another exactly when the other comes after it.
pub proof fn lemma_sha_order_is_text_order(a: Sha, b: Sha)
    ensures
        a.eq_spec(&b) <==> a@ == b@,
        a.partial_cmp_spec(&b) == Some(Ordering::Equal) <==> a@ == b@,
        a.partial_cmp_spec(&b) == Some(Ordering::Less) <==> b.partial_cmp_spec(&a) == Some(
            Ordering::Greater,
        ),
        a.partial_cmp_spec(&b) is Some,
{
    lemma_text_order_same(a@, b@);
    lemma_text_order_flips(a@, b@);
}

} // verus!
