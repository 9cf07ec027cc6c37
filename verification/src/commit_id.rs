//! The identifier of the commit a tag is attached to.

use vstd::prelude::*;

verus! {

/// An opaque, immutable commit identifier, written as the hexadecimal text
/// of the commit's object id. The popup treats it as a value and never
/// inspects it; its mathematical value is that text.
#[derive(Clone, Debug, PartialEq, Eq)]
pub struct CommitId {
    id: String,
}

impl View for CommitId {
    type V = Seq<char>;

    closed spec fn view(&self) -> Seq<char> {
        self.id@
    }
}

impl CommitId {
    /// Wraps the hexadecimal text of a commit's object id.
    pub fn new(id: String) -> (r: CommitId)
        ensures
            r@ == id@,
    {
        CommitId { id }
    }

    /// The hexadecimal text this identifier was created from.
    pub fn text(&self) -> (r: &String)
        ensures
            r@ == self@,
    {
        &self.id
    }
}

} // verus!
