use vstd::prelude::*;
use crate::id::ID;

verus! {

/// An entity that owns one identifier and carries a descriptive label.
#[derive(Debug)]
pub struct Node {
    id: ID,
    label: String,
}

impl View for Node {
    /// The identifier's text and the label.
    type V = (Seq<char>, Seq<char>);

    closed spec fn view(&self) -> (Seq<char>, Seq<char>) {
        (self.id@, self.label@)
    }
}

impl Node {
    /// Makes a node that takes ownership of `id` and holds a copy of `label`.
    pub fn new(id: ID, label: &str) -> (r: Self)
        ensures
            r@ == (id@, label@),
    {
        Node { id, label: label.to_string() }
    }

    /// The node's identifier, the one it was made with.
    pub fn id(&self) -> (r: &ID)
        ensures
            r@ == self@.0,
    {
        &self.id
    }

    /// The node's label, the one it was made with.
    pub fn label(&self) -> (r: &str)
        ensures
            r@ == self@.1,
    {
        self.label.as_str()
    }
}

} // verus!
