use vstd::prelude::*;
use crate::id::ID;

verus! {

/// An ordered sequence of identifiers.
#[derive(Debug)]
pub struct IdCollection {
    value: Vec<ID>,
}

impl View for IdCollection {
    /// The texts of the identifiers, in order.
    type V = Seq<Seq<char>>;

    closed spec fn view(&self) -> Seq<Seq<char>> {
        self.value@.map_values(|i: ID| i@)
    }
}

impl IdCollection {
    /// Makes an empty collection.
    pub fn new() -> (r: Self)
        ensures
            r@ == Seq::<Seq<char>>::empty(),
            r@.len() == 0,
    {
        let r = IdCollection { value: Vec::new() };
        assert(r@ =~= Seq::<Seq<char>>::empty());
        r
    }

    /// The number of identifiers in the collection.
    pub fn len(&self) -> (r: usize)
        ensures
            r == self@.len(),
    {
        self.value.len()
    }

    /// Whether the collection holds no identifier.
    pub fn is_empty(&self) -> (r: bool)
        ensures
            r == (self@.len() == 0),
    {
        self.value.len() == 0
    }
}

} // verus!
