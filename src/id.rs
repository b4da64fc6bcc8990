use vstd::prelude::*;

verus! {

/// An identifier: a thin value object around a text value.
#[derive(Debug)]
pub struct ID {
    value: String,
}

impl View for ID {
    type V = Seq<char>;

    /// The text the identifier was made from.
    closed spec fn view(&self) -> Seq<char> {
        self.value@
    }
}

impl ID {
    /// Makes an identifier holding a copy of `value`.
    pub fn new(value: &str) -> (r: Self)
        ensures
            r@ == value@,
    {
        ID { value: value.to_string() }
    }

    /// The text held by the identifier, exactly as it was given to `new`.
    pub fn value(&self) -> (r: &str)
        ensures
            r@ == self@,
    {
        self.value.as_str()
    }
}

} // verus!
