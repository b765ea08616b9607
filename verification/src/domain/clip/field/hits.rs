use vstd::prelude::*;

verus! {

/// How often a clip has been read.
#[derive(Debug, Clone, Copy, PartialEq, Eq, Structural)]
pub struct Hits(i64);

impl View for Hits {
    type V = i64;

    closed spec fn view(&self) -> i64 {
        self.0
    }
}

impl Hits {
    /// The count `hits`.
    pub fn new(hits: i64) -> (r: Self)
        ensures
            r@ == hits,
    {
        Hits(hits)
    }

    /// Gives up the count.
    pub fn into_inner(self) -> (r: i64)
        ensures
            r == self@,
    {
        self.0
    }
}

} // verus!
