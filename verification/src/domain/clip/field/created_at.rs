use crate::domain::time::Time;
use vstd::prelude::*;

verus! {

/// When a clip was created.
#[derive(Debug, Clone, Copy, PartialEq, Eq, Structural)]
pub struct CreatedAt(Time);

impl View for CreatedAt {
    type V = i64;

    closed spec fn view(&self) -> i64 {
        self.0@
    }
}

impl CreatedAt {
    /// The creation time `time`.
    pub fn new(time: Time) -> (r: Self)
        ensures
            r@ == time@,
    {
        CreatedAt(time)
    }

    /// Gives up the instant.
    pub fn into_inner(self) -> (r: Time)
        ensures
            r@ == self@,
    {
        self.0
    }
}

} // verus!
