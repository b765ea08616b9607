use crate::data::DatabaseId;
use vstd::prelude::*;

verus! {

/// The identifier of a clip.
#[derive(Debug, Clone, Copy, PartialEq, Eq, Structural)]
pub struct ClipId(DatabaseId);

impl View for ClipId {
    type V = u128;

    closed spec fn view(&self) -> u128 {
        self.0@
    }
}

impl ClipId {
    /// The clip identifier that holds `id`.
    pub fn new(id: DatabaseId) -> (r: Self)
        ensures
            r@ == id@,
    {
        ClipId(id)
    }

    /// Gives up the identifier.
    pub fn into_inner(self) -> (r: DatabaseId)
        ensures
            r@ == self@,
    {
        self.0
    }
}

impl Default for ClipId {
    /// The nil identifier.
    fn default() -> (r: Self)
        ensures
            r@ == 0,
    {
        ClipId(DatabaseId::nil())
    }
}

} // verus!
