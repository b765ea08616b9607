use crate::domain::clip::ClipError;
use vstd::prelude::*;

verus! {

/// The body text of a clip. A `Content` is never empty.
#[derive(Debug)]
pub struct Content(String);

impl View for Content {
    type V = Seq<char>;

    closed spec fn view(&self) -> Seq<char> {
        self.0@
    }
}

impl Content {
    #[verifier::type_invariant]
    spec fn non_empty(self) -> bool {
        self.0@.len() > 0
    }

    /// Accepts every text but the empty one, and keeps it character for character.
    pub fn new(content: &str) -> (r: Result<Self, ClipError>)
        ensures
            content@.len() == 0 ==> r == Err::<Self, ClipError>(ClipError::EmptyContent),
            content@.len() > 0 ==> r is Ok && r->Ok_0@ == content@,
    {
        if content.is_empty() {
            return Err(ClipError::EmptyContent);
        }
        Ok(Content(content.to_owned()))
    }

    /// Gives up the text.
    pub fn into_inner(self) -> (r: String)
        ensures
            r@ == self@,
            r@.len() > 0,
    {
        proof {
            use_type_invariant(&self);
        }
        self.0
    }

    /// Lends the text.
    pub fn as_str(&self) -> (r: &str)
        ensures
            r@ == self@,
            r@.len() > 0,
    {
        proof {
            use_type_invariant(self);
        }
        self.0.as_str()
    }
}

impl Clone for Content {
    fn clone(&self) -> (r: Self)
        ensures
            r@ == self@,
    {
        proof {
            use_type_invariant(self);
        }
        Content(self.0.clone())
    }
}

} // verus!
