use vstd::prelude::*;

verus! {

/// The title of a clip, if it has one. A title that is present is not empty.
#[derive(Debug)]
pub struct Title(Option<String>);

impl View for Title {
    type V = Option<Seq<char>>;

    closed spec fn view(&self) -> Option<Seq<char>> {
        match self.0 {
            Some(text) => Some(text@),
            None => None,
        }
    }
}

/// What [`Title::new`] keeps of a text that may be missing: the text, unless
/// it is missing or empty.
pub open spec fn kept_text(text: Option<Seq<char>>) -> Option<Seq<char>> {
    match text {
        Some(t) if t.len() > 0 => Some(t),
        _ => None,
    }
}

impl Title {
    #[verifier::type_invariant]
    spec fn present_is_non_empty(self) -> bool {
        self.0 matches Some(text) ==> text@.len() > 0
    }

    /// The title `title`; an empty text counts as no title.
    pub fn new(title: Option<String>) -> (r: Self)
        ensures
            r@ == kept_text(
                match title {
                    Some(text) => Some(text@),
                    None => None,
                },
            ),
    {
        match title {
            Some(text) => {
                if text.as_str().is_empty() {
                    Title(None)
                } else {
                    Title(Some(text))
                }
            },
            None => Title(None),
        }
    }

    /// Reads a title from text; the empty text is no title.
    pub fn from_str(s: &str) -> (r: Self)
        ensures
            r@ == kept_text(Some(s@)),
    {
        Title::new(Some(s.to_owned()))
    }

    /// Gives up the text.
    pub fn into_inner(self) -> (r: Option<String>)
        ensures
            self@ == match r {
                Some(text) => Some(text@),
                None => None,
            },
            r matches Some(text) ==> text@.len() > 0,
    {
        proof {
            use_type_invariant(&self);
        }
        self.0
    }
}

impl Default for Title {
    /// No title.
    fn default() -> (r: Self)
        ensures
            r@ is None,
    {
        Title(None)
    }
}

impl Clone for Title {
    fn clone(&self) -> (r: Self)
        ensures
            r@ == self@,
    {
        proof {
            use_type_invariant(self);
        }
        match &self.0 {
            Some(text) => Title(Some(text.clone())),
            None => Title(None),
        }
    }
}

} // verus!
