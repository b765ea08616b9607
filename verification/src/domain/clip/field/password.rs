use crate::domain::clip::ClipError;
use vstd::prelude::*;
use vstd::std_specs::cmp::PartialEqSpecImpl;

verus! {

/// The secret that guards a clip, if one is set. A secret that is set is not
/// empty: the empty text stands for "no password".
#[derive(Debug)]
pub struct Password(Option<String>);

impl View for Password {
    type V = Option<Seq<char>>;

    closed spec fn view(&self) -> Option<Seq<char>> {
        match self.0 {
            Some(secret) => Some(secret@),
            None => None,
        }
    }
}

impl Password {
    #[verifier::type_invariant]
    spec fn set_is_non_empty(self) -> bool {
        self.0 matches Some(secret) ==> secret@.len() > 0
    }

    /// The password `password`; the empty text is "no password". Every text
    /// is accepted.
    pub fn new(password: String) -> (r: Result<Self, ClipError>)
        ensures
            r is Ok,
            password@.len() == 0 ==> r->Ok_0@ is None,
            password@.len() > 0 ==> r->Ok_0@ == Some(password@),
    {
        if password.as_str().is_empty() {
            Ok(Password(None))
        } else {
            Ok(Password(Some(password)))
        }
    }

    /// Reads a password from text, as [`Password::new`] does.
    pub fn from_str(s: &str) -> (r: Result<Self, ClipError>)
        ensures
            r is Ok,
            s@.len() == 0 ==> r->Ok_0@ is None,
            s@.len() > 0 ==> r->Ok_0@ == Some(s@),
    {
        Password::new(s.to_owned())
    }

    /// Gives up the secret.
    pub fn into_inner(self) -> (r: Option<String>)
        ensures
            self@ == match r {
                Some(secret) => Some(secret@),
                None => None,
            },
            r matches Some(secret) ==> secret@.len() > 0,
    {
        proof {
            use_type_invariant(&self);
        }
        self.0
    }

    /// Whether a secret is set.
    pub fn has_password(&self) -> (r: bool)
        ensures
            r == self@.is_some(),
    {
        self.0.is_some()
    }
}

impl Default for Password {
    /// No password.
    fn default() -> (r: Self)
        ensures
            r@ is None,
    {
        Password(None)
    }
}

impl Clone for Password {
    fn clone(&self) -> (r: Self)
        ensures
            r@ == self@,
    {
        proof {
            use_type_invariant(self);
        }
        match &self.0 {
            Some(secret) => Password(Some(secret.clone())),
            None => Password(None),
        }
    }
}

impl PartialEq for Password {
    /// Two passwords are equal when both are unset, or both are set to the
    /// same text.
    fn eq(&self, other: &Self) -> (r: bool) {
        match (&self.0, &other.0) {
            (Some(a), Some(b)) => *a == *b,
            (None, None) => true,
            _ => false,
        }
    }
}

impl PartialEqSpecImpl for Password {
    open spec fn obeys_eq_spec() -> bool {
        true
    }

    open spec fn eq_spec(&self, other: &Self) -> bool {
        self@ == other@
    }
}

} // verus!
