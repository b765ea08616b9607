use crate::domain::clip::ClipError;
use crate::domain::time::{midnight_text, utc_seconds, Time};
use vstd::prelude::*;

verus! {

/// A text without the white space at its ends: what `str::trim` gives for
/// it.
pub uninterp spec fn trimmed(text: Seq<char>) -> Seq<char>;

/// `str::trim` gives the text without leading and trailing white space. The
/// result goes by the name [`trimmed`].
pub assume_specification[ str::trim ](text: &str) -> (r: &str)
    ensures
        r@ == trimmed(text@),
;

/// When a clip expires, if it ever does.
#[derive(Debug, Clone, Copy, PartialEq, Eq, Structural)]
pub struct ExpiresAt(Option<Time>);

impl View for ExpiresAt {
    type V = Option<i64>;

    closed spec fn view(&self) -> Option<i64> {
        match self.0 {
            Some(time) => Some(time@),
            None => None,
        }
    }
}

impl ExpiresAt {
    /// The expiration `expires_at`; `None` is a clip that never expires.
    pub fn new(expires_at: Option<Time>) -> (r: Self)
        ensures
            r@ == match expires_at {
                Some(time) => Some(time@),
                None => None,
            },
    {
        ExpiresAt(expires_at)
    }

    /// Gives up the instant.
    pub fn into_inner(self) -> (r: Option<Time>)
        ensures
            self@ == match r {
                Some(time) => Some(time@),
                None => None,
            },
    {
        self.0
    }

    /// Reads an expiration from text: the empty text is "never", any other
    /// text is a date read as [`Time::from_str`] reads it.
    pub fn from_str(s: &str) -> (r: Result<Self, ClipError>)
        ensures
            s@.len() == 0 ==> r is Ok && r->Ok_0@ is None,
            s@.len() > 0 ==> match utc_seconds(midnight_text(s@)) {
                Some(seconds) => r is Ok && r->Ok_0@ == Some(seconds),
                None => r is Err && r->Err_0 is DateParseError,
            },
    {
        if s.is_empty() {
            Ok(ExpiresAt(None))
        } else {
            match Time::from_str(s) {
                Ok(time) => Ok(ExpiresAt(Some(time))),
                Err(e) => Err(ClipError::DateParseError(e)),
            }
        }
    }
}

impl ExpiresAt {
    /// Reads an expiration from the field of a form: a field that is empty
    /// or holds white space only is "never", any other is read as
    /// [`ExpiresAt::from_str`] reads it, white space included.
    pub fn from_value(value: &str) -> (r: Result<Self, ClipError>)
        ensures
            trimmed(value@).len() == 0 ==> r is Ok && r->Ok_0@ is None,
            trimmed(value@).len() > 0 ==> match utc_seconds(midnight_text(value@)) {
                Some(seconds) => r is Ok && r->Ok_0@ == Some(seconds),
                None => r is Err && r->Err_0 is DateParseError,
            },
    {
        if value.trim().is_empty() {
            Ok(ExpiresAt(None))
        } else {
            match Time::from_str(value) {
                Ok(time) => Ok(ExpiresAt(Some(time))),
                Err(e) => Err(ClipError::DateParseError(e)),
            }
        }
    }
}

impl Default for ExpiresAt {
    /// A clip that never expires.
    fn default() -> (r: Self)
        ensures
            r@ is None,
    {
        ExpiresAt(None)
    }
}

} // verus!
