use rand::seq::SliceRandom;
use vstd::prelude::*;
use vstd::std_specs::cmp::PartialEqSpecImpl;
use vstd::std_specs::convert::FromSpecImpl;

verus! {

/// `String::push` appends one character to the end of the text.
pub assume_specification[ String::push ](text: &mut String, symbol: char)
    ensures
        final(text)@ == old(text)@.push(symbol),
;

/// Calls `rand::seq::SliceRandom::choose` with the generator of
/// `rand::thread_rng`: one element of the slice, picked at random, or
/// nothing where the slice is empty.
#[verifier::external_body]
fn pick_symbol(symbols: &[char]) -> (r: Option<char>)
    ensures
        r is None <==> symbols@.len() == 0,
        r matches Some(symbol) ==> symbols@.contains(symbol),
{
    symbols.choose(&mut rand::thread_rng()).copied()
}

/// The symbols that a generated code is drawn from.
pub open spec fn alphabet() -> Seq<char> {
    seq!['a', 'b', 'c', 'd', 'e', 'f', '1', '2', '3', '4']
}

/// The number of symbols in a generated code.
pub const GENERATED_LENGTH: usize = 10;

/// Whether `code` could have come out of [`ShortCode::new`]: ten symbols,
/// each of the alphabet.
pub open spec fn is_generated(code: Seq<char>) -> bool {
    &&& code.len() == GENERATED_LENGTH
    &&& forall|i: int| 0 <= i < code.len() ==> alphabet().contains(#[trigger] code[i])
}

/// The code under which a clip is looked up. A code that the service
/// generates has a fixed shape; one that a caller supplies is any text.
#[derive(Debug, Eq, Hash)]
pub struct ShortCode(String);

impl View for ShortCode {
    type V = Seq<char>;

    closed spec fn view(&self) -> Seq<char> {
        self.0@
    }
}

impl ShortCode {
    /// A fresh code: ten symbols, each drawn at random from the alphabet.
    pub fn new() -> (r: Self)
        ensures
            is_generated(r@),
    {
        let allowed_chars = ['a', 'b', 'c', 'd', 'e', 'f', '1', '2', '3', '4'];
        let mut shortcode = String::new();
        let mut n: usize = 0;
        while n < GENERATED_LENGTH
            invariant
                n <= GENERATED_LENGTH,
                allowed_chars@ == alphabet(),
                shortcode@.len() == n,
                forall|i: int| 0 <= i < n ==> alphabet().contains(#[trigger] shortcode@[i]),
            decreases GENERATED_LENGTH - n,
        {
            if let Some(symbol) = pick_symbol(allowed_chars.as_slice()) {
                shortcode.push(symbol);
            }
            n += 1;
        }
        ShortCode(shortcode)
    }

    /// The code with the given text, whatever it is.
    pub fn from_str(s: &str) -> (r: Self)
        ensures
            r@ == s@,
    {
        ShortCode(s.to_owned())
    }

    /// Gives up the code's text.
    pub fn into_inner(self) -> (r: String)
        ensures
            r@ == self@,
    {
        self.0
    }

    /// Lends the code's text.
    pub fn as_str(&self) -> (r: &str)
        ensures
            r@ == self@,
    {
        self.0.as_str()
    }
}

impl From<String> for ShortCode {
    /// The code with the given text, whatever it is.
    fn from(shortcode: String) -> (r: Self)
        ensures
            r@ == shortcode@,
    {
        ShortCode(shortcode)
    }
}

impl FromSpecImpl<String> for ShortCode {
    open spec fn obeys_from_spec() -> bool {
        true
    }

    closed spec fn from_spec(shortcode: String) -> Self {
        ShortCode(shortcode)
    }
}

impl From<ShortCode> for String {
    /// The code's text.
    fn from(shortcode: ShortCode) -> (r: Self)
        ensures
            r@ == shortcode@,
    {
        shortcode.0
    }
}

impl FromSpecImpl<ShortCode> for String {
    open spec fn obeys_from_spec() -> bool {
        true
    }

    closed spec fn from_spec(shortcode: ShortCode) -> Self {
        shortcode.0
    }
}

impl Default for ShortCode {
    /// A fresh code, as [`ShortCode::new`] makes one.
    fn default() -> (r: Self)
        ensures
            is_generated(r@),
    {
        Self::new()
    }
}

impl PartialEq for ShortCode {
    /// Two codes are equal when their texts are.
    fn eq(&self, other: &Self) -> (r: bool) {
        self.0 == other.0
    }
}

impl PartialEqSpecImpl for ShortCode {
    open spec fn obeys_eq_spec() -> bool {
        true
    }

    open spec fn eq_spec(&self, other: &Self) -> bool {
        self@ == other@
    }
}

impl Clone for ShortCode {
    fn clone(&self) -> (r: Self)
        ensures
            r@ == self@,
    {
        ShortCode(self.0.clone())
    }
}

} // verus!
