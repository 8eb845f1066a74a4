//! The public lookup key of a clip.

use crate::domain::clip::ClipError;
use rand::seq::SliceRandom;
use vstd::prelude::*;
use vstd::std_specs::cmp::PartialEqSpecImpl;
use vstd::std_specs::convert::FromSpecImpl;

verus! {

/// The length of a generated code.
pub const CODE_LENGTH: usize = 10;

/// Whether `c` is one of the eight symbols that generated codes are made of.
pub open spec fn in_alphabet(c: char) -> bool {
    c == 'a' || c == 'b' || c == 'c' || c == 'd' || c == '1' || c == '2' || c == '3' || c == '4'
}

/// Whether a text has the shape of a generated code: ten symbols of the alphabet.
pub open spec fn is_generated_shape(code: Seq<char>) -> bool {
    &&& code.len() == CODE_LENGTH
    &&& forall|i: int| 0 <= i < code.len() ==> in_alphabet(#[trigger] code[i])
}

/// Calls `choose` of `rand::seq::SliceRandom` on the slice, with the
/// thread's random generator. Trusted: an empty slice gives `None`, any other
/// gives one of its items, whichever the generator picked.
#[verifier::external_body]
fn choose_char(chars: &[char]) -> (r: Option<char>)
    ensures
        chars@.len() == 0 ==> r is None,
        chars@.len() > 0 ==> r is Some && chars@.contains(r->Some_0),
{
    chars.choose(&mut rand::thread_rng()).copied()
}

/// Calls `String::push`. Trusted: the character is added at the end.
#[verifier::external_body]
fn push_char(text: &mut String, c: char)
    ensures
        final(text)@ == old(text)@.push(c),
{
    text.push(c)
}

/// The key under which the public finds a clip. Any text is a code; two codes
/// are the same where their texts are.
#[derive(Debug)]
pub struct ShortCode {
    code: String,
}

impl View for ShortCode {
    type V = Seq<char>;

    closed spec fn view(&self) -> Seq<char> {
        self.code@
    }
}

impl ShortCode {
    /// A fresh code: ten symbols, each drawn at random from the alphabet, in
    /// the order in which they were drawn. Nothing here looks for a code that
    /// is in use already.
    pub fn new() -> (code: ShortCode)
        ensures
            is_generated_shape(code@),
    {
        let allowed: [char; 8] = ['a', 'b', 'c', 'd', '1', '2', '3', '4'];
        let mut drawn: Vec<char> = Vec::new();
        while drawn.len() < CODE_LENGTH
            invariant
                drawn.len() <= CODE_LENGTH,
                forall|i: int| 0 <= i < drawn.len() ==> in_alphabet(#[trigger] drawn@[i]),
                allowed@ =~= seq!['a', 'b', 'c', 'd', '1', '2', '3', '4'],
            decreases CODE_LENGTH - drawn.len(),
        {
            match choose_char(allowed.as_slice()) {
                Some(c) => {
                    drawn.push(c);
                },
                None => {
                    assert(false);
                },
            }
        }
        ShortCode::from_symbols(drawn.as_slice())
    }

    /// The code made of these symbols, one position for each, in their order.
    pub fn from_symbols(symbols: &[char]) -> (code: ShortCode)
        ensures
            code@ == symbols@,
    {
        let mut text = String::new();
        let mut n: usize = 0;
        while n < symbols.len()
            invariant
                n <= symbols.len(),
                text@ == symbols@.take(n as int),
            decreases symbols.len() - n,
        {
            push_char(&mut text, symbols[n]);
            proof {
                assert(symbols@.take(n + 1) =~= symbols@.take(n as int).push(symbols@[n as int]));
            }
            n = n + 1;
        }
        proof {
            assert(symbols@.take(n as int) =~= symbols@);
        }
        ShortCode { code: text }
    }

    /// The code, borrowed.
    pub fn as_str(&self) -> (code: &str)
        ensures
            code@ == self@,
    {
        self.code.as_str()
    }

    /// The text that `into_inner` hands out.
    pub closed spec fn spec_into_inner(self) -> String {
        self.code
    }

    /// The code, owned.
    pub fn into_inner(self) -> (code: String)
        ensures
            code == self.spec_into_inner(),
            code@ == self@,
    {
        self.code
    }

    /// The code with this text. Never fails.
    pub fn from_str(s: &str) -> (r: Result<ShortCode, ClipError>)
        ensures
            r is Ok,
            r->Ok_0@ == s@,
    {
        Ok(ShortCode { code: s.to_owned() })
    }
}

impl PartialEq for ShortCode {
    fn eq(&self, other: &ShortCode) -> (r: bool) {
        self.code == other.code
    }
}

impl Eq for ShortCode {

}

impl PartialEqSpecImpl for ShortCode {
    open spec fn obeys_eq_spec() -> bool {
        true
    }

    /// Two codes are equal where their texts are.
    open spec fn eq_spec(&self, other: &ShortCode) -> bool {
        self@ == other@
    }
}

impl Default for ShortCode {
    fn default() -> (code: ShortCode)
        ensures
            is_generated_shape(code@),
    {
        ShortCode::new()
    }
}

impl From<String> for ShortCode {
    fn from(shortcode: String) -> (code: ShortCode)
        ensures
            code@ == shortcode@,
    {
        ShortCode { code: shortcode }
    }
}

impl FromSpecImpl<String> for ShortCode {
    open spec fn obeys_from_spec() -> bool {
        true
    }

    closed spec fn from_spec(shortcode: String) -> ShortCode {
        ShortCode { code: shortcode }
    }
}

impl Clone for ShortCode {
    fn clone(&self) -> (code: ShortCode)
        ensures
            code@ == self@,
    {
        ShortCode { code: self.code.clone() }
    }
}

impl<'a> From<&'a str> for ShortCode {
    fn from(shortcode: &'a str) -> (code: ShortCode)
        ensures
            code@ == shortcode@,
    {
        ShortCode { code: shortcode.to_owned() }
    }
}

impl<'a> FromSpecImpl<&'a str> for ShortCode {
    /// What the conversion gives is stated by `from` itself, over the views.
    open spec fn obeys_from_spec() -> bool {
        false
    }

    open spec fn from_spec(shortcode: &'a str) -> ShortCode {
        arbitrary()
    }
}

impl From<ShortCode> for String {
    fn from(shortcode: ShortCode) -> (code: String)
        ensures
            code@ == shortcode@,
    {
        shortcode.code
    }
}

impl FromSpecImpl<ShortCode> for String {
    open spec fn obeys_from_spec() -> bool {
        true
    }

    open spec fn from_spec(shortcode: ShortCode) -> String {
        shortcode.spec_into_inner()
    }
}

} // verus!
