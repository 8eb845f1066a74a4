//! The optional secret of a clip.

use crate::domain::clip::ClipError;
use crate::text::{blank, is_blank};
use vstd::prelude::*;

verus! {

/// The views of an optional text.
pub open spec fn text_of(text: Option<String>) -> Option<Seq<char>> {
    match text {
        Some(t) => Some(t@),
        None => None,
    }
}

/// What a password request comes to: a text that is absent, empty or all
/// whitespace is no password.
pub open spec fn normalized(password: Option<Seq<char>>) -> Option<Seq<char>> {
    match password {
        Some(p) => if is_blank(p) {
            None
        } else {
            Some(p)
        },
        None => None,
    }
}

/// A request comes to a password exactly where its text is present and not
/// blank, and the password is then that text, untrimmed.
pub proof fn lemma_password_present(password: Option<Seq<char>>)
    ensures
        normalized(password) is Some <==> password is Some && !is_blank(password->Some_0),
        normalized(password) is Some ==> normalized(password) == password,
        normalized(normalized(password)) == normalized(password),
{
}

/// The password of a clip: a secret that is not blank, or none at all.
#[derive(Debug, PartialEq, PartialOrd)]
pub struct Password {
    secret: Option<String>,
}

impl View for Password {
    type V = Option<Seq<char>>;

    closed spec fn view(&self) -> Option<Seq<char>> {
        text_of(self.secret)
    }
}

impl Password {
    #[verifier::type_invariant]
    spec fn not_blank(&self) -> bool {
        self.secret is Some ==> !is_blank(self.secret->Some_0@)
    }

    /// Never fails: a blank or absent text gives the password that is none.
    pub fn new(password: Option<String>) -> (r: Result<Password, ClipError>)
        ensures
            r is Ok,
            r->Ok_0@ == normalized(text_of(password)),
    {
        match password {
            Some(password) => {
                if !blank(password.as_str()) {
                    Ok(Password { secret: Some(password) })
                } else {
                    Ok(Password { secret: None })
                }
            },
            None => Ok(Password { secret: None }),
        }
    }

    /// The secret, if there is one.
    pub fn into_inner(self) -> (secret: Option<String>)
        ensures
            text_of(secret) == self@,
            secret is Some ==> !is_blank(secret->Some_0@),
    {
        proof {
            use_type_invariant(&self);
        }
        self.secret
    }

    /// Whether the clip is behind a password.
    pub fn has_password(&self) -> (b: bool)
        ensures
            b == (self@ is Some),
            b ==> !is_blank(self@->Some_0),
    {
        proof {
            use_type_invariant(self);
        }
        self.secret.is_some()
    }

    /// Reads a password from text, as `new` does from a text that is present.
    pub fn from_str(s: &str) -> (r: Result<Password, ClipError>)
        ensures
            r is Ok,
            r->Ok_0@ == normalized(Some(s@)),
    {
        Password::new(Some(s.to_owned()))
    }
}

impl Default for Password {
    fn default() -> (p: Password)
        ensures
            p@ is None,
    {
        Password { secret: None }
    }
}

impl Clone for Password {
    fn clone(&self) -> (password: Password)
        ensures
            password@ == self@,
    {
        proof {
            use_type_invariant(self);
        }
        match &self.secret {
            Some(secret) => Password { secret: Some(secret.clone()) },
            None => Password { secret: None },
        }
    }
}

} // verus!
