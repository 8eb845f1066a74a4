//! The text of a clip.

use crate::domain::clip::ClipError;
use crate::text::{blank, is_blank};
use vstd::prelude::*;

verus! {

/// The text of a clip: never empty, never all whitespace.
#[derive(Debug)]
pub struct Content {
    text: String,
}

impl View for Content {
    type V = Seq<char>;

    closed spec fn view(&self) -> Seq<char> {
        self.text@
    }
}

impl Content {
    #[verifier::type_invariant]
    spec fn not_blank(&self) -> bool {
        !is_blank(self.text@)
    }

    /// Takes the text as it is, untrimmed, unless it is empty or all
    /// whitespace: that is `ClipError::EmptyContent`.
    pub fn new(content: &str) -> (r: Result<Content, ClipError>)
        ensures
            is_blank(content@) ==> r == Err::<Content, ClipError>(ClipError::EmptyContent),
            !is_blank(content@) ==> r is Ok && r->Ok_0@ == content@,
    {
        if !blank(content) {
            Ok(Content { text: content.to_owned() })
        } else {
            Err(ClipError::EmptyContent)
        }
    }

    /// The text, owned.
    pub fn into_inner(self) -> (text: String)
        ensures
            text@ == self@,
            !is_blank(text@),
    {
        proof {
            use_type_invariant(&self);
        }
        self.text
    }

    /// The text, borrowed.
    pub fn as_str(&self) -> (text: &str)
        ensures
            text@ == self@,
            !is_blank(text@),
    {
        proof {
            use_type_invariant(self);
        }
        self.text.as_str()
    }
}

impl Clone for Content {
    fn clone(&self) -> (content: Content)
        ensures
            content@ == self@,
    {
        proof {
            use_type_invariant(self);
        }
        Content { text: self.text.clone() }
    }
}

} // verus!
