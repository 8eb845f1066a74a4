//! The optional title of a clip.

use crate::domain::clip::field::password::text_of;
use vstd::prelude::*;

verus! {

/// The title of a clip, if it has one. Every text is a title.
#[derive(Debug)]
pub struct Title {
    text: Option<String>,
}

impl View for Title {
    type V = Option<Seq<char>>;

    closed spec fn view(&self) -> Option<Seq<char>> {
        text_of(self.text)
    }
}

impl Title {
    /// The title with this text, or the absent one.
    pub fn new(title: Option<String>) -> (t: Title)
        ensures
            t@ == text_of(title),
    {
        Title { text: title }
    }

    /// The text, if there is one.
    pub fn into_inner(self) -> (text: Option<String>)
        ensures
            text_of(text) == self@,
    {
        self.text
    }
}

impl Default for Title {
    fn default() -> (t: Title)
        ensures
            t@ is None,
    {
        Title { text: None }
    }
}

impl Clone for Title {
    fn clone(&self) -> (title: Title)
        ensures
            title@ == self@,
    {
        match &self.text {
            Some(text) => Title { text: Some(text.clone()) },
            None => Title { text: None },
        }
    }
}

} // verus!
