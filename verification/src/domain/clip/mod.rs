//! The clip entity and the errors of its construction.

pub mod field;

use crate::data::Timestamp;
use crate::domain::clip::field::password::normalized;
use crate::domain::clip::field::{
    ClipId, Content, Expires, Hits, Password, Posted, ShortCode, Title,
};
use crate::text::is_blank;
use vstd::prelude::*;
use vstd::std_specs::convert::FromSpecImpl;

verus! {

/// Why a clip, or one of its fields, could not be made.
#[derive(Clone, Copy, Debug, PartialEq, Eq, Structural)]
pub enum ClipError {
    /// The content is empty or all whitespace.
    EmptyContent,
    /// The text of a stored identifier is no identifier.
    InvalidIdentifier,
    /// A stored hit count is negative.
    InvalidHitCount,
}

impl From<uuid::Error> for ClipError {
    fn from(e: uuid::Error) -> (r: ClipError) {
        ClipError::InvalidIdentifier
    }
}

impl FromSpecImpl<uuid::Error> for ClipError {
    open spec fn obeys_from_spec() -> bool {
        true
    }

    open spec fn from_spec(e: uuid::Error) -> ClipError {
        ClipError::InvalidIdentifier
    }
}

/// One stored piece of text with what is known of it. A clip is made of
/// validated fields only, so there is no clip that is valid in part.
#[derive(Clone, Debug)]
pub struct Clip {
    pub clip_id: ClipId,
    pub shortcode: ShortCode,
    pub content: Content,
    pub title: Title,
    pub posted: Posted,
    pub expires: Expires,
    pub password: Password,
    pub hits: Hits,
}

/// What a clip holds, as plain values.
pub struct ClipView {
    pub clip_id: u128,
    pub shortcode: Seq<char>,
    pub content: Seq<char>,
    pub title: Option<Seq<char>>,
    pub posted: Timestamp,
    pub expires: Option<Timestamp>,
    pub password: Option<Seq<char>>,
    pub hits: nat,
}

impl ClipView {
    /// What holds of every clip: the content is not blank, and neither is a
    /// password that is present.
    pub open spec fn valid(self) -> bool {
        &&& !is_blank(self.content)
        &&& normalized(self.password) == self.password
    }
}

impl View for Clip {
    type V = ClipView;

    open spec fn view(&self) -> ClipView {
        ClipView {
            clip_id: self.clip_id@,
            shortcode: self.shortcode@,
            content: self.content@,
            title: self.title@,
            posted: self.posted@,
            expires: self.expires@,
            password: self.password@,
            hits: self.hits@,
        }
    }
}

/// What came of making a clip, with the clip as plain values.
pub open spec fn outcome(r: Result<Clip, ClipError>) -> Result<ClipView, ClipError> {
    match r {
        Ok(clip) => Ok(clip@),
        Err(e) => Err(e),
    }
}

} // verus!
