//! The identity of a clip.

use crate::data::Dbid;
use vstd::prelude::*;
use vstd::std_specs::convert::FromSpecImpl;

verus! {

/// The identity of a clip.
#[derive(Clone, Copy, Debug, PartialEq, Eq, Structural)]
pub struct ClipId {
    id: Dbid,
}

impl View for ClipId {
    type V = u128;

    closed spec fn view(&self) -> u128 {
        self.id@
    }
}

impl ClipId {
    /// The field that holds `id`.
    pub fn new(id: Dbid) -> (clip_id: ClipId)
        ensures
            clip_id@ == id@,
    {
        ClipId { id }
    }

    /// The identifier held.
    pub fn into_inner(self) -> (id: Dbid)
        ensures
            id@ == self@,
    {
        self.id
    }
}

impl From<Dbid> for ClipId {
    fn from(id: Dbid) -> (clip_id: ClipId)
        ensures
            clip_id@ == id@,
    {
        ClipId { id }
    }
}

impl FromSpecImpl<Dbid> for ClipId {
    open spec fn obeys_from_spec() -> bool {
        true
    }

    closed spec fn from_spec(id: Dbid) -> ClipId {
        ClipId { id }
    }
}

impl Default for ClipId {
    /// The placeholder: the nil identifier.
    fn default() -> (clip_id: ClipId)
        ensures
            clip_id@ == 0,
    {
        ClipId { id: Dbid::nil() }
    }
}

} // verus!
