//! When a clip was made.

use crate::data::Timestamp;
use crate::domain::time::Time;
use vstd::prelude::*;

verus! {

/// The time at which a clip was made.
#[derive(Clone, Copy, Debug, PartialEq, Eq, Structural)]
pub struct Posted {
    at: Time,
}

impl View for Posted {
    type V = Timestamp;

    closed spec fn view(&self) -> Timestamp {
        self.at@
    }
}

impl Posted {
    /// The field that holds `at`.
    pub fn new(at: Time) -> (posted: Posted)
        ensures
            posted@ == at@,
    {
        Posted { at }
    }

    /// The time held.
    pub fn into_inner(self) -> (at: Time)
        ensures
            at@ == self@,
    {
        self.at
    }
}

} // verus!
