//! Points in time, in UTC.

use crate::data::Timestamp;
use vstd::prelude::*;

verus! {

/// A point in time in UTC.
#[derive(Clone, Copy, Debug, PartialEq, Eq, Structural)]
pub struct Time {
    at: Timestamp,
}

impl View for Time {
    type V = Timestamp;

    closed spec fn view(&self) -> Timestamp {
        self.at
    }
}

impl Time {
    /// Reads a timestamp without a zone as one in UTC.
    pub fn from_naive_utc(at: Timestamp) -> (t: Time)
        ensures
            t@ == at,
    {
        Time { at }
    }

    /// The timestamp, with the zone left off.
    pub fn into_inner(self) -> (at: Timestamp)
        ensures
            at == self@,
    {
        self.at
    }

    /// Whole seconds since 1970-01-01 00:00:00 UTC.
    pub fn timestamp(&self) -> (secs: i64)
        ensures
            secs == self@.secs,
    {
        self.at.secs
    }
}

} // verus!
