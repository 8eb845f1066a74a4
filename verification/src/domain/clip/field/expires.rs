//! When a clip expires.

use crate::data::Timestamp;
use crate::domain::time::Time;
use vstd::prelude::*;

verus! {

/// The views of an optional time.
pub open spec fn instant_of(at: Option<Time>) -> Option<Timestamp> {
    match at {
        Some(t) => Some(t@),
        None => None,
    }
}

/// The time at which a clip expires; a clip without one never does.
#[derive(Clone, Copy, Debug, PartialEq, Eq, Structural)]
pub struct Expires {
    at: Option<Time>,
}

impl View for Expires {
    type V = Option<Timestamp>;

    closed spec fn view(&self) -> Option<Timestamp> {
        instant_of(self.at)
    }
}

impl Expires {
    /// The field that holds `at`.
    pub fn new(at: Option<Time>) -> (expires: Expires)
        ensures
            expires@ == instant_of(at),
    {
        Expires { at }
    }

    /// The time held, if there is one.
    pub fn into_inner(self) -> (at: Option<Time>)
        ensures
            instant_of(at) == self@,
    {
        self.at
    }
}

impl Default for Expires {
    fn default() -> (expires: Expires)
        ensures
            expires@ is None,
    {
        Expires { at: None }
    }
}

} // verus!
