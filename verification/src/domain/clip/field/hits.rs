//! The hit counter of a clip.

use vstd::prelude::*;

verus! {

/// How often a clip's content was retrieved.
#[derive(Clone, Copy, Debug, PartialEq, Eq, Structural)]
pub struct Hits {
    count: u64,
}

impl View for Hits {
    type V = nat;

    closed spec fn view(&self) -> nat {
        self.count as nat
    }
}

impl Hits {
    /// A counter that stands at `count`.
    pub fn new(count: u64) -> (hits: Hits)
        ensures
            hits@ == count,
    {
        Hits { count }
    }

    /// The count.
    pub fn into_inner(self) -> (count: u64)
        ensures
            count == self@,
    {
        self.count
    }
}

} // verus!
