//! Closed ranges of addresses, the keys of every table.

use vstd::prelude::*;

verus! {

/// A closed range of addresses `min..=max`.
#[derive(Clone, Copy, Debug, PartialEq, Eq, Hash)]
pub struct Range {
    pub min: u64,
    pub max: u64,
}

impl Range {
    /// A range is well formed when it is not empty, that is `min <= max`.
    pub open spec fn wf(self) -> bool {
        self.min <= self.max
    }

    /// Builds the range `min..=max`; an empty range is a caller error.
    pub fn new(min: u64, max: u64) -> (r: Range)
        requires
            min <= max,
        ensures
            r.min == min,
            r.max == max,
            r.wf(),
    {
        Range { min, max }
    }
}

/// Shorthand for [`Range::new`].
pub fn range(min: u64, max: u64) -> (r: Range)
    requires
        min <= max,
    ensures
        r.min == min,
        r.max == max,
{
    Range::new(min, max)
}

} // verus!
