//! Profiling ranges.
//!
//! The seam stays available when no profiler is linked: a range then marks
//! nothing.
use vstd::prelude::*;

verus! {

/// A marked stretch of execution.
#[derive(Debug)]
pub struct Range {
    emitted: bool,
}

impl Range {
    /// The range left a mark with a profiler.
    pub closed spec fn marks(&self) -> bool {
        self.emitted
    }

    /// Opens a range, which marks nothing.
    pub fn new(_name: &str) -> (range: Self)
        ensures
            !range.marks(),
    {
        Range { emitted: false }
    }
}

/// Opens a range, which marks nothing.
pub fn range(name: &str) -> (range: Range)
    ensures
        !range.marks(),
{
    Range::new(name)
}

} // verus!
