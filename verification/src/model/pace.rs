//! How a time compares with the time it is held against.
use vstd::prelude::*;

verus! {

/// The pace of a split or of a run.
#[derive(Copy, Clone, Debug, PartialEq, Eq, Structural, Hash)]
pub enum Pace {
    /// There is nothing to compare with.
    Inconclusive,
    /// Behind the comparison.
    Behind,
    /// Ahead of the comparison.
    Ahead,
    /// Ahead of the comparison, and the best time on record.
    PersonalBest,
}

} // verus!
