//! The outcome of asking an operation that may not be finished.

use vstd::prelude::*;

verus! {

/// What came of asking an operation for its result.
#[derive(Debug, PartialEq, Eq)]
pub enum Poll<T> {
    /// The operation has finished, with this result.
    Ready(T),
    /// The operation is still under way.
    Pending,
}

} // verus!
