//! Where tasks run.

use vstd::prelude::*;

verus! {

/// Tasks run on any thread of the runtime.
#[derive(Debug, Clone, Copy, PartialEq, Eq, Structural)]
pub struct TokioExecutor;

impl TokioExecutor {
    /// Create a new tokio executor.
    pub fn new() -> (executor: Self)
        ensures
            executor == TokioExecutor,
    {
        TokioExecutor
    }
}

impl Default for TokioExecutor {
    fn default() -> (executor: Self)
        ensures
            executor == TokioExecutor,
    {
        TokioExecutor
    }
}

/// Tasks run on the thread that starts them.
#[derive(Debug, Clone, Copy, PartialEq, Eq, Structural)]
pub struct TokioCurrentThreadExecutor;

impl TokioCurrentThreadExecutor {
    /// Create a new tokio executor.
    pub fn new() -> (executor: Self)
        ensures
            executor == TokioCurrentThreadExecutor,
    {
        TokioCurrentThreadExecutor
    }
}

impl Default for TokioCurrentThreadExecutor {
    fn default() -> (executor: Self)
        ensures
            executor == TokioCurrentThreadExecutor,
    {
        TokioCurrentThreadExecutor
    }
}

} // verus!
