//! Errors of the operating system, as plain values.

use vstd::prelude::*;

verus! {

/// What sort of error it is.
#[derive(Debug, Clone, Copy, PartialEq, Eq, Structural)]
pub enum ErrorKind {
    /// Something was not found.
    NotFound,
    /// An address is in use already.
    AddrInUse,
    /// An address cannot be had.
    AddrNotAvailable,
    /// Data does not look as it should.
    InvalidData,
    /// An operation took too long.
    TimedOut,
    /// An operation was cut short.
    Interrupted,
    /// Anything else.
    Other,
}

/// An error of the operating system, or one that looks like it.
#[derive(Debug)]
pub struct IoError {
    /// What sort of error it is.
    pub kind: ErrorKind,
    /// What it says.
    pub message: String,
}

impl IoError {
    /// An error of the given kind.
    pub fn new(kind: ErrorKind, message: String) -> (error: Self)
        ensures
            error.kind == kind,
            error.message == message,
    {
        IoError { kind, message }
    }
}

/// Whether an error has the given kind and says the given text.
pub open spec fn says(error: IoError, kind: ErrorKind, text: Seq<char>) -> bool {
    error.kind == kind && error.message@ == text
}

/// An error has the kind and the text that it was made with.
pub proof fn law_error_has_kind_and_text(kind: ErrorKind, message: String, error: IoError)
    requires
        call_ensures(IoError::new, (kind, message), error),
    ensures
        error.kind == kind,
        error.message == message,
{
}

} // verus!
