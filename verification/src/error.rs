//! The typed failures that every operation of the sandbox can report.

use vstd::prelude::*;

verus! {

/// A failure of a sandbox operation.
///
/// Every failing operation reports exactly one of these to its immediate
/// caller. The two variants with a payload carry the message that the engine
/// or the guest produced; the library hands it on untouched.
#[derive(Debug, Clone, PartialEq, Eq)]
pub enum Error {
    /// Resolution of a specifier failed.
    ModuleNotFound,
    /// The source could not be compiled or transpiled; carries the diagnostic.
    CompileError(String),
    /// Guest code raised an error that it did not catch; carries the message.
    GuestException(String),
    /// A call ran past the deadline of its runtime.
    Timeout,
    /// A capability was needed that the runtime was built without.
    PermissionDenied,
    /// No function was named and none could be chosen by default, or the
    /// chosen function is not among the exports of the module.
    MissingEntrypoint,
    /// The export exists but cannot be called with the given arguments.
    ArityOrTypeMismatch,
    /// A value cannot be represented in the boundary format.
    SerializationError,
    /// The runtime was disposed of, or stopped by a timeout.
    Terminated,
    /// The thread of the worker has exited, or its channel is closed.
    WorkerUnavailable,
}

impl Error {
    /// Whether the failure ends the life of the runtime that reported it.
    pub open spec fn is_fatal(self) -> bool {
        self is Timeout
    }

    /// Whether the failure ends the life of the runtime that reported it:
    /// only a timeout does, since the interrupted engine may not be reused.
    pub fn fatal(&self) -> (r: bool)
        ensures
            r == self.is_fatal(),
    {
        match self {
            Error::Timeout => true,
            _ => false,
        }
    }
}

/// Whether the result `r` is the result `v` of the model: the same error,
/// or a value whose view is the value of the model.
pub open spec fn agrees<T: View>(r: Result<T, Error>, v: Result<T::V, Error>) -> bool {
    match (r, v) {
        (Ok(a), Ok(b)) => a@ == b,
        (Err(e), Err(f)) => e == f,
        _ => false,
    }
}

} // verus!
