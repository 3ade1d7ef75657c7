//! The closed set of error kinds that lifecycle operations report.

use vstd::prelude::*;

verus! {

/// Every fallible lifecycle operation reports one of these kinds, so a caller
/// can tell "does not exist, maybe create it" (`NotFound`) apart from a
/// deadline failure (`TimedOut`) and from an arbitrary OS failure, which
/// carries the native error code.
#[derive(Clone, Copy, Debug, PartialEq, Eq, Structural)]
pub enum TapError {
    /// No matching driver, device or interface.
    NotFound,
    /// A bounded wait or retry loop ran out of time with no resolution.
    TimedOut,
    /// Any other OS or driver failure, with the native error code.
    OsError(u32),
    /// The external configuration utility exited with a non-zero status.
    SubprocessError,
}

impl TapError {
    /// A short fixed description of the error kind.
    pub fn describe(&self) -> (s: &'static str)
        ensures
            self is NotFound ==> s@ == "device or driver not found"@,
            self is TimedOut ==> s@ == "operation timed out"@,
            self is OsError ==> s@ == "os error"@,
            self is SubprocessError ==> s@ == "configuration utility failed"@,
    {
        match self {
            TapError::NotFound => "device or driver not found",
            TapError::TimedOut => "operation timed out",
            TapError::OsError(_) => "os error",
            TapError::SubprocessError => "configuration utility failed",
        }
    }

    /// The native OS error code, where one was captured.
    pub fn os_code(&self) -> (c: Option<u32>)
        ensures
            match *self {
                TapError::OsError(code) => c == Some(code),
                _ => c is None,
            },
    {
        match self {
            TapError::OsError(code) => Some(*code),
            _ => None,
        }
    }
}

} // verus!
