//! Errors of probing and terminating a process.

use crate::process::signal_error::SignalError;
use vstd::prelude::*;

verus! {

/// Why probing or terminating a process failed.
#[derive(Debug, Clone, PartialEq, Eq)]
pub enum ProcessError {
    /// The liveness probe met an OS error other than "no such process" or
    /// "permission denied": the raw `errno`.
    CheckProcess(i32),
    /// The terminate signal could not be sent.
    Signal(SignalError),
    /// The process outlived the wait: its pid.
    TerminateProcessTimeout(i32),
}

} // verus!
