//! Errors of sending signals and of watching for them.

use vstd::prelude::*;

verus! {

/// Why a signal could not be sent or watched.
#[derive(Debug, Clone, PartialEq, Eq)]
pub enum SignalError {
    /// The instruction, lower-cased, names no signal of the vocabulary.
    InvalidInstruction(String),
    /// The kernel refused the signal: its name and the raw `errno`.
    SendSignal(String, i32),
    /// No handler could be registered for the named signal.
    RegisterSignalHandler(String),
}

} // verus!
