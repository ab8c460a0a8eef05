use vstd::prelude::*;

verus! {

/// A failure at run time, described in words.
#[derive(Debug, Clone, PartialEq, Eq)]
pub enum Error {
    /// A failure with its description.
    RuntimeError(String),
    /// A failure with its description and that of the error that caused it.
    RuntimeXError(String, String),
}

} // verus!
