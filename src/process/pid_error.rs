//! Errors of reading, writing and deleting PID marker files.

use vstd::prelude::*;

verus! {

/// Why a PID file operation failed; each variant carries the file's path.
#[derive(Debug, Clone, PartialEq, Eq)]
pub enum PidError {
    /// The path is not valid Unicode.
    InvalidPidFilePath(String),
    OpenPidFile(String),
    CreatePidFile(String),
    ReadPidFile(String),
    WritePidFile(String),
    /// The first line, trimmed, is not a decimal `i32`.
    ParsePidFileContent(String),
    DeletePidFile(String),
}

} // verus!
