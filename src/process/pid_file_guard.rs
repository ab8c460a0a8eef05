//! A claim on a PID file for the lifetime of a scope: the file is written
//! when the claim is made and removed at teardown while it still records the
//! claiming process.

use crate::process::pid_error::PidError;
use crate::process::pid_utils::{owned_by, pid_file_content, pid_text, PidFileAction};
use vstd::prelude::*;

verus! {

/// One process's claim on one PID file.
#[derive(Debug)]
pub struct PidFileGuard {
    pid_file_path: String,
    pid: u32,
}

impl PidFileGuard {
    pub closed spec fn spec_path(&self) -> Seq<char> {
        self.pid_file_path@
    }

    pub closed spec fn spec_pid(&self) -> u32 {
        self.pid
    }

    /// Makes the claim of process `pid` on `pid_file_path`, given the outcome
    /// of writing `pid_file_content(pid)` there: a guard exactly where the
    /// write succeeded, else the write's error.
    pub fn claim(pid_file_path: String, pid: u32, written: Result<(), PidError>) -> (r: Result<
        PidFileGuard,
        PidError,
    >)
        ensures
            match written {
                Ok(()) => r matches Ok(g) && g.spec_path() == pid_file_path@ && g.spec_pid() == pid,
                Err(e) => r == Err::<PidFileGuard, PidError>(e),
            },
    {
        match written {
            Ok(()) => Ok(PidFileGuard { pid_file_path, pid }),
            Err(e) => Err(e),
        }
    }

    pub fn pid_file_path(&self) -> (r: &str)
        ensures
            r@ == self.spec_path(),
    {
        self.pid_file_path.as_str()
    }

    pub fn pid(&self) -> (r: u32)
        ensures
            r == self.spec_pid(),
    {
        self.pid
    }

    /// The text that the claim writes into the file.
    pub fn content(&self) -> (r: String)
        ensures
            r@ == pid_text(self.spec_pid()),
    {
        pid_file_content(self.pid)
    }

    /// Ends the claim, given the outcome of reading the file: remove it
    /// exactly when it still records this guard's pid. A read error is not
    /// raised: the file is kept, and the caller reports the error. The guard
    /// is consumed, so a claim ends at most once.
    pub fn release(self, recorded: &Result<Option<i32>, PidError>) -> (r: PidFileAction)
        ensures
            r == (if *recorded matches Ok(rec) && owned_by(rec, self.spec_pid()) {
                PidFileAction::Delete
            } else {
                PidFileAction::Keep
            }),
    {
        match recorded {
            Ok(Some(p)) => if *p as i64 == self.pid as i64 {
                PidFileAction::Delete
            } else {
                PidFileAction::Keep
            },
            _ => PidFileAction::Keep,
        }
    }
}

} // verus!
