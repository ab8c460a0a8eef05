//! Liveness probing, and the decisions of terminating a process with a
//! bounded wait.
//!
//! Termination runs as a small state machine: it first asks for the
//! terminate signal to be sent, then for the process to be probed every poll interval until it is gone or the
//! deadline passes. The caller performs each `TerminationAction` and reports
//! what happened; elapsed times are milliseconds since polling began.

use crate::process::process_error::ProcessError;
use crate::process::signal_error::SignalError;
use crate::process::signal_utils::{kill, SignalInstruction};
use vstd::prelude::*;

verus! {

/// `errno` for "no such process".
pub const ESRCH: i32 = 3;

/// `errno` for "operation not permitted".
pub const EPERM: i32 = 1;

/// What a signal-0 probe says of a process: success means alive, "no such
/// process" means gone, "permission denied" means alive but not ours; any
/// other error is a failed check.
pub open spec fn probe_liveness(outcome: Result<(), i32>) -> Result<bool, ProcessError> {
    match outcome {
        Ok(()) => Ok(true),
        Err(e) => if e == ESRCH {
            Ok(false)
        } else if e == EPERM {
            Ok(true)
        } else {
            Err(ProcessError::CheckProcess(e))
        },
    }
}

/// Reads the outcome of a signal-0 probe as liveness.
pub fn liveness_from_probe(outcome: Result<(), i32>) -> (r: Result<bool, ProcessError>)
    ensures
        r == probe_liveness(outcome),
{
    match outcome {
        Ok(()) => Ok(true),
        Err(e) => if e == ESRCH {
            Ok(false)
        } else if e == EPERM {
            Ok(true)
        } else {
            Err(ProcessError::CheckProcess(e))
        },
    }
}

/// Whether `pid` names a live process, by sending it signal 0.
pub fn check_process(pid: i32) -> (r: Result<bool, ProcessError>)
    ensures
        r is Ok || (r matches Err(ProcessError::CheckProcess(e)) && e != ESRCH && e != EPERM),
{
    liveness_from_probe(kill(pid, None))
}

/// Where a termination stands.
#[derive(Debug, Clone, Copy, PartialEq, Eq)]
pub enum TerminationPhase {
    /// The terminate signal is to be sent.
    Signaled,
    /// Waiting for the process to go.
    Polling,
    /// The process is gone.
    Exited,
    /// The deadline passed with the process alive.
    TimedOut,
    /// Signalling or probing failed.
    Failed,
}

/// What the caller is to do next.
#[derive(Debug, PartialEq, Eq)]
pub enum TerminationAction {
    /// Send this signal to the process and report with `signal_sent`.
    Signal(SignalInstruction),
    /// Probe the process and report with `probed`.
    Probe,
    /// Sleep this many milliseconds and report with `woke`.
    Sleep(u64),
    /// Stop: the termination's result.
    Finish(Result<(), ProcessError>),
}

/// The termination of one process with a bounded wait.
#[derive(Debug, Clone, Copy, PartialEq, Eq)]
pub struct ProcessTerminator {
    pub pid: i32,
    pub timeout_ms: u64,
    pub poll_interval_ms: u64,
    pub phase: TerminationPhase,
}

impl ProcessTerminator {
    pub open spec fn spec_new(pid: i32, timeout_ms: u64, poll_interval_ms: u64) -> Self {
        ProcessTerminator { pid, timeout_ms, poll_interval_ms, phase: TerminationPhase::Signaled }
    }

    pub open spec fn with_phase(self, phase: TerminationPhase) -> Self {
        ProcessTerminator { phase, ..self }
    }

    pub open spec fn timeout_result(self) -> Result<(), ProcessError> {
        Err(ProcessError::TerminateProcessTimeout(self.pid))
    }

    /// The first step: send the terminate signal.
    pub open spec fn first_action(self) -> TerminationAction {
        TerminationAction::Signal(SignalInstruction::Terminate)
    }

    /// After the terminate signal: poll on success, fail with its error.
    pub open spec fn on_signal_sent(self, sent: Result<(), SignalError>) -> (
        Self,
        TerminationAction,
    ) {
        match sent {
            Ok(()) => (self.with_phase(TerminationPhase::Polling), TerminationAction::Probe),
            Err(e) => (
                self.with_phase(TerminationPhase::Failed),
                TerminationAction::Finish(Err(ProcessError::Signal(e))),
            ),
        }
    }

    /// After a probe at `elapsed_ms`: gone means exited; alive before the
    /// deadline means sleep one poll interval, cut short at the deadline;
    /// alive at or past it means timed out.
    pub open spec fn on_probed(self, alive: Result<bool, ProcessError>, elapsed_ms: u64) -> (
        Self,
        TerminationAction,
    ) {
        match alive {
            Ok(false) => (
                self.with_phase(TerminationPhase::Exited),
                TerminationAction::Finish(Ok(())),
            ),
            Err(e) => (self.with_phase(TerminationPhase::Failed), TerminationAction::Finish(Err(e))),
            Ok(true) => if elapsed_ms >= self.timeout_ms {
                (
                    self.with_phase(TerminationPhase::TimedOut),
                    TerminationAction::Finish(self.timeout_result()),
                )
            } else {
                let left = (self.timeout_ms - elapsed_ms) as u64;
                (
                    self.with_phase(TerminationPhase::Polling),
                    TerminationAction::Sleep(
                        if self.poll_interval_ms < left {
                            self.poll_interval_ms
                        } else {
                            left
                        },
                    ),
                )
            },
        }
    }

    /// After a sleep that ended at `elapsed_ms`: past the deadline means
    /// timed out, else probe again.
    pub open spec fn on_woke(self, elapsed_ms: u64) -> (Self, TerminationAction) {
        if elapsed_ms > self.timeout_ms {
            (
                self.with_phase(TerminationPhase::TimedOut),
                TerminationAction::Finish(self.timeout_result()),
            )
        } else {
            (self.with_phase(TerminationPhase::Polling), TerminationAction::Probe)
        }
    }

    /// A termination of `pid` that waits at most `timeout_ms` and probes
    /// every `poll_interval_ms`; the terminate signal is still to be sent.
    pub fn new(pid: i32, timeout_ms: u64, poll_interval_ms: u64) -> (r: Self)
        ensures
            r == Self::spec_new(pid, timeout_ms, poll_interval_ms),
    {
        ProcessTerminator { pid, timeout_ms, poll_interval_ms, phase: TerminationPhase::Signaled }
    }

    /// What to do first: send the terminate signal.
    pub fn start(&self) -> (r: TerminationAction)
        ensures
            r == self.first_action(),
    {
        TerminationAction::Signal(SignalInstruction::Terminate)
    }

    /// Reports the outcome of sending the terminate signal.
    pub fn signal_sent(&mut self, sent: Result<(), SignalError>) -> (r: TerminationAction)
        ensures
            (*final(self), r) == old(self).on_signal_sent(sent),
    {
        match sent {
            Ok(()) => {
                self.phase = TerminationPhase::Polling;
                TerminationAction::Probe
            },
            Err(e) => {
                self.phase = TerminationPhase::Failed;
                TerminationAction::Finish(Err(ProcessError::Signal(e)))
            },
        }
    }

    /// Reports a probe's outcome, made `elapsed_ms` after polling began.
    pub fn probed(&mut self, alive: Result<bool, ProcessError>, elapsed_ms: u64) -> (r:
        TerminationAction)
        ensures
            (*final(self), r) == old(self).on_probed(alive, elapsed_ms),
    {
        match alive {
            Ok(false) => {
                self.phase = TerminationPhase::Exited;
                TerminationAction::Finish(Ok(()))
            },
            Err(e) => {
                self.phase = TerminationPhase::Failed;
                TerminationAction::Finish(Err(e))
            },
            Ok(true) => if elapsed_ms >= self.timeout_ms {
                self.phase = TerminationPhase::TimedOut;
                TerminationAction::Finish(Err(ProcessError::TerminateProcessTimeout(self.pid)))
            } else {
                let left = self.timeout_ms - elapsed_ms;
                self.phase = TerminationPhase::Polling;
                TerminationAction::Sleep(
                    if self.poll_interval_ms < left {
                        self.poll_interval_ms
                    } else {
                        left
                    },
                )
            },
        }
    }

    /// Reports the end of a sleep, `elapsed_ms` after polling began.
    pub fn woke(&mut self, elapsed_ms: u64) -> (r: TerminationAction)
        ensures
            (*final(self), r) == old(self).on_woke(elapsed_ms),
    {
        if elapsed_ms > self.timeout_ms {
            self.phase = TerminationPhase::TimedOut;
            TerminationAction::Finish(Err(ProcessError::TerminateProcessTimeout(self.pid)))
        } else {
            self.phase = TerminationPhase::Polling;
            TerminationAction::Probe
        }
    }
}

/// A process that is gone by the probe that follows the first one, a poll
/// interval later and before the deadline, ends the termination with success:
/// send the terminate signal, probe (alive), sleep one interval, probe
/// (gone), success.
pub proof fn lemma_exit_within_one_interval(
    pid: i32,
    timeout_ms: u64,
    poll_interval_ms: u64,
    woke_ms: u64,
)
    requires
        poll_interval_ms < timeout_ms,
        woke_ms <= timeout_ms,
    ensures
        ({
            let t0 = ProcessTerminator::spec_new(pid, timeout_ms, poll_interval_ms);
            let (t1, a1) = t0.on_signal_sent(Ok(()));
            let (t2, a2) = t1.on_probed(Ok(true), 0);
            let (t3, a3) = t2.on_woke(woke_ms);
            let (t4, a4) = t3.on_probed(Ok(false), woke_ms);
            &&& t0.first_action() == TerminationAction::Signal(SignalInstruction::Terminate)
            &&& a1 == TerminationAction::Probe
            &&& a2 == TerminationAction::Sleep(poll_interval_ms)
            &&& a3 == TerminationAction::Probe
            &&& a4 == TerminationAction::Finish(Ok(()))
            &&& t4.phase == TerminationPhase::Exited
        }),
{
}

/// A probe that finds the process gone always ends the termination with
/// success, whatever the time.
pub proof fn lemma_gone_means_success(t: ProcessTerminator, elapsed_ms: u64)
    ensures
        t.on_probed(Ok(false), elapsed_ms).1 == TerminationAction::Finish(Ok(())),
        t.on_probed(Ok(false), elapsed_ms).0.phase == TerminationPhase::Exited,
{
}

/// A process that never exits is never reported as exited: a probe that
/// finds it alive before the deadline asks for a sleep of at most one poll
/// interval that ends no later than the deadline; at or past the deadline
/// the termination ends with `TerminateProcessTimeout(pid)`, and so does a
/// wake-up past it.
pub proof fn lemma_never_exits_times_out(t: ProcessTerminator, elapsed_ms: u64)
    ensures
        elapsed_ms >= t.timeout_ms ==> t.on_probed(Ok(true), elapsed_ms) == (
            t.with_phase(TerminationPhase::TimedOut),
            TerminationAction::Finish(Err(ProcessError::TerminateProcessTimeout(t.pid))),
        ),
        elapsed_ms < t.timeout_ms ==> (t.on_probed(Ok(true), elapsed_ms).1 matches
            TerminationAction::Sleep(d) && d <= t.poll_interval_ms && elapsed_ms + d
            <= t.timeout_ms),
        elapsed_ms > t.timeout_ms ==> t.on_woke(elapsed_ms) == (
            t.with_phase(TerminationPhase::TimedOut),
            TerminationAction::Finish(Err(ProcessError::TerminateProcessTimeout(t.pid))),
        ),
{
}

} // verus!
