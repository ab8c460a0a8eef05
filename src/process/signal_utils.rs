//! The signal vocabulary: symbolic instructions, the signals they send, and
//! the decisions of a watcher that fans received signals out.

use crate::process::signal_error::SignalError;
use crate::text::{lower_of, str_eq, to_lowercase};
use nix::sys::signal::Signal as NixSignal;
use nix::unistd::Pid;
use vstd::prelude::*;
use vstd::string::*;

verus! {

/// A signal that an instruction can send.
#[derive(Debug, Clone, Copy, PartialEq, Eq)]
pub enum SignalInstruction {
    Hangup,
    Cont,
    Interrupt,
    Terminate,
    Quit,
    Kill,
}

impl SignalInstruction {
    /// POSIX number of the signal.
    pub open spec fn spec_number(self) -> i32 {
        match self {
            SignalInstruction::Hangup => 1,
            SignalInstruction::Cont => 18,
            SignalInstruction::Interrupt => 2,
            SignalInstruction::Terminate => 15,
            SignalInstruction::Quit => 3,
            SignalInstruction::Kill => 9,
        }
    }

    pub open spec fn spec_name(self) -> Seq<char> {
        match self {
            SignalInstruction::Hangup => "SIGHUP"@,
            SignalInstruction::Cont => "SIGCONT"@,
            SignalInstruction::Interrupt => "SIGINT"@,
            SignalInstruction::Terminate => "SIGTERM"@,
            SignalInstruction::Quit => "SIGQUIT"@,
            SignalInstruction::Kill => "SIGKILL"@,
        }
    }

    pub fn number(&self) -> (r: i32)
        ensures
            r == self.spec_number(),
    {
        match self {
            SignalInstruction::Hangup => 1,
            SignalInstruction::Cont => 18,
            SignalInstruction::Interrupt => 2,
            SignalInstruction::Terminate => 15,
            SignalInstruction::Quit => 3,
            SignalInstruction::Kill => 9,
        }
    }

    /// The signal's conventional name, such as `SIGTERM`.
    pub fn name(&self) -> (r: &'static str)
        ensures
            r@ == self.spec_name(),
    {
        match self {
            SignalInstruction::Hangup => "SIGHUP",
            SignalInstruction::Cont => "SIGCONT",
            SignalInstruction::Interrupt => "SIGINT",
            SignalInstruction::Terminate => "SIGTERM",
            SignalInstruction::Quit => "SIGQUIT",
            SignalInstruction::Kill => "SIGKILL",
        }
    }
}

/// The signal that a lower-case instruction names, if any; `stop` and
/// `terminate` are synonyms.
pub open spec fn instruction_signal(s: Seq<char>) -> Option<SignalInstruction> {
    if s == "hangup"@ {
        Some(SignalInstruction::Hangup)
    } else if s == "cont"@ {
        Some(SignalInstruction::Cont)
    } else if s == "interrupt"@ {
        Some(SignalInstruction::Interrupt)
    } else if s == "stop"@ || s == "terminate"@ {
        Some(SignalInstruction::Terminate)
    } else if s == "quit"@ {
        Some(SignalInstruction::Quit)
    } else if s == "kill"@ {
        Some(SignalInstruction::Kill)
    } else {
        None
    }
}

/// The signal that an already lower-cased instruction names, or
/// `InvalidInstruction` carrying the instruction.
pub fn signal_for_instruction(lowered: &str) -> (r: Result<SignalInstruction, SignalError>)
    ensures
        match instruction_signal(lowered@) {
            Some(sig) => r == Ok::<SignalInstruction, SignalError>(sig),
            None => r matches Err(SignalError::InvalidInstruction(t)) && t@ == lowered@,
        },
{
    if str_eq(lowered, "hangup") {
        Ok(SignalInstruction::Hangup)
    } else if str_eq(lowered, "cont") {
        Ok(SignalInstruction::Cont)
    } else if str_eq(lowered, "interrupt") {
        Ok(SignalInstruction::Interrupt)
    } else if str_eq(lowered, "stop") || str_eq(lowered, "terminate") {
        Ok(SignalInstruction::Terminate)
    } else if str_eq(lowered, "quit") {
        Ok(SignalInstruction::Quit)
    } else if str_eq(lowered, "kill") {
        Ok(SignalInstruction::Kill)
    } else {
        Err(SignalError::InvalidInstruction(String::from_str(lowered)))
    }
}

/// Reads a symbolic instruction, case-insensitively.
pub fn parse_instruction(instruction: &str) -> (r: Result<SignalInstruction, SignalError>)
    ensures
        match instruction_signal(lower_of(instruction@)) {
            Some(sig) => r == Ok::<SignalInstruction, SignalError>(sig),
            None => r matches Err(SignalError::InvalidInstruction(t)) && t@ == lower_of(
                instruction@,
            ),
        },
{
    let lowered = to_lowercase(instruction);
    signal_for_instruction(lowered.as_str())
}

/// Relies on `nix::sys::signal::kill`: asks the kernel to deliver `signal` to
/// `pid`, or with `None` only to check that `pid` exists and may be
/// signalled; on refusal it gives the raw `errno`.
#[verifier::external_body]
pub(crate) fn kill(pid: i32, signal: Option<SignalInstruction>) -> (r: Result<(), i32>) {
    let signal = match signal {
        None => None,
        Some(SignalInstruction::Hangup) => Some(NixSignal::SIGHUP),
        Some(SignalInstruction::Cont) => Some(NixSignal::SIGCONT),
        Some(SignalInstruction::Interrupt) => Some(NixSignal::SIGINT),
        Some(SignalInstruction::Terminate) => Some(NixSignal::SIGTERM),
        Some(SignalInstruction::Quit) => Some(NixSignal::SIGQUIT),
        Some(SignalInstruction::Kill) => Some(NixSignal::SIGKILL),
    };
    nix::sys::signal::kill(Pid::from_raw(pid), signal).map_err(|e| e as i32)
}

/// The result of sending `sig`, from the kernel's answer: success, or
/// `SendSignal` naming the signal and carrying the `errno`.
pub fn signal_delivery(sig: SignalInstruction, outcome: Result<(), i32>) -> (r: Result<
    (),
    SignalError,
>)
    ensures
        match outcome {
            Ok(()) => r is Ok,
            Err(e) => r matches Err(SignalError::SendSignal(name, x)) && name@ == sig.spec_name()
                && x == e,
        },
{
    match outcome {
        Ok(()) => Ok(()),
        Err(errno) => Err(SignalError::SendSignal(String::from_str(sig.name()), errno)),
    }
}

/// Sends `sig` to `pid`, once; a refusal by the kernel fails with
/// `SendSignal`, naming the signal and giving the `errno`.
pub fn send_signal(sig: SignalInstruction, pid: i32) -> (r: Result<(), SignalError>)
    ensures
        r is Ok || (r matches Err(SignalError::SendSignal(name, _)) && name@ == sig.spec_name()),
{
    signal_delivery(sig, kill(pid, Some(sig)))
}

/// Sends the signal that `instruction` names (case-insensitively) to `pid`.
/// An unknown instruction sends nothing and fails with `InvalidInstruction`;
/// a refusal by the kernel fails with `SendSignal`, naming the signal.
pub fn send_signal_by_instruction(instruction: &str, pid: i32) -> (r: Result<(), SignalError>)
    ensures
        match instruction_signal(lower_of(instruction@)) {
            Some(sig) => r is Ok || (r matches Err(SignalError::SendSignal(name, _))
                && name@ == sig.spec_name()),
            None => r matches Err(SignalError::InvalidInstruction(t)) && t@ == lower_of(
                instruction@,
            ),
        },
{
    match parse_instruction(instruction) {
        Ok(sig) => send_signal(sig, pid),
        Err(e) => Err(e),
    }
}

/// A signal that the watcher observes.
#[derive(Debug, Clone, Copy, PartialEq, Eq)]
pub enum SignalEvent {
    Hangup,
    Cont,
    Interrupt,
    Quit,
    Terminate,
}

impl SignalEvent {
    /// POSIX number of the signal.
    pub open spec fn spec_number(self) -> i32 {
        match self {
            SignalEvent::Hangup => 1,
            SignalEvent::Cont => 18,
            SignalEvent::Interrupt => 2,
            SignalEvent::Quit => 3,
            SignalEvent::Terminate => 15,
        }
    }

    /// Interrupt, quit and terminate end the watch; hangup and cont do not.
    pub open spec fn spec_is_terminal(self) -> bool {
        match self {
            SignalEvent::Hangup | SignalEvent::Cont => false,
            _ => true,
        }
    }

    pub fn number(&self) -> (r: i32)
        ensures
            r == self.spec_number(),
    {
        match self {
            SignalEvent::Hangup => 1,
            SignalEvent::Cont => 18,
            SignalEvent::Interrupt => 2,
            SignalEvent::Quit => 3,
            SignalEvent::Terminate => 15,
        }
    }

    pub fn is_terminal(&self) -> (r: bool)
        ensures
            r == self.spec_is_terminal(),
    {
        match self {
            SignalEvent::Hangup | SignalEvent::Cont => false,
            _ => true,
        }
    }
}

/// The signals that a watcher registers a stream for, in this order.
pub fn watched_signals() -> (r: Vec<SignalEvent>)
    ensures
        r@ == seq![
            SignalEvent::Hangup,
            SignalEvent::Cont,
            SignalEvent::Interrupt,
            SignalEvent::Quit,
            SignalEvent::Terminate,
        ],
{
    let r = vec![
        SignalEvent::Hangup,
        SignalEvent::Cont,
        SignalEvent::Interrupt,
        SignalEvent::Quit,
        SignalEvent::Terminate,
    ];
    assert(r@ =~= seq![
        SignalEvent::Hangup,
        SignalEvent::Cont,
        SignalEvent::Interrupt,
        SignalEvent::Quit,
        SignalEvent::Terminate,
    ]);
    r
}

/// The decisions of one watch loop: every received signal is broadcast
/// while watching, and a terminal one ends the watch for good.
#[derive(Debug)]
pub struct SignalWatcher {
    watching: bool,
}

impl SignalWatcher {
    pub closed spec fn spec_watching(&self) -> bool {
        self.watching
    }

    pub fn new() -> (r: Self)
        ensures
            r.spec_watching(),
    {
        SignalWatcher { watching: true }
    }

    pub fn is_watching(&self) -> (r: bool)
        ensures
            r == self.spec_watching(),
    {
        self.watching
    }

    /// Takes a received signal: while watching, it is to be broadcast, and
    /// the watch goes on only for a non-terminal one; once the watch has
    /// ended nothing is broadcast.
    pub fn on_signal(&mut self, event: SignalEvent) -> (r: Option<SignalEvent>)
        ensures
            old(self).spec_watching() ==> r == Some(event) && final(self).spec_watching()
                == !event.spec_is_terminal(),
            !old(self).spec_watching() ==> r is None && !final(self).spec_watching(),
    {
        if self.watching {
            self.watching = !event.is_terminal();
            Some(event)
        } else {
            None
        }
    }
}

} // verus!
