//! The lifecycle of one operating-system process: its PID marker file, the
//! signals that steer it, and its bounded termination.

pub mod pid_error;
pub mod pid_file_guard;
pub mod pid_utils;
pub mod process_error;
pub mod process_utils;
pub mod signal_error;
pub mod signal_utils;

pub use pid_error::PidError;
pub use process_error::ProcessError;
pub use signal_error::SignalError;
pub use pid_file_guard::PidFileGuard;
pub use pid_utils::{
    get_pid_file_path, parse_pid_file_content, pid_file_content, plan_delete_if_owned,
    read_pid_from, PidFileAction, PidFileRead,
};
pub use process_utils::{
    check_process, liveness_from_probe, ProcessTerminator, TerminationAction, TerminationPhase,
};
pub use signal_utils::{
    parse_instruction, send_signal, send_signal_by_instruction, signal_delivery,
    signal_for_instruction, watched_signals, SignalEvent, SignalInstruction, SignalWatcher,
};
