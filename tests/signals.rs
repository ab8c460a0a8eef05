use wheel_rs::process::{
    parse_instruction, send_signal, send_signal_by_instruction, signal_delivery, signal_for_instruction, watched_signals,
    SignalError, SignalEvent, SignalInstruction, SignalWatcher,
};

const NO_SUCH_PID: i32 = i32::MAX;

#[test]
fn instruction_case_does_not_matter() {
    assert_eq!(parse_instruction("KILL"), Ok(SignalInstruction::Kill));
    assert_eq!(parse_instruction("kill"), Ok(SignalInstruction::Kill));
    assert_eq!(parse_instruction("KILL"), parse_instruction("kill"));
    assert_eq!(parse_instruction("HangUp"), Ok(SignalInstruction::Hangup));
}

#[test]
fn instruction_vocabulary_and_numbers() {
    let cases = [
        ("hangup", SignalInstruction::Hangup, 1),
        ("cont", SignalInstruction::Cont, 18),
        ("interrupt", SignalInstruction::Interrupt, 2),
        ("stop", SignalInstruction::Terminate, 15),
        ("terminate", SignalInstruction::Terminate, 15),
        ("quit", SignalInstruction::Quit, 3),
        ("kill", SignalInstruction::Kill, 9),
    ];
    for (text, sig, number) in cases {
        assert_eq!(signal_for_instruction(text), Ok(sig));
        assert_eq!(sig.number(), number);
    }
    assert_eq!(SignalInstruction::Terminate.name(), "SIGTERM");
}

#[test]
fn unknown_instruction_is_invalid_and_sends_nothing() {
    assert_eq!(
        send_signal_by_instruction("explode", NO_SUCH_PID),
        Err(SignalError::InvalidInstruction("explode".to_string()))
    );
    assert_eq!(
        parse_instruction("EXPLODE"),
        Err(SignalError::InvalidInstruction("explode".to_string()))
    );
}

#[test]
fn refused_signal_names_signal_and_errno() {
    assert_eq!(
        send_signal_by_instruction("Cont", NO_SUCH_PID),
        Err(SignalError::SendSignal("SIGCONT".to_string(), 3))
    );
    assert_eq!(
        send_signal(SignalInstruction::Hangup, NO_SUCH_PID),
        Err(SignalError::SendSignal("SIGHUP".to_string(), 3))
    );
}

#[test]
fn watcher_is_one_shot_for_terminal_signals() {
    let mut w = SignalWatcher::new();
    assert!(w.is_watching());
    assert_eq!(w.on_signal(SignalEvent::Hangup), Some(SignalEvent::Hangup));
    assert!(w.is_watching());
    assert_eq!(w.on_signal(SignalEvent::Cont), Some(SignalEvent::Cont));
    assert!(w.is_watching());
    assert_eq!(w.on_signal(SignalEvent::Quit), Some(SignalEvent::Quit));
    assert!(!w.is_watching());
    assert_eq!(w.on_signal(SignalEvent::Hangup), None);
}

#[test]
fn watched_signal_set() {
    let set = watched_signals();
    let numbers: Vec<i32> = set.iter().map(|e| e.number()).collect();
    assert_eq!(numbers, vec![1, 18, 2, 3, 15]);
    assert!(!SignalEvent::Hangup.is_terminal());
    assert!(!SignalEvent::Cont.is_terminal());
    assert!(SignalEvent::Interrupt.is_terminal());
    assert!(SignalEvent::Terminate.is_terminal());
}

#[test]
fn delivery_follows_the_kernel_answer() {
    assert_eq!(signal_delivery(SignalInstruction::Kill, Ok(())), Ok(()));
    assert_eq!(
        signal_delivery(SignalInstruction::Kill, Err(1)),
        Err(SignalError::SendSignal("SIGKILL".to_string(), 1))
    );
}
