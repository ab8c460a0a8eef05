use wheel_rs::process::{
    check_process, liveness_from_probe, ProcessError, ProcessTerminator, SignalError,
    SignalInstruction, TerminationAction, TerminationPhase,
};

#[test]
fn probe_outcomes() {
    assert_eq!(liveness_from_probe(Ok(())), Ok(true));
    assert_eq!(liveness_from_probe(Err(3)), Ok(false));
    assert_eq!(liveness_from_probe(Err(1)), Ok(true));
    assert_eq!(liveness_from_probe(Err(22)), Err(ProcessError::CheckProcess(22)));
}

#[test]
fn probe_real_processes() {
    assert_eq!(check_process(i32::MAX), Ok(false));
    assert_eq!(check_process(1), Ok(true));
}

#[test]
fn process_exiting_within_one_interval_succeeds() {
    let mut t = ProcessTerminator::new(4242, 1000, 100);
    assert_eq!(t.start(), TerminationAction::Signal(SignalInstruction::Terminate));
    assert_eq!(t.signal_sent(Ok(())), TerminationAction::Probe);
    assert_eq!(t.probed(Ok(true), 0), TerminationAction::Sleep(100));
    assert_eq!(t.woke(101), TerminationAction::Probe);
    assert_eq!(t.probed(Ok(false), 101), TerminationAction::Finish(Ok(())));
    assert_eq!(t.phase, TerminationPhase::Exited);
}

#[test]
fn process_never_exiting_times_out_at_deadline() {
    let mut t = ProcessTerminator::new(4242, 250, 100);
    assert_eq!(t.signal_sent(Ok(())), TerminationAction::Probe);
    let mut now = 0u64;
    let mut sleeps = Vec::new();
    loop {
        match t.probed(Ok(true), now) {
            TerminationAction::Sleep(d) => {
                sleeps.push(d);
                now += d + 1;
                match t.woke(now) {
                    TerminationAction::Probe => continue,
                    other => {
                        assert_eq!(
                            other,
                            TerminationAction::Finish(Err(ProcessError::TerminateProcessTimeout(
                                4242
                            )))
                        );
                        break;
                    }
                }
            }
            other => {
                assert_eq!(
                    other,
                    TerminationAction::Finish(Err(ProcessError::TerminateProcessTimeout(4242)))
                );
                break;
            }
        }
    }
    assert_eq!(sleeps, vec![100, 100, 48]);
    assert_eq!(t.phase, TerminationPhase::TimedOut);
    assert!(now >= 250 && now <= 250 + 100);
}

#[test]
fn failed_terminate_signal_ends_termination() {
    let mut t = ProcessTerminator::new(7, 1000, 100);
    let err = SignalError::SendSignal("SIGTERM".to_string(), 3);
    assert_eq!(
        t.signal_sent(Err(err.clone())),
        TerminationAction::Finish(Err(ProcessError::Signal(err)))
    );
    assert_eq!(t.phase, TerminationPhase::Failed);
}

#[test]
fn failed_probe_ends_termination() {
    let mut t = ProcessTerminator::new(7, 1000, 100);
    t.signal_sent(Ok(()));
    assert_eq!(
        t.probed(Err(ProcessError::CheckProcess(22)), 5),
        TerminationAction::Finish(Err(ProcessError::CheckProcess(22)))
    );
    assert_eq!(t.phase, TerminationPhase::Failed);
}
