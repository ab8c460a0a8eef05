use wheel_rs::process::{
    get_pid_file_path, parse_pid_file_content, pid_file_content, plan_delete_if_owned,
    read_pid_from, PidError, PidFileAction, PidFileGuard, PidFileRead,
};

#[test]
fn pid_file_path_replaces_extension() {
    assert_eq!(get_pid_file_path("/var/run/myapp"), "/var/run/myapp.pid");
    assert_eq!(get_pid_file_path("/opt/app/server.exe"), "/opt/app/server.pid");
    assert_eq!(get_pid_file_path("archive.tar.gz"), "archive.tar.pid");
    assert_eq!(get_pid_file_path("dir/.hidden"), "dir/.hidden.pid");
    assert_eq!(get_pid_file_path("dir.d/app"), "dir.d/app.pid");
    assert_eq!(get_pid_file_path("app/"), "app.pid");
    assert_eq!(get_pid_file_path("app.txt/."), "app.pid");
}

#[test]
fn pid_file_path_without_file_name_is_unchanged() {
    assert_eq!(get_pid_file_path(""), "");
    assert_eq!(get_pid_file_path("/"), "/");
    assert_eq!(get_pid_file_path("a/.."), "a/..");
    assert_eq!(get_pid_file_path("."), ".");
}

#[test]
fn write_then_read_scenario() {
    let path = "/tmp/app.pid";
    let content = pid_file_content(1234);
    assert_eq!(content, "1234");
    let read = read_pid_from(path, PidFileRead::Text(content));
    assert_eq!(read, Ok(Some(1234)));
    assert_eq!(plan_delete_if_owned(read.clone(), 5678), Ok(PidFileAction::Keep));
    assert_eq!(plan_delete_if_owned(read, 1234), Ok(PidFileAction::Delete));
    assert_eq!(read_pid_from(path, PidFileRead::Absent), Ok(None));
}

#[test]
fn write_then_read_round_trip_various_pids() {
    for pid in [0u32, 1, 9, 10, 4194304, i32::MAX as u32] {
        let text = pid_file_content(pid);
        assert_eq!(text, pid.to_string());
        assert_eq!(read_pid_from("p", PidFileRead::Text(text)), Ok(Some(pid as i32)));
    }
}

#[test]
fn first_line_is_trimmed_and_parsed() {
    assert_eq!(parse_pid_file_content("p", " 42 \r\nrest"), Ok(42));
    assert_eq!(parse_pid_file_content("p", "\t7\n"), Ok(7));
    assert_eq!(parse_pid_file_content("p", "-5"), Ok(-5));
    assert_eq!(parse_pid_file_content("p", "+8"), Ok(8));
    assert_eq!(parse_pid_file_content("p", "2147483647"), Ok(i32::MAX));
    assert_eq!(parse_pid_file_content("p", "-2147483648"), Ok(i32::MIN));
}

#[test]
fn corrupt_records_are_errors() {
    let parse_err = Err(PidError::ParsePidFileContent("p".to_string()));
    assert_eq!(parse_pid_file_content("p", "abc"), parse_err);
    assert_eq!(parse_pid_file_content("p", "2147483648"), parse_err);
    assert_eq!(parse_pid_file_content("p", "12 34"), parse_err);
    assert_eq!(parse_pid_file_content("p", "\n1234"), parse_err);
    assert_eq!(parse_pid_file_content("p", "-"), parse_err);
    assert_eq!(
        parse_pid_file_content("p", ""),
        Err(PidError::ReadPidFile("p".to_string()))
    );
}

#[test]
fn read_failures_carry_the_path() {
    assert_eq!(
        read_pid_from("/x.pid", PidFileRead::OpenFailed),
        Err(PidError::OpenPidFile("/x.pid".to_string()))
    );
    assert_eq!(
        read_pid_from("/x.pid", PidFileRead::ReadFailed),
        Err(PidError::ReadPidFile("/x.pid".to_string()))
    );
}

#[test]
fn delete_if_owned_propagates_read_errors_and_keeps_missing() {
    let err = PidError::OpenPidFile("p".to_string());
    assert_eq!(plan_delete_if_owned(Err(err.clone()), 1), Err(err));
    assert_eq!(plan_delete_if_owned(Ok(None), 1), Ok(PidFileAction::Keep));
}

#[test]
fn guard_claims_only_after_a_successful_write() {
    let err = PidError::CreatePidFile("/run/a.pid".to_string());
    assert_eq!(
        PidFileGuard::claim("/run/a.pid".to_string(), 99, Err(err.clone())).unwrap_err(),
        err
    );
    let guard = PidFileGuard::claim("/run/a.pid".to_string(), 99, Ok(())).unwrap();
    assert_eq!(guard.pid_file_path(), "/run/a.pid");
    assert_eq!(guard.pid(), 99);
    assert_eq!(guard.content(), "99");
    assert_eq!(guard.release(&Ok(Some(99))), PidFileAction::Delete);
    let claim = || PidFileGuard::claim("/run/a.pid".to_string(), 99, Ok(())).unwrap();
    assert_eq!(claim().release(&Ok(Some(100))), PidFileAction::Keep);
    assert_eq!(claim().release(&Ok(None)), PidFileAction::Keep);
    assert_eq!(
        claim().release(&Err(PidError::ReadPidFile("/run/a.pid".to_string()))),
        PidFileAction::Keep
    );
}
