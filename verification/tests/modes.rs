use ezcmd::{Attempt, EasyCommand, ExitStatus, Output, RunErrorKind, SpawnAndWaitErrorKind};
use std::io::{Error, ErrorKind};

fn not_found() -> Error {
    Error::new(ErrorKind::NotFound, "no such program")
}

fn interrupted() -> Error {
    Error::new(ErrorKind::Interrupted, "wait was interrupted")
}

#[test]
fn spawn_and_wait_returns_a_successful_status() {
    let mut cmd = EasyCommand::new("true");
    let status = cmd.spawn_and_wait(Attempt::Exited(ExitStatus::new(true, Some(0)))).unwrap();
    assert!(status.success());
    assert_eq!(status.code(), Some(0));
}

#[test]
fn spawn_and_wait_returns_an_unsuccessful_status_unjudged() {
    let mut cmd = EasyCommand::simple("sh", &["-c", "exit 3"]);
    let status = cmd.spawn_and_wait(Attempt::Exited(ExitStatus::new(false, Some(3)))).unwrap();
    assert!(!status.success());
    assert_eq!(status.code(), Some(3));
    assert_eq!(status, ExitStatus { success: false, code: Some(3) });
}

#[test]
fn spawn_and_wait_reports_a_failed_spawn() {
    let mut cmd = EasyCommand::simple("/no/such/program", &["--flag", "two words"]);
    let error = cmd.spawn_and_wait(Attempt::NotSpawned(not_found())).unwrap_err();
    assert_eq!(error.to_string(), "failed to execute /no/such/program --flag 'two words'");
    assert!(error.to_string().contains(&cmd.shell_words()));
    assert_eq!(error.command(), cmd.shell_words());
    assert_eq!(error.source.to_string(), "failed to spawn");
    assert_eq!(error.source.source().kind(), ErrorKind::NotFound);
    match error.source {
        SpawnAndWaitErrorKind::Spawn { source } => {
            assert_eq!(source.to_string(), "no such program")
        }
        other => panic!("expected a failed spawn, got {other:?}"),
    }
}

#[test]
fn spawn_and_wait_reports_a_failed_wait() {
    let mut cmd = EasyCommand::new("sleep");
    let error = cmd.spawn_and_wait(Attempt::NotWaited(interrupted())).unwrap_err();
    assert_eq!(error.to_string(), "failed to execute sleep");
    assert_eq!(error.source.to_string(), "failed to wait for exit code");
    match error.into_source() {
        SpawnAndWaitErrorKind::WaitForExitCode { source } => {
            assert_eq!(source.kind(), ErrorKind::Interrupted)
        }
        other => panic!("expected a failed wait, got {other:?}"),
    }
}

#[test]
fn run_succeeds_on_a_successful_status() {
    let mut cmd = EasyCommand::new("true");
    assert!(matches!(cmd.run(Attempt::Exited(ExitStatus::new(true, Some(0)))), Ok(())));
}

#[test]
fn run_reports_the_code_of_an_unsuccessful_exit() {
    let mut cmd = EasyCommand::simple("sh", &["-c", "exit 7"]);
    let error = cmd.run(Attempt::Exited(ExitStatus::new(false, Some(7)))).unwrap_err();
    assert_eq!(error.to_string(), "failed to execute sh -c 'exit 7'");
    assert!(matches!(error.source, RunErrorKind::UnsuccessfulExitCode { code: Some(7) }));
    assert_eq!(error.source.to_string(), "returned exit code Some(7)");
    assert!(error.source.source().is_none());
}

#[test]
fn run_reports_an_end_by_signal_without_a_code() {
    let mut cmd = EasyCommand::new("cat");
    let error = cmd.run(Attempt::Exited(ExitStatus::new(false, None))).unwrap_err();
    assert!(matches!(error.source, RunErrorKind::UnsuccessfulExitCode { code: None }));
    assert_eq!(error.source.to_string(), "returned exit code None");
}

#[test]
fn run_goes_by_the_judgement_of_the_status_not_by_the_code() {
    let mut cmd = EasyCommand::new("odd");
    assert!(cmd.run(Attempt::Exited(ExitStatus::new(true, Some(5)))).is_ok());
    let error = cmd.run(Attempt::Exited(ExitStatus::new(false, Some(0)))).unwrap_err();
    assert!(matches!(error.source, RunErrorKind::UnsuccessfulExitCode { code: Some(0) }));
}

#[test]
fn run_passes_a_failed_spawn_on() {
    let mut cmd = EasyCommand::new("/no/such/program");
    let error = cmd.run(Attempt::NotSpawned(not_found())).unwrap_err();
    assert_eq!(error.to_string(), "failed to execute /no/such/program");
    assert!(error.to_string().contains(&cmd.shell_words()));
    assert_eq!(error.source.to_string(), "failed to spawn");
    assert_eq!(error.source.source().map(|e| e.kind()), Some(ErrorKind::NotFound));
    assert!(matches!(
        error.source,
        RunErrorKind::SpawnAndWait(SpawnAndWaitErrorKind::Spawn { .. })
    ));
}

#[test]
fn run_passes_a_failed_wait_on() {
    let mut cmd = EasyCommand::new("sleep");
    let error = cmd.run(Attempt::NotWaited(interrupted())).unwrap_err();
    assert_eq!(error.source.to_string(), "failed to wait for exit code");
    assert!(matches!(
        error.source,
        RunErrorKind::SpawnAndWait(SpawnAndWaitErrorKind::WaitForExitCode { .. })
    ));
}

#[test]
fn output_returns_status_and_both_streams() {
    let mut cmd = EasyCommand::simple("printf", &["hello"]);
    let output = cmd
        .output(Ok(Output {
            status: ExitStatus::new(true, Some(0)),
            stdout: b"hello".to_vec(),
            stderr: b"warning".to_vec(),
        }))
        .unwrap();
    assert!(output.status.success());
    assert_eq!(output.stdout, b"hello");
    assert_eq!(output.stderr, b"warning");
}

#[test]
fn output_returns_an_unsuccessful_status_unjudged() {
    let mut cmd = EasyCommand::new("false");
    let output = cmd
        .output(Ok(Output {
            status: ExitStatus::new(false, Some(1)),
            stdout: Vec::new(),
            stderr: Vec::new(),
        }))
        .unwrap();
    assert_eq!(output.status.code(), Some(1));
    assert!(output.stdout.is_empty());
}

#[test]
fn output_reports_the_error_of_the_operating_system() {
    let mut cmd = EasyCommand::simple("/no/such/program", &["x y"]);
    let error = cmd.output(Err(not_found())).unwrap_err();
    assert_eq!(error.to_string(), "failed to execute /no/such/program 'x y'");
    assert_eq!(error.source.kind(), ErrorKind::NotFound);
}

#[test]
fn a_command_can_be_run_again_after_a_failure() {
    let mut cmd = EasyCommand::simple("make", &["all"]);
    let before = cmd.shell_words();
    assert!(cmd.run(Attempt::Exited(ExitStatus::new(false, Some(2)))).is_err());
    assert_eq!(cmd.shell_words(), before);
    assert!(cmd.run(Attempt::Exited(ExitStatus::new(true, Some(0)))).is_ok());
    assert_eq!(cmd.shell_words(), before);
}

#[test]
fn conversion_keeps_the_failed_step() {
    let kind = RunErrorKind::from(SpawnAndWaitErrorKind::Spawn { source: not_found() });
    assert_eq!(kind.to_string(), "failed to spawn");
    assert!(matches!(kind, RunErrorKind::SpawnAndWait(SpawnAndWaitErrorKind::Spawn { .. })));
}

#[test]
fn exit_codes_are_shown_in_decimal() {
    let cases: [(Option<i32>, &str); 8] = [
        (None, "returned exit code None"),
        (Some(0), "returned exit code Some(0)"),
        (Some(9), "returned exit code Some(9)"),
        (Some(10), "returned exit code Some(10)"),
        (Some(255), "returned exit code Some(255)"),
        (Some(-1), "returned exit code Some(-1)"),
        (Some(i32::MAX), "returned exit code Some(2147483647)"),
        (Some(i32::MIN), "returned exit code Some(-2147483648)"),
    ];
    for (code, expected) in cases {
        let kind = RunErrorKind::UnsuccessfulExitCode { code };
        assert_eq!(kind.to_string(), expected);
        assert_eq!(kind.to_string(), format!("returned exit code {code:?}"));
    }
}
