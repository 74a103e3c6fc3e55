use debugger_test::session::{
    debugger_launch_args, poll_decision, session_verdict, test_instance_name, ExitInfo,
    PollAction, SessionFiles, SessionOutcome,
};

/// The session's three files are named from the host binary's stem and the
/// test's symbolic name.
#[test]
fn test_session_file_names() {
    let files = SessionFiles::new("host_bin", "my_test__cdb");
    assert_eq!("host_bin_my_test__cdb.debugger_script", files.script);
    assert_eq!("host_bin_my_test__cdb.debugger_out", files.stdout);
    assert_eq!("host_bin_my_test__cdb.debugger_err", files.stderr);
}

/// One test instance is named from the test function and the debugger.
#[test]
fn test_test_instance_name() {
    assert_eq!("my_test__cdb", test_instance_name("my_test", "cdb"));
}

/// The launch arguments select non-interactive attach by pid and the script
/// file.
#[test]
fn test_debugger_launch_args() {
    let args = debugger_launch_args(4817, "/tmp/t.debugger_script");
    assert_eq!(
        vec!["-pd", "-p", "4817", "-cf", "/tmp/t.debugger_script"],
        args
    );
}

/// The poll loop reads output once the child exited, retries while budget
/// remains, and kills once it is spent.
#[test]
fn test_poll_decision() {
    assert!(matches!(poll_decision(true, 0, 10), PollAction::ReadOutput));
    assert!(matches!(poll_decision(true, 9, 10), PollAction::ReadOutput));
    assert!(matches!(poll_decision(false, 0, 10), PollAction::SleepAndRetry));
    assert!(matches!(poll_decision(false, 8, 10), PollAction::SleepAndRetry));
    assert!(matches!(poll_decision(false, 9, 10), PollAction::Kill));
    assert!(matches!(poll_decision(false, 0, 0), PollAction::Kill));
}

/// A child that exited successfully with matching output is a success.
#[test]
fn test_session_verdict_success() {
    let exit = Some(ExitInfo { success: true, status: String::from("exit code: 0") });
    let verdict = session_verdict(
        exit,
        String::from("var1 = 0\n"),
        String::new(),
        vec!["var1 = 0"],
    );
    assert!(verdict.is_success());
    assert_eq!("", verdict.message());
}

/// A child that exited successfully with output missing an expectation is a
/// verification failure carrying the matcher's message.
#[test]
fn test_session_verdict_verification_failed() {
    let exit = Some(ExitInfo { success: true, status: String::from("exit code: 0") });
    let verdict = session_verdict(
        exit,
        String::from("var1 = 0\n"),
        String::new(),
        vec!["var2 = 1"],
    );
    assert!(!verdict.is_success());
    assert_eq!(
        "Unable to find expected content in the debugger output. Missing line: `var2 = 1`",
        verdict.message()
    );
}

/// A child that exited with a non-success status is a process failure whose
/// message carries the status and both output streams.
#[test]
fn test_session_verdict_process_failed() {
    let exit = Some(ExitInfo { success: false, status: String::from("exit code: 1") });
    let verdict = session_verdict(
        exit,
        String::from("some stdout"),
        String::from("some stderr"),
        vec!["var1 = 0"],
    );
    assert!(!verdict.is_success());
    assert_eq!(
        "Debugger failed with exit code: 1.\nsome stderr\nsome stdout\n",
        verdict.message()
    );
}

/// A child that never exited is reported killed, with its partial output
/// attached rather than discarded.
#[test]
fn test_session_verdict_killed() {
    let verdict = session_verdict(
        None,
        String::from("partial output"),
        String::new(),
        vec!["var1 = 0"],
    );
    assert!(!verdict.is_success());
    assert_eq!("Debugger stdout:\npartial output\n", verdict.message());
}

/// The launch-failure outcome renders the OS error it carries.
#[test]
fn test_launch_failed_message() {
    let outcome = SessionOutcome::DebuggerLaunchFailed {
        cause: String::from("program not found"),
    };
    assert!(!outcome.is_success());
    assert_eq!("Failed to launch CDB: program not found\n", outcome.message());
}
