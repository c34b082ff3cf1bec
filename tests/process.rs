use rds_backend::fatal::FatalError;
use rds_backend::log::SourceLoggable;
use rds_backend::process::{
    age_query, fork_outcome, get_age, get_integer_value_with, get_pid, kill_outcome,
    kill_query, pid_query, CommandRun, ForkError, ProcStatus, ProcessError,
};
use rds_backend::text::ParseFailure;

fn exited(code: i32, line: &str) -> CommandRun {
    CommandRun::Exited { code: Some(code), first_line: Ok(line.to_string()) }
}

fn words(v: &[&str]) -> Vec<String> {
    v.iter().map(|s| s.to_string()).collect()
}

#[test]
fn integer_read_from_first_line() {
    let args = words(&["-x"]);
    assert_eq!(get_integer_value_with("tool", &args, exited(0, " 42\n")).unwrap(), 42);
    assert_eq!(get_integer_value_with("tool", &args, exited(0, "+7")).unwrap(), 7);
    assert_eq!(
        get_integer_value_with("tool", &args, exited(0, "18446744073709551615")).unwrap(),
        u64::MAX
    );
}

#[test]
fn unparsable_output_is_reported_trimmed() {
    let args = words(&["-x"]);
    match get_integer_value_with("tool", &args, exited(0, "  abc \n")) {
        Err(ProcessError::CannotParseStdout { executable_path, cause, input }) => {
            assert_eq!(executable_path, "tool");
            assert_eq!(cause, ParseFailure::InvalidDigit);
            assert_eq!(input, "abc");
        }
        other => panic!("unexpected {:?}", other),
    }
    let kinds = [
        ("\n", ParseFailure::Empty),
        ("-1", ParseFailure::InvalidDigit),
        ("+", ParseFailure::InvalidDigit),
        ("12 34", ParseFailure::InvalidDigit),
        ("18446744073709551616", ParseFailure::PosOverflow),
    ];
    for (line, kind) in kinds {
        match get_integer_value_with("tool", &args, exited(0, line)) {
            Err(ProcessError::CannotParseStdout { cause, .. }) => assert_eq!(cause, kind),
            other => panic!("unexpected {:?} for {:?}", other, line),
        }
        assert_eq!(line.trim().parse::<u64>().is_err(), true);
    }
}

#[test]
fn error_status_reports_joined_arguments() {
    let args = words(&["-o", "etimes=", "-p", "1"]);
    match get_integer_value_with("ps", &args, exited(1, "")) {
        Err(ProcessError::ErrorExitStatus { executable_path, input }) => {
            assert_eq!(executable_path, "ps");
            assert_eq!(input, "-o etimes= -p 1");
        }
        other => panic!("unexpected {:?}", other),
    }
    let signalled = CommandRun::Exited { code: None, first_line: Ok("5".to_string()) };
    assert!(matches!(
        get_integer_value_with("ps", &args, signalled),
        Err(ProcessError::ErrorExitStatus { .. })
    ));
}

#[test]
fn failures_before_output_are_reported() {
    let args = words(&[]);
    let spawn = CommandRun::SpawnFailed { cause: "not found".to_string() };
    match get_integer_value_with("nope", &args, spawn) {
        Err(ProcessError::CannotSpawn { executable_path, cause }) => {
            assert_eq!(executable_path, "nope");
            assert_eq!(cause, "not found");
        }
        other => panic!("unexpected {:?}", other),
    }
    assert!(matches!(
        get_integer_value_with("t", &args, CommandRun::NoStdoutHandle),
        Err(ProcessError::CannotGetStdoutHandle { .. })
    ));
    assert!(matches!(
        get_integer_value_with("t", &args, CommandRun::WaitFailed { cause: "w".to_string() }),
        Err(ProcessError::CannotWait { .. })
    ));
    let unread = CommandRun::Exited { code: Some(0), first_line: Err("bad utf-8".to_string()) };
    assert!(matches!(
        get_integer_value_with("t", &args, unread),
        Err(ProcessError::CannotReadStdout { .. })
    ));
}

#[test]
fn pid_lookup_by_name() {
    let q = pid_query("RustDedicated");
    assert_eq!(q.executable, "pgrep");
    assert_eq!(q.args, words(&["RustDedicated"]));
    assert_eq!(get_pid("RustDedicated", exited(0, "1234\n")).unwrap(), ProcStatus::Running(1234));
    assert_eq!(get_pid("RustDedicated", exited(1, "")).unwrap(), ProcStatus::Terminated);
    assert!(matches!(
        get_pid("RustDedicated", exited(0, "x")),
        Err(ProcessError::CannotParseStdout { .. })
    ));
}

#[test]
fn age_in_seconds() {
    let q = age_query(4711);
    assert_eq!(q.executable, "ps");
    assert_eq!(q.args, words(&["-o", "etimes=", "-p", "4711"]));
    assert_eq!(get_age(4711, exited(0, "   360\n")).unwrap(), 360);
    match get_age(4711, exited(1, "")) {
        Err(ProcessError::ErrorExitStatus { input, .. }) => assert_eq!(input, "-o etimes= -p 4711"),
        other => panic!("unexpected {:?}", other),
    }
}

#[test]
fn kill_of_ended_target_is_success() {
    let q = kill_query("RustDedicated");
    assert_eq!(q.executable, "pkill");
    assert_eq!(q.args, words(&["-KILL", "RustDedicated"]));
    assert!(kill_outcome("RustDedicated", exited(0, "")).is_ok());
    assert!(kill_outcome("RustDedicated", exited(1, "")).is_ok());
    match kill_outcome("RustDedicated", exited(3, "")) {
        Err(ProcessError::ErrorExitStatus { executable_path, input }) => {
            assert_eq!(executable_path, "pkill");
            assert_eq!(input, "-KILL RustDedicated");
        }
        other => panic!("unexpected {:?}", other),
    }
    assert!(matches!(
        kill_outcome("x", CommandRun::SpawnFailed { cause: "c".to_string() }),
        Err(ProcessError::CannotSpawn { .. })
    ));
}

#[test]
fn fork_outcome_passes_pid_or_error() {
    assert_eq!(fork_outcome(Ok(Ok(77))).unwrap(), 77);
    match fork_outcome(Err("receiving on a closed channel".to_string())) {
        Err(ForkError::CannotReceivePID(c)) => assert_eq!(c, "receiving on a closed channel"),
        other => panic!("unexpected {:?}", other),
    }
    let e = ForkError::Other(ProcessError::CannotGetStdoutHandle { executable_path: "a".into() });
    assert!(matches!(fork_outcome(Ok(Err(e))), Err(ForkError::Other(_))));
}

#[test]
fn error_messages() {
    let path = "./Rust \"Dedicated\"".to_string();
    let e = ProcessError::CannotSpawn { executable_path: path.clone(), cause: "gone".into() };
    assert_eq!(e.message(), format!("cannot spawn process from executable {:?}", path));
    assert_eq!(e.message(), "cannot spawn process from executable \"./Rust \\\"Dedicated\\\"\"");
    assert_eq!(e.source(), Some("gone".to_string()));
    let e = ProcessError::CannotParseStdout {
        executable_path: "pgrep".into(),
        cause: ParseFailure::InvalidDigit,
        input: "x1".into(),
    };
    assert_eq!(
        e.message(),
        "cannot parse integer from stdout of process from executable \"pgrep\": \"x1\""
    );
    assert_eq!(e.source(), Some("invalid digit found in string".to_string()));
    let e = ProcessError::ErrorExitStatus { executable_path: "ps".into(), input: "-p 1".into() };
    assert_eq!(e.message(), "exited with error status from process from executable \"ps\", input: \"-p 1\"");
    assert_eq!(e.source(), None);
    let e = ProcessError::CannotWait { executable_path: "ps".into(), cause: "w".into() };
    assert_eq!(e.message(), "failed to wait process from executable \"ps\"");
    let e = ProcessError::CannotGetStdoutHandle { executable_path: "ps".into() };
    assert_eq!(e.message(), "cannot get stdout handle of process from executable \"ps\"");
    let e = ProcessError::CannotReadStdout { executable_path: "ps".into(), cause: "r".into() };
    assert_eq!(e.message(), "cannot read stdout of process from executable \"ps\"");
    assert_eq!(ParseFailure::Empty.message(), "cannot parse integer from empty string");
    assert_eq!(ParseFailure::PosOverflow.message(), "number too large to fit in target type");
}

#[test]
fn log_lines_follow_the_cause_chain() {
    let inner = ProcessError::CannotSpawn { executable_path: "pgrep".into(), cause: "denied".into() };
    let fatal = FatalError::from(ForkError::Other(inner.clone()));
    assert_eq!(
        fatal.log_lines(),
        vec![
            "[ERROR] - could not launch game server into an independent process".to_string(),
            "        ^-- Other".to_string(),
            "        ^-- cannot spawn process from executable \"pgrep\"".to_string(),
            "        ^-- denied".to_string(),
        ]
    );
    let fatal = FatalError::from(inner);
    assert_eq!(fatal.message(), "failed to execute external command");
    assert_eq!(fatal.messages().len(), 3);
    let lost = ForkError::CannotReceivePID("receiving on a closed channel".into());
    assert_eq!(
        lost.log_lines(),
        vec![
            "[ERROR] - CannotTransmitPID".to_string(),
            "        ^-- receiving on a closed channel".to_string(),
        ]
    );
    let plain = ProcessError::CannotGetStdoutHandle { executable_path: "ps".into() };
    assert_eq!(plain.log_lines().len(), 1);
}
