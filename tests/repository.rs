use project_zero::repository::{init_command, judge_init, judge_init_with, InitOutcome, RepoError};

#[test]
fn command_is_bare_init() {
    let c = init_command();
    assert_eq!(c.program, "git");
    assert_eq!(c.args, vec!["init".to_string()]);
}

#[test]
fn spawn_failure_is_tool_unavailable() {
    let r = judge_init("proj", InitOutcome::SpawnFailed("No such file or directory".to_string()));
    match r {
        Err(e) => {
            assert!(matches!(e, RepoError::ToolUnavailable(_, _)));
            let m = e.message();
            assert!(m.contains("'proj'"));
            assert!(m.contains("No such file or directory"));
            assert!(m.contains("ensure Git is installed"));
        }
        Ok(()) => panic!("a tool that did not start is a failure"),
    }
}

#[test]
fn missing_directory_message_names_path() {
    let r = judge_init("/no/such/dir", InitOutcome::SpawnFailed("not found".to_string()));
    let e = r.err().expect("must fail");
    assert!(e.message().contains("/no/such/dir"));
}

#[test]
fn failed_exit_reports_trimmed_stderr() {
    let r = judge_init(
        "proj",
        InitOutcome::Exited { success: false, stderr: "  fatal: cannot init \n".to_string() },
    );
    match r {
        Err(RepoError::Execution(p, detail)) => {
            assert_eq!(p, "proj");
            assert_eq!(detail, "fatal: cannot init");
        }
        _ => panic!("a failed exit is an execution error"),
    }
}

#[test]
fn execution_error_message() {
    let e = RepoError::Execution("proj".to_string(), "fatal: x".to_string());
    assert_eq!(
        e.message(),
        "Git initialization failed in 'proj': fatal: x. Please check that the directory exists and you have write permissions."
    );
}

#[test]
fn successful_exit_is_ok() {
    let r = judge_init("proj", InitOutcome::Exited { success: true, stderr: "warn".to_string() });
    assert!(r.is_ok());
    let r = judge_init_with(
        "proj",
        InitOutcome::Exited { success: false, stderr: String::new() },
        "given".to_string(),
    );
    assert!(matches!(r, Err(RepoError::Execution(_, d)) if d == "given"));
}
