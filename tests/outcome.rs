use git_bridge::outcome::{GitResult, ProcessOutput, ShellResult};

fn finished(success: bool, stdout: &[u8], stderr: &[u8]) -> Result<ProcessOutput, String> {
    Ok(ProcessOutput { success, stdout: stdout.to_vec(), stderr: stderr.to_vec() })
}

fn check_error_rule(r: &GitResult) {
    assert_eq!(r.success, r.error.is_none());
}

#[test]
fn clean_repository_status_is_empty_success() {
    let r = GitResult::from_run(finished(true, b"", b""));
    assert!(r.success);
    assert_eq!(r.output, "");
    assert_eq!(r.error, None);
}

#[test]
fn untracked_file_shows_in_porcelain_output() {
    let r = GitResult::from_run(finished(true, b"?? notes.txt\n", b""));
    assert!(r.success);
    assert!(r.output.lines().any(|l| l == "?? notes.txt"));
    assert_eq!(r.error, None);
}

#[test]
fn missing_working_directory_fails_with_reason() {
    let r = GitResult::from_run(Err("No such file or directory (os error 2)".to_string()));
    assert!(!r.success);
    assert_eq!(r.output, "");
    assert_eq!(r.error.as_deref(), Some("No such file or directory (os error 2)"));
    check_error_rule(&r);
}

#[test]
fn rejected_commit_surfaces_stderr_verbatim() {
    let stderr = b"Aborting commit due to empty commit message.\n";
    let r = GitResult::from_run(finished(false, b"", stderr));
    assert!(!r.success);
    assert_eq!(r.error.as_deref(), Some("Aborting commit due to empty commit message.\n"));
    check_error_rule(&r);
}

#[test]
fn failure_keeps_stdout_too() {
    let r = GitResult::from_run(finished(
        false,
        b"On branch main\nnothing to commit, working tree clean\n",
        b"",
    ));
    assert!(!r.success);
    assert_eq!(r.output, "On branch main\nnothing to commit, working tree clean\n");
    assert_eq!(
        r.error.as_deref(),
        Some("git exited with a failure status and wrote nothing to standard error")
    );
    check_error_rule(&r);
}

#[test]
fn silent_failure_of_from_exit_gets_description() {
    let r = GitResult::from_exit(false, String::new(), String::new());
    assert!(!r.success);
    assert_eq!(
        r.error.as_deref(),
        Some("git exited with a failure status and wrote nothing to standard error")
    );
}

#[test]
fn empty_launch_reason_for_git_gets_description() {
    let r = GitResult::from_run(Err(String::new()));
    assert!(!r.success);
    assert_eq!(r.output, "");
    assert_eq!(r.error.as_deref(), Some("the process could not be started"));
}

#[test]
fn empty_launch_reason_for_launcher_gets_description() {
    let r = ShellResult::from_spawn(Err(String::new()));
    assert!(!r.success);
    assert_eq!(r.error.as_deref(), Some("the process could not be started"));
    let r = ShellResult::launch_failed(String::new());
    assert_eq!(r.error.as_deref(), Some("the process could not be started"));
}

#[test]
fn invalid_utf8_is_replaced() {
    let r = GitResult::from_run(finished(false, &[0x66, 0xff, 0x6f], &[0xc3, 0x28]));
    assert_eq!(r.output, "f\u{FFFD}o");
    assert_eq!(r.error.as_deref(), Some("\u{FFFD}("));
}

#[test]
fn valid_utf8_is_kept() {
    let r = GitResult::from_run(finished(true, "M  caf\u{e9}.txt\n".as_bytes(), b""));
    assert_eq!(r.output, "M  caf\u{e9}.txt\n");
}

#[test]
fn from_output_follows_exit_status() {
    let out = ProcessOutput { success: true, stdout: b"A  a.rs\n".to_vec(), stderr: b"warning\n".to_vec() };
    let r = GitResult::from_output(&out);
    assert!(r.success);
    assert_eq!(r.output, "A  a.rs\n");
    assert_eq!(r.error, None);
}

#[test]
fn from_exit_keeps_text() {
    let ok = GitResult::from_exit(true, "out".to_string(), "err".to_string());
    assert!(ok.success);
    assert_eq!(ok.output, "out");
    assert_eq!(ok.error, None);
    let bad = GitResult::from_exit(false, "out".to_string(), "err".to_string());
    assert!(!bad.success);
    assert_eq!(bad.output, "out");
    assert_eq!(bad.error.as_deref(), Some("err"));
}

#[test]
fn launch_failure_has_no_output() {
    let r = GitResult::from_launch_failure("program not found".to_string());
    assert!(!r.success);
    assert_eq!(r.output, "");
    assert_eq!(r.error.as_deref(), Some("program not found"));
}

#[test]
fn started_launcher_succeeds() {
    let r = ShellResult::from_spawn(Ok(()));
    assert!(r.success);
    assert_eq!(r.error, None);
}

#[test]
fn launcher_that_cannot_start_fails_with_reason() {
    let r = ShellResult::from_spawn(Err("No such file or directory (os error 2)".to_string()));
    assert!(!r.success);
    assert_eq!(r.error.as_deref(), Some("No such file or directory (os error 2)"));
}

#[test]
fn shell_result_constructors() {
    let ok = ShellResult::launched();
    assert!(ok.success && ok.error.is_none());
    let bad = ShellResult::launch_failed("denied".to_string());
    assert!(!bad.success);
    assert_eq!(bad.error.as_deref(), Some("denied"));
}
