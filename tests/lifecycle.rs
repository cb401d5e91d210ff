use git_command_actor::git::{
    begin_launch, handle_exit, handle_process_exit, handle_stderr, handle_stdout,
    is_timeout_exceeded, process_stderr, process_stdout, receive_stderr, receive_stdout,
    record_spawn, start_git_command, validate_repository, SPAWN_BUFFER_BYTES,
};
use git_command_actor::text::decimal_text;
use git_command_actor::types::{GitActorState, GitCommandConfig, DEFAULT_TIMEOUT_SECONDS};

fn strings(items: &[&str]) -> Vec<String> {
    items.iter().map(|s| s.to_string()).collect()
}

fn config(repo: &str, args: &[&str]) -> GitCommandConfig {
    GitCommandConfig {
        repository_path: repo.to_string(),
        git_args: strings(args),
        timeout_seconds: None,
        working_directory: None,
    }
}

fn fresh() -> GitActorState {
    GitActorState::new(config("/repo", &["status", "--porcelain"]))
}

fn running(pid: u64, start: Option<u64>) -> GitActorState {
    let mut state = fresh();
    start_git_command(&mut state, start).expect("launch request");
    record_spawn(&mut state, Ok(pid)).expect("spawned");
    state
}

fn same_state(a: &GitActorState, b: &GitActorState) -> bool {
    a.repository_path == b.repository_path
        && a.git_args == b.git_args
        && a.timeout_seconds == b.timeout_seconds
        && a.working_directory == b.working_directory
        && a.active_process == b.active_process
        && a.stdout_buffer == b.stdout_buffer
        && a.stderr_buffer == b.stderr_buffer
        && a.exit_code == b.exit_code
        && a.completed == b.completed
        && a.start_time == b.start_time
        && a.validation_error == b.validation_error
}

#[test]
fn new_state_defaults_timeout() {
    let state = fresh();
    assert_eq!(state.timeout_seconds, DEFAULT_TIMEOUT_SECONDS);
    assert_eq!(state.timeout_seconds, 30);
    assert_eq!(state.active_process, None);
    assert!(!state.completed);
    assert!(state.stdout_buffer.is_empty());
    assert!(state.stderr_buffer.is_empty());
    assert_eq!(state.exit_code, None);
    assert_eq!(state.validation_error, None);
}

#[test]
fn new_state_keeps_configured_values() {
    let mut cfg = config("/r", &["log"]);
    cfg.timeout_seconds = Some(5);
    cfg.working_directory = Some("/work".to_string());
    let state = GitActorState::new(cfg);
    assert_eq!(state.timeout_seconds, 5);
    assert_eq!(state.working_directory, Some("/work".to_string()));
    assert_eq!(state.git_args, strings(&["log"]));
}

#[test]
fn scenario_full_command() {
    let state = fresh();
    assert_eq!(
        state.get_full_command(),
        strings(&["git", "-C", "/repo", "status", "--porcelain"])
    );
}

#[test]
fn scenario_launch_request() {
    let mut state = fresh();
    let req = start_git_command(&mut state, None).expect("launch request");
    assert_eq!(req.program, "git");
    assert_eq!(req.args, strings(&["-C", "/repo", "status", "--porcelain"]));
    assert!(req.env.is_empty());
    assert_eq!(req.cwd, None);
    assert_eq!(req.buffer_size, SPAWN_BUFFER_BYTES);
    assert_eq!(req.buffer_size, 1024 * 1024);
    assert_eq!(req.execution_timeout, None);
    assert!(!state.completed);
    assert_eq!(state.validation_error, None);
}

#[test]
fn launch_request_uses_working_directory() {
    let mut cfg = config("/repo", &[]);
    cfg.working_directory = Some("/elsewhere".to_string());
    let mut state = GitActorState::new(cfg);
    let req = start_git_command(&mut state, Some(5)).expect("launch request");
    assert_eq!(req.cwd, Some("/elsewhere".to_string()));
    assert_eq!(req.args, strings(&["-C", "/repo"]));
    assert_eq!(state.start_time, Some(5));
}

#[test]
fn validate_repository_accepts_any_path() {
    assert!(validate_repository("/does/not/exist").is_ok());
    assert!(validate_repository("").is_ok());
}

#[test]
fn scenario_validation_failure() {
    let mut state = fresh();
    let r = begin_launch(&mut state, Err("bad path".to_string()), Some(1));
    assert_eq!(r.err(), Some("bad path".to_string()));
    assert!(state.completed);
    assert_eq!(state.active_process, None);
    assert_eq!(state.start_time, None);
    let result = state.to_result(None);
    assert!(!result.success);
    assert_eq!(result.exit_code, None);
    assert_eq!(result.error, Some("bad path".to_string()));
    assert_eq!(result.repository_path, "/repo");
}

#[test]
fn scenario_clean_run() {
    let mut state = running(7, None);
    assert_eq!(state.active_process, Some(7));
    assert!(!handle_stdout(&mut state, 7, b"M file.txt\n", None));
    assert!(!handle_stdout(&mut state, 7, b"", None));
    assert!(handle_exit(&mut state, 7, 0));
    assert!(state.completed);
    assert_eq!(state.active_process, None);
    let result = state.to_result(None);
    assert!(result.success);
    assert_eq!(result.exit_code, Some(0));
    assert_eq!(result.stdout, "M file.txt\n");
    assert_eq!(result.stderr, "");
    assert_eq!(result.error, None);
    assert_eq!(
        result.command,
        strings(&["git", "-C", "/repo", "status", "--porcelain"])
    );
    assert_eq!(result.execution_time_ms, None);
}

#[test]
fn scenario_exit_for_other_process() {
    let mut state = running(7, None);
    let before = state.clone();
    assert!(!handle_exit(&mut state, 9, 0));
    assert!(!state.completed);
    assert!(same_state(&state, &before));
}

#[test]
fn scenario_duplicate_exit() {
    let mut once = running(7, None);
    handle_process_exit(&mut once, 7, 1);
    let mut twice = running(7, None);
    assert!(handle_exit(&mut twice, 7, 1));
    assert!(!handle_exit(&mut twice, 7, 0));
    assert!(same_state(&once, &twice));
    assert_eq!(twice.exit_code, Some(1));
    let a = once.to_result(None);
    let b = twice.to_result(None);
    assert_eq!(a.success, b.success);
    assert_eq!(a.exit_code, b.exit_code);
    assert_eq!(a.stdout, b.stdout);
    assert_eq!(a.error, b.error);
}

#[test]
fn foreign_chunks_are_discarded() {
    let mut state = running(7, None);
    let before = state.clone();
    assert!(!handle_stdout(&mut state, 8, b"x", None));
    assert!(!handle_stderr(&mut state, 8, b"y"));
    assert!(same_state(&state, &before));
}

#[test]
fn chunks_before_spawn_are_discarded() {
    let mut state = fresh();
    let before = state.clone();
    assert!(!receive_stdout(&mut state, 0, "x", None));
    assert!(!receive_stderr(&mut state, 0, "y"));
    handle_process_exit(&mut state, 0, 0);
    assert!(same_state(&state, &before));
}

#[test]
fn chunks_concatenate_in_order() {
    let mut state = running(3, None);
    for chunk in ["ab", "", "c\n", "déf"] {
        receive_stdout(&mut state, 3, chunk, None);
        receive_stderr(&mut state, 3, chunk);
    }
    assert_eq!(state.stdout_buffer, "abc\ndéf");
    assert_eq!(state.stderr_buffer, "abc\ndéf");
}

#[test]
fn completed_state_ignores_events() {
    let mut state = running(7, None);
    handle_exit(&mut state, 7, 2);
    let before = state.clone();
    assert!(!handle_stdout(&mut state, 7, b"late", Some(u64::MAX)));
    assert!(!handle_stderr(&mut state, 7, b"late"));
    assert!(!handle_exit(&mut state, 7, 0));
    assert!(same_state(&state, &before));
    assert!(!state.to_result(None).success);
}

#[test]
fn stderr_only_failure() {
    let mut state = running(4, None);
    handle_stderr(&mut state, 4, b"fatal: not a git repository\n");
    handle_exit(&mut state, 4, 128);
    let result = state.to_result(None);
    assert!(!result.success);
    assert_eq!(result.exit_code, Some(128));
    assert_eq!(result.stderr, "fatal: not a git repository\n");
    assert_eq!(result.stdout, "");
}

#[test]
fn invalid_bytes_are_replaced() {
    let mut state = running(1, None);
    handle_stdout(&mut state, 1, &[0x61, 0xff, 0x62], None);
    handle_stderr(&mut state, 1, &[0xc3]);
    assert_eq!(state.stdout_buffer, "a\u{FFFD}b");
    assert_eq!(state.stderr_buffer, "\u{FFFD}");
}

#[test]
fn valid_bytes_decode_unchanged() {
    let mut state = running(1, None);
    handle_stdout(&mut state, 1, "é ok".as_bytes(), None);
    assert_eq!(state.stdout_buffer, "é ok");
}

#[test]
fn spawn_failure_completes_with_error() {
    let mut state = fresh();
    start_git_command(&mut state, Some(10)).expect("launch request");
    let r = record_spawn(&mut state, Err("no such program".to_string()));
    assert_eq!(
        r.err(),
        Some("Failed to spawn git process: no such program".to_string())
    );
    assert!(state.completed);
    assert_eq!(state.active_process, None);
    let result = state.to_result(Some(15));
    assert!(!result.success);
    assert_eq!(
        result.error,
        Some("Failed to spawn git process: no such program".to_string())
    );
    assert_eq!(result.execution_time_ms, Some(5));
}

#[test]
fn timeout_on_stdout_after_limit() {
    let mut state = running(7, Some(1_000));
    assert!(!handle_stdout(&mut state, 7, b"a", Some(31_000)));
    assert!(!state.completed);
    assert!(handle_stdout(&mut state, 7, b"b", Some(31_001)));
    assert!(state.completed);
    assert_eq!(state.stdout_buffer, "ab");
    assert_eq!(
        state.validation_error,
        Some("Command timed out after 30 seconds".to_string())
    );
    assert!(!handle_exit(&mut state, 7, 0));
    let result = state.to_result(Some(32_000));
    assert!(!result.success);
    assert_eq!(result.exit_code, None);
    assert_eq!(result.execution_time_ms, Some(31_000));
}

#[test]
fn stderr_does_not_check_timeout() {
    let mut state = running(7, Some(0));
    assert!(!handle_stderr(&mut state, 7, b"slow"));
    assert!(!state.completed);
    assert!(is_timeout_exceeded(&state, Some(30_001)));
}

#[test]
fn timeout_needs_clock() {
    let state = running(7, None);
    assert!(!is_timeout_exceeded(&state, Some(u64::MAX)));
    let state = running(7, Some(100));
    assert!(!is_timeout_exceeded(&state, None));
    assert!(!is_timeout_exceeded(&state, Some(50)));
    assert!(!is_timeout_exceeded(&state, Some(30_100)));
    assert!(is_timeout_exceeded(&state, Some(30_101)));
}

#[test]
fn success_requires_no_error() {
    let mut state = running(7, None);
    handle_exit(&mut state, 7, 0);
    state.validation_error = Some("late error".to_string());
    assert!(!state.to_result(None).success);
    state.validation_error = None;
    assert!(state.to_result(None).success);
    state.exit_code = Some(1);
    assert!(!state.to_result(None).success);
    state.exit_code = None;
    assert!(!state.to_result(None).success);
}

#[test]
fn result_of_unstarted_state() {
    let result = fresh().to_result(Some(3));
    assert!(!result.success);
    assert_eq!(result.exit_code, None);
    assert_eq!(result.stdout, "");
    assert_eq!(result.error, None);
    assert_eq!(result.execution_time_ms, None);
}

#[test]
fn raw_appends() {
    let mut state = fresh();
    process_stdout(&mut state, "x");
    process_stdout(&mut state, "y");
    process_stderr(&mut state, "z");
    assert_eq!(state.stdout_buffer, "xy");
    assert_eq!(state.stderr_buffer, "z");
}

#[test]
fn decimal_rendering() {
    assert_eq!(decimal_text(0), "0");
    assert_eq!(decimal_text(7), "7");
    assert_eq!(decimal_text(305), "305");
    assert_eq!(decimal_text(u32::MAX), "4294967295");
}
