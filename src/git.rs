use vstd::prelude::*;
use vstd::string::StringExecFns;

use crate::text::{decimal, decimal_text, decode_lossy, lossy_utf8};
use crate::types::{
    clone_text_opt, git_arguments, git_program, text_opt, texts, GitActorState, StateView,
};

verus! {

/// Capture buffer requested from the process supervisor for each stream: 1 MiB.
pub const SPAWN_BUFFER_BYTES: u32 = 1048576;

/// What the process supervisor is asked to launch. Both streams are captured raw and
/// unchunked; no execution timeout is handed down, the state machine enforces its own.
#[derive(Debug, Clone)]
pub struct SpawnRequest {
    pub program: String,
    pub args: Vec<String>,
    pub env: Vec<(String, String)>,
    pub cwd: Option<String>,
    pub buffer_size: u32,
    pub execution_timeout: Option<u64>,
}

pub ghost struct SpawnRequestView {
    pub program: Seq<char>,
    pub args: Seq<Seq<char>>,
    pub env_len: nat,
    pub cwd: Option<Seq<char>>,
    pub buffer_size: u32,
    pub execution_timeout: Option<u64>,
}

impl View for SpawnRequest {
    type V = SpawnRequestView;

    open spec fn view(&self) -> SpawnRequestView {
        SpawnRequestView {
            program: self.program@,
            args: texts(self.args@),
            env_len: self.env@.len(),
            cwd: text_opt(self.cwd),
            buffer_size: self.buffer_size,
            execution_timeout: self.execution_timeout,
        }
    }
}

/// The launch request for a state: `git -C <repository> <args...>`, no environment entries,
/// the configured working directory, a 1 MiB buffer and no supervisor timeout.
pub open spec fn spawn_request_of(s: StateView) -> SpawnRequestView {
    SpawnRequestView {
        program: git_program(),
        args: git_arguments(s),
        env_len: 0,
        cwd: s.working_directory,
        buffer_size: SPAWN_BUFFER_BYTES,
        execution_timeout: None,
    }
}

pub open spec fn timeout_message(seconds: u32) -> Seq<char> {
    "Command timed out after "@ + decimal(seconds as nat) + " seconds"@
}

pub open spec fn spawn_failure_message(reason: Seq<char>) -> Seq<char> {
    "Failed to spawn git process: "@ + reason
}

/// A launch can still be attempted: nothing completed and no process recorded.
pub open spec fn awaiting_launch(s: StateView) -> bool {
    !s.completed && s.active_process is None
}

/// The run started at a known time and more than the configured seconds have passed by `now`.
pub open spec fn timed_out(s: StateView, now: Option<u64>) -> bool {
    match (s.start_time, now) {
        (Some(start), Some(n)) => start <= n && n - start > s.timeout_seconds * 1000,
        _ => false,
    }
}

/// The chunk belongs to the tracked process of a run that has not completed.
pub open spec fn accepts(s: StateView, pid: u64) -> bool {
    !s.completed && s.active_process == Some(pid)
}

/// Outcome of the pre-flight validation: `Some(message)` on failure.
pub open spec fn launch_step(s: StateView, failure: Option<Seq<char>>, now: Option<u64>) -> StateView {
    match failure {
        Some(e) => StateView { validation_error: Some(e), completed: true, ..s },
        None => StateView { start_time: now, ..s },
    }
}

/// Outcome of the spawn request: the process identifier, or the supervisor's reason.
pub open spec fn spawn_step(s: StateView, outcome: Result<u64, Seq<char>>) -> StateView {
    match outcome {
        Ok(pid) => StateView { active_process: Some(pid), ..s },
        Err(e) => StateView {
            validation_error: Some(spawn_failure_message(e)),
            completed: true,
            ..s
        },
    }
}

/// A stdout chunk: appended when it is the tracked process's, then the timeout is checked.
pub open spec fn stdout_step(s: StateView, pid: u64, chunk: Seq<char>, now: Option<u64>) -> StateView {
    if accepts(s, pid) {
        let a = StateView { stdout_buffer: s.stdout_buffer + chunk, ..s };
        if timed_out(a, now) {
            StateView {
                validation_error: Some(timeout_message(a.timeout_seconds)),
                completed: true,
                ..a
            }
        } else {
            a
        }
    } else {
        s
    }
}

/// A stderr chunk: appended when it is the tracked process's; no timeout check.
pub open spec fn stderr_step(s: StateView, pid: u64, chunk: Seq<char>) -> StateView {
    if accepts(s, pid) {
        StateView { stderr_buffer: s.stderr_buffer + chunk, ..s }
    } else {
        s
    }
}

/// An exit notification: recorded when it is the tracked process's, which ends the run.
pub open spec fn exit_step(s: StateView, pid: u64, code: i32) -> StateView {
    if accepts(s, pid) {
        StateView { exit_code: Some(code), active_process: None, completed: true, ..s }
    } else {
        s
    }
}

/// Pre-flight check of the repository path. Inspecting the filesystem is left to the spawned
/// git process, which reports a bad path itself, so every path is accepted here.
pub fn validate_repository(path: &str) -> (r: Result<(), String>)
    ensures
        r is Ok,
{
    Ok(())
}

/// Applies the outcome of the pre-flight validation. On failure the run completes with that
/// message and no launch is requested; on success the start time is recorded and the launch
/// request is returned.
pub fn begin_launch(
    state: &mut GitActorState,
    validation: Result<(), String>,
    now_ms: Option<u64>,
) -> (r: Result<SpawnRequest, String>)
    requires
        awaiting_launch(old(state)@),
    ensures
        final(state)@ == launch_step(
            old(state)@,
            match validation {
                Ok(_) => None,
                Err(e) => Some(e@),
            },
            now_ms,
        ),
        match (r, validation) {
            (Ok(req), Ok(_)) => req@ == spawn_request_of(old(state)@),
            (Err(m), Err(e)) => m@ == e@,
            _ => false,
        },
{
    match validation {
        Err(e) => {
            state.validation_error = Some(e.clone());
            state.completed = true;
            Err(e)
        },
        Ok(()) => {
            state.start_time = now_ms;
            let program = String::from_str("git");
            proof {
                reveal_strlit("git");
            }
            assert(program@ == git_program());
            let req = SpawnRequest {
                program,
                args: state.get_git_arguments(),
                env: Vec::new(),
                cwd: clone_text_opt(&state.working_directory),
                buffer_size: SPAWN_BUFFER_BYTES,
                execution_timeout: None,
            };
            Ok(req)
        },
    }
}

/// Validates the repository path and applies the outcome: the start of a fresh run, which is
/// then waiting for `record_spawn`.
pub fn start_git_command(state: &mut GitActorState, now_ms: Option<u64>) -> (r: Result<
    SpawnRequest,
    String,
>)
    requires
        awaiting_launch(old(state)@),
    ensures
        final(state)@ == launch_step(old(state)@, None, now_ms),
        r matches Ok(req) && req@ == spawn_request_of(old(state)@),
{
    let validation = validate_repository(state.repository_path.as_str());
    begin_launch(state, validation, now_ms)
}

/// Applies what the process supervisor answered to the launch request: the identifier of the
/// new process, or the reason it refused, which completes the run with a spawn error.
pub fn record_spawn(state: &mut GitActorState, outcome: Result<u64, String>) -> (r: Result<
    (),
    String,
>)
    requires
        awaiting_launch(old(state)@),
    ensures
        final(state)@ == spawn_step(
            old(state)@,
            match outcome {
                Ok(pid) => Ok(pid),
                Err(e) => Err(e@),
            },
        ),
        match (r, outcome) {
            (Ok(_), Ok(_)) => true,
            (Err(m), Err(e)) => m@ == spawn_failure_message(e@),
            _ => false,
        },
{
    match outcome {
        Ok(pid) => {
            state.active_process = Some(pid);
            Ok(())
        },
        Err(e) => {
            let msg = String::from_str("Failed to spawn git process: ").concat(e.as_str());
            state.validation_error = Some(msg.clone());
            state.completed = true;
            Err(msg)
        },
    }
}

/// Appends text to the stdout buffer.
pub fn process_stdout(state: &mut GitActorState, data: &str)
    ensures
        final(state)@ == (StateView { stdout_buffer: old(state)@.stdout_buffer + data@, ..old(state)@ }),
{
    state.stdout_buffer.append(data);
}

/// Appends text to the stderr buffer.
pub fn process_stderr(state: &mut GitActorState, data: &str)
    ensures
        final(state)@ == (StateView { stderr_buffer: old(state)@.stderr_buffer + data@, ..old(state)@ }),
{
    state.stderr_buffer.append(data);
}

/// Records the exit of the tracked process, which completes the run. A notification for any
/// other process, or one after completion, changes nothing.
pub fn handle_process_exit(state: &mut GitActorState, pid: u64, exit_code: i32)
    ensures
        final(state)@ == exit_step(old(state)@, pid, exit_code),
{
    if !state.completed && state.active_process == Some(pid) {
        state.exit_code = Some(exit_code);
        state.active_process = None;
        state.completed = true;
    }
}

/// Whether the run has exceeded its timeout at `now_ms`. Without a known start time or a
/// current time it never has.
pub fn is_timeout_exceeded(state: &GitActorState, now_ms: Option<u64>) -> (r: bool)
    ensures
        r == timed_out(state@, now_ms),
{
    match (state.start_time, now_ms) {
        (Some(start), Some(now)) => start <= now && now - start > state.timeout_seconds as u64
            * 1000,
        _ => false,
    }
}

/// Applies a decoded stdout chunk; returns whether this delivery completed the run.
pub fn receive_stdout(state: &mut GitActorState, pid: u64, chunk: &str, now_ms: Option<u64>) -> (r:
    bool)
    ensures
        final(state)@ == stdout_step(old(state)@, pid, chunk@, now_ms),
        r == (!old(state)@.completed && final(state)@.completed),
{
    if state.completed || state.active_process != Some(pid) {
        return false;
    }
    process_stdout(state, chunk);
    if is_timeout_exceeded(state, now_ms) {
        let mut msg = String::from_str("Command timed out after ");
        msg.append(decimal_text(state.timeout_seconds).as_str());
        msg.append(" seconds");
        state.validation_error = Some(msg);
        state.completed = true;
        true
    } else {
        false
    }
}

/// Applies a decoded stderr chunk; returns whether this delivery completed the run (never).
pub fn receive_stderr(state: &mut GitActorState, pid: u64, chunk: &str) -> (r: bool)
    ensures
        final(state)@ == stderr_step(old(state)@, pid, chunk@),
        r == (!old(state)@.completed && final(state)@.completed),
{
    if !state.completed && state.active_process == Some(pid) {
        process_stderr(state, chunk);
    }
    false
}

/// A stdout delivery as raw bytes, decoded lossily; returns whether it completed the run.
pub fn handle_stdout(state: &mut GitActorState, pid: u64, data: &[u8], now_ms: Option<u64>) -> (r:
    bool)
    ensures
        final(state)@ == stdout_step(old(state)@, pid, lossy_utf8(data@), now_ms),
        r == (!old(state)@.completed && final(state)@.completed),
{
    let chunk = decode_lossy(data);
    receive_stdout(state, pid, chunk.as_str(), now_ms)
}

/// A stderr delivery as raw bytes, decoded lossily; returns whether it completed the run.
pub fn handle_stderr(state: &mut GitActorState, pid: u64, data: &[u8]) -> (r: bool)
    ensures
        final(state)@ == stderr_step(old(state)@, pid, lossy_utf8(data@)),
        r == (!old(state)@.completed && final(state)@.completed),
{
    let chunk = decode_lossy(data);
    receive_stderr(state, pid, chunk.as_str())
}

/// An exit delivery; returns whether it completed the run.
pub fn handle_exit(state: &mut GitActorState, pid: u64, exit_code: i32) -> (r: bool)
    ensures
        final(state)@ == exit_step(old(state)@, pid, exit_code),
        r == (!old(state)@.completed && final(state)@.completed),
{
    let was_completed = state.completed;
    handle_process_exit(state, pid, exit_code);
    !was_completed && state.completed
}

} // verus!
