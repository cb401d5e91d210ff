use vstd::prelude::*;
use vstd::string::StringExecFns;

verus! {

/// Timeout applied when the configuration does not give one.
pub const DEFAULT_TIMEOUT_SECONDS: u32 = 30;

/// Initiating configuration of one git command execution.
#[derive(Debug, Clone)]
pub struct GitCommandConfig {
    /// Path to the git repository.
    pub repository_path: String,
    /// Git command arguments (e.g. `["status", "--porcelain"]`).
    pub git_args: Vec<String>,
    /// Timeout in seconds; `DEFAULT_TIMEOUT_SECONDS` when absent.
    pub timeout_seconds: Option<u32>,
    /// Working directory of the spawned process, when it differs from the default.
    pub working_directory: Option<String>,
}

/// The whole state of one execution, carried between event deliveries.
///
/// Times are milliseconds on the host's wall clock.
#[derive(Debug, Clone)]
pub struct GitActorState {
    pub repository_path: String,
    pub git_args: Vec<String>,
    pub timeout_seconds: u32,
    pub working_directory: Option<String>,
    pub active_process: Option<u64>,
    pub stdout_buffer: String,
    pub stderr_buffer: String,
    pub exit_code: Option<i32>,
    pub completed: bool,
    pub start_time: Option<u64>,
    pub validation_error: Option<String>,
}

/// Terminal record of one execution.
#[derive(Debug, Clone)]
pub struct GitCommandResult {
    pub success: bool,
    pub exit_code: Option<i32>,
    pub stdout: String,
    pub stderr: String,
    pub command: Vec<String>,
    pub execution_time_ms: Option<u64>,
    pub error: Option<String>,
    pub repository_path: String,
}

/// Mathematical model of `GitActorState`.
pub ghost struct StateView {
    pub repository_path: Seq<char>,
    pub git_args: Seq<Seq<char>>,
    pub timeout_seconds: u32,
    pub working_directory: Option<Seq<char>>,
    pub active_process: Option<u64>,
    pub stdout_buffer: Seq<char>,
    pub stderr_buffer: Seq<char>,
    pub exit_code: Option<i32>,
    pub completed: bool,
    pub start_time: Option<u64>,
    pub validation_error: Option<Seq<char>>,
}

/// Mathematical model of `GitCommandResult`.
pub ghost struct ResultView {
    pub success: bool,
    pub exit_code: Option<i32>,
    pub stdout: Seq<char>,
    pub stderr: Seq<char>,
    pub command: Seq<Seq<char>>,
    pub execution_time_ms: Option<u64>,
    pub error: Option<Seq<char>>,
    pub repository_path: Seq<char>,
}

pub open spec fn text_opt(o: Option<String>) -> Option<Seq<char>> {
    match o {
        Some(s) => Some(s@),
        None => None,
    }
}

pub open spec fn texts(v: Seq<String>) -> Seq<Seq<char>> {
    v.map_values(|s: String| s@)
}

impl View for GitActorState {
    type V = StateView;

    open spec fn view(&self) -> StateView {
        StateView {
            repository_path: self.repository_path@,
            git_args: texts(self.git_args@),
            timeout_seconds: self.timeout_seconds,
            working_directory: text_opt(self.working_directory),
            active_process: self.active_process,
            stdout_buffer: self.stdout_buffer@,
            stderr_buffer: self.stderr_buffer@,
            exit_code: self.exit_code,
            completed: self.completed,
            start_time: self.start_time,
            validation_error: text_opt(self.validation_error),
        }
    }
}

impl View for GitCommandResult {
    type V = ResultView;

    open spec fn view(&self) -> ResultView {
        ResultView {
            success: self.success,
            exit_code: self.exit_code,
            stdout: self.stdout@,
            stderr: self.stderr@,
            command: texts(self.command@),
            execution_time_ms: self.execution_time_ms,
            error: text_opt(self.error),
            repository_path: self.repository_path@,
        }
    }
}

/// The state of a fresh execution built from a configuration.
pub open spec fn initial_state(
    repository_path: Seq<char>,
    git_args: Seq<Seq<char>>,
    timeout_seconds: Option<u32>,
    working_directory: Option<Seq<char>>,
) -> StateView {
    StateView {
        repository_path,
        git_args,
        timeout_seconds: match timeout_seconds {
            Some(t) => t,
            None => DEFAULT_TIMEOUT_SECONDS,
        },
        working_directory,
        active_process: None,
        stdout_buffer: Seq::empty(),
        stderr_buffer: Seq::empty(),
        exit_code: None,
        completed: false,
        start_time: None,
        validation_error: None,
    }
}

pub open spec fn git_program() -> Seq<char> {
    seq!['g', 'i', 't']
}

pub open spec fn directory_flag() -> Seq<char> {
    seq!['-', 'C']
}

/// Arguments handed to the git program: the repository flag, then the configured arguments.
pub open spec fn git_arguments(s: StateView) -> Seq<Seq<char>> {
    seq![directory_flag(), s.repository_path] + s.git_args
}

/// The fully qualified command line, program first.
pub open spec fn full_command(s: StateView) -> Seq<Seq<char>> {
    seq![git_program()] + git_arguments(s)
}

/// A run succeeded exactly when the process exited with code 0 and no error was recorded.
pub open spec fn is_success(s: StateView) -> bool {
    s.exit_code == Some(0i32) && s.validation_error is None
}

/// Milliseconds between the start time and `now`, when both are known and in order.
pub open spec fn elapsed_ms(start: Option<u64>, now: Option<u64>) -> Option<u64> {
    match (start, now) {
        (Some(s), Some(n)) => if s <= n {
            Some((n - s) as u64)
        } else {
            None
        },
        _ => None,
    }
}

/// The record that a state yields at time `now`.
pub open spec fn result_of(s: StateView, now: Option<u64>) -> ResultView {
    ResultView {
        success: is_success(s),
        exit_code: s.exit_code,
        stdout: s.stdout_buffer,
        stderr: s.stderr_buffer,
        command: full_command(s),
        execution_time_ms: elapsed_ms(s.start_time, now),
        error: s.validation_error,
        repository_path: s.repository_path,
    }
}

pub(crate) fn clone_text_opt(o: &Option<String>) -> (r: Option<String>)
    ensures
        text_opt(r) == text_opt(*o),
{
    match o {
        Some(s) => Some(s.clone()),
        None => None,
    }
}

/// Appends a copy of each string of `src` to `dst`, in order.
pub(crate) fn extend_texts(dst: &mut Vec<String>, src: &Vec<String>)
    ensures
        texts(final(dst)@) == texts(old(dst)@) + texts(src@),
{
    let ghost start = texts(dst@);
    let mut i: usize = 0;
    while i < src.len()
        invariant
            0 <= i <= src.len(),
            texts(dst@) == start + texts(src@.subrange(0, i as int)),
        decreases src.len() - i,
    {
        let ghost before = dst@;
        dst.push(src[i].clone());
        proof {
            assert(texts(dst@) =~= texts(before).push(src@[i as int]@));
            assert(texts(src@.subrange(0, i + 1)) =~= texts(src@.subrange(0, i as int)).push(
                src@[i as int]@,
            ));
            assert(texts(dst@) =~= start + texts(src@.subrange(0, i + 1)));
        }
        i = i + 1;
    }
    assert(src@.subrange(0, src.len() as int) =~= src@);
}

impl GitActorState {
    /// Builds the state of a fresh execution; the timeout defaults to `DEFAULT_TIMEOUT_SECONDS`.
    pub fn new(config: GitCommandConfig) -> (r: GitActorState)
        ensures
            r@ == initial_state(
                config.repository_path@,
                texts(config.git_args@),
                config.timeout_seconds,
                text_opt(config.working_directory),
            ),
    {
        let timeout_seconds = match config.timeout_seconds {
            Some(t) => t,
            None => DEFAULT_TIMEOUT_SECONDS,
        };
        GitActorState {
            repository_path: config.repository_path,
            git_args: config.git_args,
            timeout_seconds,
            working_directory: config.working_directory,
            active_process: None,
            stdout_buffer: String::new(),
            stderr_buffer: String::new(),
            exit_code: None,
            completed: false,
            start_time: None,
            validation_error: None,
        }
    }

    /// The arguments handed to the git program: `-C`, the repository path, then the configured
    /// arguments.
    pub fn get_git_arguments(&self) -> (r: Vec<String>)
        ensures
            texts(r@) == git_arguments(self@),
    {
        let mut args: Vec<String> = Vec::new();
        args.push(String::from_str("-C"));
        args.push(self.repository_path.clone());
        proof {
            reveal_strlit("-C");
        }
        assert(args@[0]@ == "-C"@);
        assert("-C"@ == directory_flag());
        assert(texts(args@) =~= seq![directory_flag(), self@.repository_path]);
        extend_texts(&mut args, &self.git_args);
        assert(texts(args@) =~= git_arguments(self@));
        args
    }

    /// The full command line: `git`, `-C`, the repository path, then the configured arguments.
    pub fn get_full_command(&self) -> (r: Vec<String>)
        ensures
            texts(r@) == full_command(self@),
    {
        let mut cmd: Vec<String> = Vec::new();
        cmd.push(String::from_str("git"));
        proof {
            reveal_strlit("git");
        }
        assert("git"@ == git_program());
        assert(texts(cmd@) =~= seq![git_program()]);
        let args = self.get_git_arguments();
        extend_texts(&mut cmd, &args);
        assert(texts(cmd@) =~= full_command(self@));
        cmd
    }

    /// The terminal record of this state, with the elapsed time measured up to `now_ms`.
    ///
    /// Total: it also yields a record for a state that has not completed.
    pub fn to_result(&self, now_ms: Option<u64>) -> (r: GitCommandResult)
        ensures
            r@ == result_of(self@, now_ms),
    {
        let execution_time_ms = match (self.start_time, now_ms) {
            (Some(s), Some(n)) => if s <= n {
                Some(n - s)
            } else {
                None
            },
            _ => None,
        };
        let success = match self.exit_code {
            Some(c) => c == 0 && self.validation_error.is_none(),
            None => false,
        };
        GitCommandResult {
            success,
            exit_code: self.exit_code,
            stdout: self.stdout_buffer.clone(),
            stderr: self.stderr_buffer.clone(),
            command: self.get_full_command(),
            execution_time_ms,
            error: clone_text_opt(&self.validation_error),
            repository_path: self.repository_path.clone(),
        }
    }
}

} // verus!
