//! One run of a command, as a state machine.
//!
//! Starting a process, waiting for it and killing it are the caller's work.
//! What is decided here is the order of that work and what it ends in:
//! [`Executor::execute`] takes where the run stands and what has just
//! happened, and answers with what to do next.
//!
//! ```text
//! Ready -> Spawning -> Waiting -> Collecting -> (Reporting ->) Finished
//!                         |
//!                         +----> Killing -> Reaping -> Finished
//! ```
use vstd::prelude::*;
use crate::commands::{CommandModel, CommandSpec};
use crate::config::Config;
use crate::error::{CodeRunnerError, ErrorModel};
use crate::platform::Platform;
use crate::text::{
    chars_of, decode_lossy, is_text, push_signed_decimal, signed_decimal, trim, trimmed,
    utf8_lossy,
};

verus! {

/// What a command that ended with success has left.
#[derive(Debug, Clone)]
pub struct ExecutionResult {
    pub stdout: String,
    pub stderr: String,
    pub exit_code: i32,
    pub success: bool,
}

/// An [`ExecutionResult`] with its texts as sequences of characters.
pub struct ExecutionResultModel {
    pub stdout: Seq<char>,
    pub stderr: Seq<char>,
    pub exit_code: i32,
    pub success: bool,
}

impl View for ExecutionResult {
    type V = ExecutionResultModel;

    open spec fn view(&self) -> ExecutionResultModel {
        ExecutionResultModel {
            stdout: self.stdout@,
            stderr: self.stderr@,
            exit_code: self.exit_code,
            success: self.success,
        }
    }
}

/// The model of what a run ends in.
pub open spec fn outcome_view(outcome: Result<ExecutionResult, CodeRunnerError>) -> Result<
    ExecutionResultModel,
    ErrorModel,
> {
    match outcome {
        Ok(result) => Ok(result@),
        Err(e) => Err(e@),
    }
}

/// The model of a text that may be missing.
pub open spec fn text_view(text: Option<String>) -> Option<Seq<char>> {
    match text {
        Some(s) => Some(s@),
        None => None,
    }
}

/// Where a run stands.
#[derive(Debug)]
pub enum Phase {
    /// Nothing has been done yet.
    Ready,
    /// The process is being started.
    Spawning,
    /// The process runs, and the wait for it is bounded.
    Waiting,
    /// The process has ended by itself with this exit code (`None` where a
    /// signal ended it); what it has written is being collected.
    Collecting { code: Option<i32> },
    /// What the process has written is being shown.
    Reporting { outcome: Result<ExecutionResult, CodeRunnerError> },
    /// The time is up and the process is being killed.
    Killing,
    /// The process has been killed and its end is being awaited.
    Reaping,
    /// The run is over.
    Finished,
}

/// What has happened since the last step.
#[derive(Debug)]
pub enum Event {
    /// The run is asked for.
    Start,
    /// The process has started.
    Spawned,
    /// The process could not be started; the text is the system's report.
    SpawnFailed(String),
    /// The process has ended within the time, with this exit code, or with
    /// none where a signal ended it.
    Exited { code: Option<i32> },
    /// The time is up and the process still runs.
    Elapsed,
    /// All that the process has written, as bytes.
    Collected { stdout: Vec<u8>, stderr: Vec<u8> },
    /// The output has been shown.
    Reported,
    /// The process has been told to die.
    Killed,
    /// The killed process has ended.
    Reaped,
    /// The last action failed in the operating system; the text is its
    /// report.
    IoFailed(String),
}

/// What is to be done next.
#[derive(Debug)]
pub enum Action {
    /// Write `banner`, if there is one, to standard output; then start the
    /// process with a pipe for its standard output and one for its standard
    /// error.
    Spawn { banner: Option<String> },
    /// Wait until the process ends, but no longer than this many seconds.
    Wait { seconds: u64 },
    /// Read what is left in both pipes.
    Collect,
    /// Write `stderr`, if there is one, to standard error and `stdout`, if
    /// there is one, to standard output.
    Report { stderr: Option<String>, stdout: Option<String> },
    /// Kill the process.
    Kill,
    /// Wait until the killed process has ended.
    Reap,
    /// Return this to whoever asked for the run.
    Finish(Result<ExecutionResult, CodeRunnerError>),
}

pub enum PhaseModel {
    Ready,
    Spawning,
    Waiting,
    Collecting { code: Option<i32> },
    Reporting { outcome: Result<ExecutionResultModel, ErrorModel> },
    Killing,
    Reaping,
    Finished,
}

pub enum EventModel {
    Start,
    Spawned,
    SpawnFailed(Seq<char>),
    Exited { code: Option<i32> },
    Elapsed,
    Collected { stdout: Seq<u8>, stderr: Seq<u8> },
    Reported,
    Killed,
    Reaped,
    IoFailed(Seq<char>),
}

pub enum ActionModel {
    Spawn { banner: Option<Seq<char>> },
    Wait { seconds: u64 },
    Collect,
    Report { stderr: Option<Seq<char>>, stdout: Option<Seq<char>> },
    Kill,
    Reap,
    Finish(Result<ExecutionResultModel, ErrorModel>),
}

impl View for Phase {
    type V = PhaseModel;

    open spec fn view(&self) -> PhaseModel {
        match self {
            Phase::Ready => PhaseModel::Ready,
            Phase::Spawning => PhaseModel::Spawning,
            Phase::Waiting => PhaseModel::Waiting,
            Phase::Collecting { code } => PhaseModel::Collecting { code: *code },
            Phase::Reporting { outcome } => PhaseModel::Reporting {
                outcome: outcome_view(*outcome),
            },
            Phase::Killing => PhaseModel::Killing,
            Phase::Reaping => PhaseModel::Reaping,
            Phase::Finished => PhaseModel::Finished,
        }
    }
}

impl View for Event {
    type V = EventModel;

    open spec fn view(&self) -> EventModel {
        match self {
            Event::Start => EventModel::Start,
            Event::Spawned => EventModel::Spawned,
            Event::SpawnFailed(report) => EventModel::SpawnFailed(report@),
            Event::Exited { code } => EventModel::Exited { code: *code },
            Event::Elapsed => EventModel::Elapsed,
            Event::Collected { stdout, stderr } => EventModel::Collected {
                stdout: stdout@,
                stderr: stderr@,
            },
            Event::Reported => EventModel::Reported,
            Event::Killed => EventModel::Killed,
            Event::Reaped => EventModel::Reaped,
            Event::IoFailed(report) => EventModel::IoFailed(report@),
        }
    }
}

impl View for Action {
    type V = ActionModel;

    open spec fn view(&self) -> ActionModel {
        match self {
            Action::Spawn { banner } => ActionModel::Spawn { banner: text_view(*banner) },
            Action::Wait { seconds } => ActionModel::Wait { seconds: *seconds },
            Action::Collect => ActionModel::Collect,
            Action::Report { stderr, stdout } => ActionModel::Report {
                stderr: text_view(*stderr),
                stdout: text_view(*stdout),
            },
            Action::Kill => ActionModel::Kill,
            Action::Reap => ActionModel::Reap,
            Action::Finish(outcome) => ActionModel::Finish(outcome_view(*outcome)),
        }
    }
}

/// The model of a step that may be refused.
pub open spec fn step_view(step: Option<(Phase, Action)>) -> Option<(PhaseModel, ActionModel)> {
    match step {
        Some((phase, action)) => Some((phase@, action@)),
        None => None,
    }
}

/// The exit code that is reported: the process's own, or -1 where it ended
/// without one.
pub open spec fn reported_code(code: Option<i32>) -> i32 {
    match code {
        Some(c) => c,
        None => -1i32,
    }
}

/// What a run ends in once the process has ended by itself: its output
/// where the exit code is 0, a failure that names the exit code otherwise.
pub open spec fn outcome_of(code: Option<i32>, stdout: Seq<char>, stderr: Seq<char>) -> Result<
    ExecutionResultModel,
    ErrorModel,
> {
    if code == Some(0i32) {
        Ok(ExecutionResultModel { stdout, stderr, exit_code: 0, success: true })
    } else {
        Err(
            ErrorModel::ExecutionFailed(
                "Command exited with code: "@ + signed_decimal(reported_code(code) as int),
            ),
        )
    }
}

/// The line that announces a command.
pub open spec fn banner(cmd: CommandModel) -> Seq<char> {
    "Running: "@ + cmd.display() + "\n\n"@
}

/// What is written to standard error for what the process wrote there:
/// nothing where that is blank.
pub open spec fn shown_stderr(stderr: Seq<char>) -> Option<Seq<char>> {
    if trimmed(stderr).len() > 0 {
        Some("stderr:\n"@ + stderr + "\n"@)
    } else {
        None
    }
}

/// What is written to standard output for what the process wrote there:
/// nothing where that is empty.
pub open spec fn shown_stdout(stdout: Seq<char>) -> Option<Seq<char>> {
    if stdout.len() > 0 {
        Some(stdout)
    } else {
        None
    }
}

/// Whether the caller is at work for the run in this phase, so that a
/// failure of the operating system can be reported in it.
pub open spec fn at_work(phase: PhaseModel) -> bool {
    phase is Spawning || phase is Waiting || phase is Collecting || phase is Reporting
        || phase is Killing || phase is Reaping
}

/// The step that `event` leads to from `phase`, for the command `cmd` under
/// `config`; `None` where `event` cannot happen in `phase`.
pub open spec fn step(config: Config, cmd: CommandModel, phase: PhaseModel, event: EventModel)
    -> Option<(PhaseModel, ActionModel)> {
    match (phase, event) {
        (PhaseModel::Ready, EventModel::Start) => if cmd.program.len() == 0 {
            Some(
                (
                    PhaseModel::Finished,
                    ActionModel::Finish(
                        Err(ErrorModel::ExecutionFailed("Program name is empty"@)),
                    ),
                ),
            )
        } else {
            Some(
                (
                    PhaseModel::Spawning,
                    ActionModel::Spawn {
                        banner: if config.silent_mode {
                            None
                        } else {
                            Some(banner(cmd))
                        },
                    },
                ),
            )
        },
        (PhaseModel::Spawning, EventModel::Spawned) => Some(
            (PhaseModel::Waiting, ActionModel::Wait { seconds: config.timeout }),
        ),
        (PhaseModel::Spawning, EventModel::SpawnFailed(report)) => Some(
            (
                PhaseModel::Finished,
                ActionModel::Finish(
                    Err(
                        ErrorModel::ExecutionFailed(
                            "Failed to start '"@ + cmd.program + "': "@ + report,
                        ),
                    ),
                ),
            ),
        ),
        (PhaseModel::Waiting, EventModel::Exited { code }) => Some(
            (PhaseModel::Collecting { code }, ActionModel::Collect),
        ),
        (PhaseModel::Waiting, EventModel::Elapsed) => Some(
            (PhaseModel::Killing, ActionModel::Kill),
        ),
        (PhaseModel::Collecting { code }, EventModel::Collected { stdout, stderr }) => {
            let out = utf8_lossy(stdout);
            let err = utf8_lossy(stderr);
            if config.silent_mode {
                Some((PhaseModel::Finished, ActionModel::Finish(outcome_of(code, out, err))))
            } else {
                Some(
                    (
                        PhaseModel::Reporting { outcome: outcome_of(code, out, err) },
                        ActionModel::Report {
                            stderr: shown_stderr(err),
                            stdout: shown_stdout(out),
                        },
                    ),
                )
            }
        },
        (PhaseModel::Reporting { outcome }, EventModel::Reported) => Some(
            (PhaseModel::Finished, ActionModel::Finish(outcome)),
        ),
        (PhaseModel::Killing, EventModel::Killed) => Some((PhaseModel::Reaping, ActionModel::Reap)),
        (PhaseModel::Reaping, EventModel::Reaped) => Some(
            (PhaseModel::Finished, ActionModel::Finish(Err(ErrorModel::Timeout(config.timeout)))),
        ),
        (_, EventModel::IoFailed(report)) => if at_work(phase) {
            Some((PhaseModel::Finished, ActionModel::Finish(Err(ErrorModel::IoError(report)))))
        } else {
            None
        },
        _ => None,
    }
}

/// A process that ends by itself is a success only with exit code 0; with
/// any other code, or with none, the run ends in `ExecutionFailed`, whatever
/// the process wrote.
pub proof fn lemma_only_exit_zero_succeeds(
    code: Option<i32>,
    stdout: Seq<char>,
    stderr: Seq<char>,
)
    ensures
        outcome_of(code, stdout, stderr) is Ok <==> code == Some(0i32),
        outcome_of(code, stdout, stderr) matches Ok(result) ==> result.success && result.exit_code
            == 0 && result.stdout == stdout && result.stderr == stderr,
        outcome_of(code, stdout, stderr) matches Err(e) ==> e is ExecutionFailed,
{
}

/// Once the time is up, the run goes through the kill and the wait for the
/// killed process, and ends in `Timeout` with the configured time. Nothing
/// that the process wrote is part of that end.
pub proof fn lemma_timeout_ends_the_run(config: Config, cmd: CommandModel)
    ensures
        step(config, cmd, PhaseModel::Waiting, EventModel::Elapsed) == Some(
            (PhaseModel::Killing, ActionModel::Kill),
        ),
        step(config, cmd, PhaseModel::Killing, EventModel::Killed) == Some(
            (PhaseModel::Reaping, ActionModel::Reap),
        ),
        step(config, cmd, PhaseModel::Reaping, EventModel::Reaped) == Some(
            (PhaseModel::Finished, ActionModel::Finish(Err(ErrorModel::Timeout(config.timeout)))),
        ),
{
}

/// A run is over exactly when the action is `Finish`, and a run that is over
/// takes no further step. A run ends well only where the process has ended
/// by itself with exit code 0, or where that outcome was held while the
/// output was shown. Nothing is started for an empty program.
pub proof fn lemma_steps_end_in_finish(
    config: Config,
    cmd: CommandModel,
    phase: PhaseModel,
    event: EventModel,
)
    ensures
        phase is Finished ==> step(config, cmd, phase, event) is None,
        step(config, cmd, phase, event) matches Some((next, action)) ==> (next is Finished
            <==> action is Finish),
        step(config, cmd, phase, event) matches Some((_, ActionModel::Finish(Ok(result)))) ==> {
            ||| phase == (PhaseModel::Collecting { code: Some(0i32) }) && result.success
                && result.exit_code == 0
            ||| phase == (PhaseModel::Reporting { outcome: Ok(result) })
        },
        step(config, cmd, phase, event) matches Some((_, ActionModel::Spawn { .. }))
            ==> cmd.program.len() > 0,
{
}

/// The build products that are deleted after a run: the program `main` that
/// the compilers of Rust, C and C++ are told to write, and the `main` of Nim.
pub open spec fn artifact(platform: Platform, ext: Seq<char>) -> Option<Seq<char>> {
    if ext == "rs"@ || ext == "c"@ || ext == "cpp"@ || ext == "cc"@ || ext == "cxx"@ {
        match platform {
            Platform::Windows => Some("main.exe"@),
            Platform::Posix => Some("main"@),
        }
    } else if ext == "nim"@ {
        Some("main"@)
    } else {
        None
    }
}

/// Runs commands under one configuration, for one platform.
pub struct Executor {
    config: Config,
    platform: Platform,
}

impl Executor {
    /// The configuration that the runs are made under.
    pub closed spec fn config(&self) -> Config {
        self.config
    }

    /// The platform whose naming of built programs applies.
    pub closed spec fn platform(&self) -> Platform {
        self.platform
    }

    /// An executor for the host.
    pub fn new(config: Config) -> (executor: Self)
        ensures
            executor.config() == config,
    {
        Executor { config, platform: Platform::host() }
    }

    /// An executor for `platform`.
    pub fn for_platform(config: Config, platform: Platform) -> (executor: Self)
        ensures
            executor.config() == config,
            executor.platform() == platform,
    {
        Executor { config, platform }
    }

    /// What a run ends in once the process has ended by itself.
    fn conclude(code: Option<i32>, stdout: String, stderr: String) -> (outcome: Result<
        ExecutionResult,
        CodeRunnerError,
    >)
        ensures
            outcome_view(outcome) == outcome_of(code, stdout@, stderr@),
    {
        match code {
            Some(0) => Ok(ExecutionResult { stdout, stderr, exit_code: 0, success: true }),
            _ => {
                let exit_code = match code {
                    Some(c) => c,
                    None => -1,
                };
                let mut detail = String::from_str("Command exited with code: ");
                push_signed_decimal(&mut detail, exit_code);
                Err(CodeRunnerError::ExecutionFailed(detail))
            },
        }
    }

    /// Takes the run of `cmd_spec` one step on: from `phase`, where `event`
    /// has just happened, to the next phase and the action to carry out.
    /// `None` where `event` cannot happen in `phase`.
    ///
    /// A run starts in [`Phase::Ready`] with [`Event::Start`] and is over
    /// with [`Action::Finish`]. An empty program is refused before anything
    /// is started. A process that ends by itself with an exit code other
    /// than 0 is a failure, whatever it wrote. A process that outlives the
    /// configured time is killed and awaited, and the run ends in
    /// [`CodeRunnerError::Timeout`] with nothing of what it wrote.
    pub fn execute(&self, cmd_spec: &CommandSpec, phase: Phase, event: Event) -> (next: Option<
        (Phase, Action),
    >)
        ensures
            step_view(next) == step(self.config(), cmd_spec@, phase@, event@),
    {
        match (phase, event) {
            (Phase::Ready, Event::Start) => {
                if chars_of(cmd_spec.program.as_str()).len() == 0 {
                    Some(
                        (
                            Phase::Finished,
                            Action::Finish(
                                Err(
                                    CodeRunnerError::ExecutionFailed(
                                        String::from_str("Program name is empty"),
                                    ),
                                ),
                            ),
                        ),
                    )
                } else if self.config.silent_mode {
                    Some((Phase::Spawning, Action::Spawn { banner: None }))
                } else {
                    let mut text = String::from_str("Running: ");
                    text.append(cmd_spec.display_string().as_str());
                    text.append("\n\n");
                    Some((Phase::Spawning, Action::Spawn { banner: Some(text) }))
                }
            },
            (Phase::Spawning, Event::Spawned) => Some(
                (Phase::Waiting, Action::Wait { seconds: self.config.timeout }),
            ),
            (Phase::Spawning, Event::SpawnFailed(report)) => {
                let mut detail = String::from_str("Failed to start '");
                detail.append(cmd_spec.program.as_str());
                detail.append("': ");
                detail.append(report.as_str());
                Some((Phase::Finished, Action::Finish(Err(CodeRunnerError::ExecutionFailed(detail)))))
            },
            (Phase::Waiting, Event::Exited { code }) => Some(
                (Phase::Collecting { code }, Action::Collect),
            ),
            (Phase::Waiting, Event::Elapsed) => Some((Phase::Killing, Action::Kill)),
            (Phase::Collecting { code }, Event::Collected { stdout, stderr }) => {
                let out = decode_lossy(&stdout);
                let err = decode_lossy(&stderr);
                if self.config.silent_mode {
                    Some((Phase::Finished, Action::Finish(Self::conclude(code, out, err))))
                } else {
                    let stderr_text = if trim(err.as_str()).len() > 0 {
                        let mut text = String::from_str("stderr:\n");
                        text.append(err.as_str());
                        text.append("\n");
                        Some(text)
                    } else {
                        None
                    };
                    let stdout_text = if chars_of(out.as_str()).len() > 0 {
                        Some(out.clone())
                    } else {
                        None
                    };
                    Some(
                        (
                            Phase::Reporting { outcome: Self::conclude(code, out, err) },
                            Action::Report { stderr: stderr_text, stdout: stdout_text },
                        ),
                    )
                }
            },
            (Phase::Reporting { outcome }, Event::Reported) => Some(
                (Phase::Finished, Action::Finish(outcome)),
            ),
            (Phase::Killing, Event::Killed) => Some((Phase::Reaping, Action::Reap)),
            (Phase::Reaping, Event::Reaped) => Some(
                (
                    Phase::Finished,
                    Action::Finish(Err(CodeRunnerError::Timeout(self.config.timeout))),
                ),
            ),
            (Phase::Spawning, Event::IoFailed(report))
            | (Phase::Waiting, Event::IoFailed(report))
            | (Phase::Collecting { .. }, Event::IoFailed(report))
            | (Phase::Reporting { .. }, Event::IoFailed(report))
            | (Phase::Killing, Event::IoFailed(report))
            | (Phase::Reaping, Event::IoFailed(report)) => Some(
                (Phase::Finished, Action::Finish(Err(CodeRunnerError::IoError(report)))),
            ),
            _ => None,
        }
    }

    /// The file to delete after a file with this extension has been run, if
    /// it is there: the program that the compiler was told to write. `None`
    /// where the configuration keeps build products, and for the extensions
    /// that leave none.
    pub fn cleanup(&self, extension: &str) -> (file: Option<String>)
        ensures
            text_view(file) == if self.config().cleanup_artifacts {
                artifact(self.platform(), extension@)
            } else {
                None
            },
    {
        if !self.config.cleanup_artifacts {
            return None;
        }
        let ext = chars_of(extension);
        if is_text(&ext, "rs") || is_text(&ext, "c") || is_text(&ext, "cpp") || is_text(&ext, "cc")
            || is_text(&ext, "cxx") {
            match self.platform {
                Platform::Windows => Some(String::from_str("main.exe")),
                Platform::Posix => Some(String::from_str("main")),
            }
        } else if is_text(&ext, "nim") {
            Some(String::from_str("main"))
        } else {
            None
        }
    }
}

} // verus!
