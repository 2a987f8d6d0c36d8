//! The whole way from a path to a finished run, as a state machine.
//!
//! The path is checked as a string, resolved, checked against the file
//! system, mapped to a command, the command's program is looked up, the
//! command is executed, and what the compiler left behind is deleted. The
//! first check that fails ends the run. Asking the file system and running
//! processes is the caller's work: [`Launcher::run`] takes where the run
//! stands and what the caller has found out, and answers with the next task.
use vstd::prelude::*;
use crate::commands::{command_for, get_command_on, CommandModel, CommandSpec};
use crate::config::Config;
use crate::error::{CodeRunnerError, ErrorModel};
use crate::executor::{artifact, outcome_view, ExecutionResult, ExecutionResultModel, Executor};
use crate::platform::Platform;
use crate::utils::{
    check_program_installed, file_info, get_file_info_on, install_failure, install_probe_on,
    probe_for, FileInfo, FileInfoModel,
};
use crate::validator::{file_failure, path_failure, FileStatus, FileStatusModel, Validator};

verus! {

/// Where a run stands.
pub enum Stage {
    /// Nothing has been done yet.
    Idle,
    /// The canonical form of the path is being asked for.
    Resolving { file: String },
    /// The file system is being asked about the resolved path.
    Probing { info: FileInfo },
    /// The command's program is being looked up.
    Locating { ext: String, command: CommandSpec },
    /// The command is being executed.
    Executing { ext: String },
    /// The build product is being deleted.
    Cleaning { outcome: Result<(), CodeRunnerError> },
    /// The run is over.
    Done,
}

/// What the caller has found out since the last step.
pub enum Signal {
    /// The file that is to be run, as the user named it.
    Begin { file: String },
    /// The canonical form of the path, or `None` where the file system gave
    /// none.
    Canonical(Option<String>),
    /// What the file system says of the path.
    Status(FileStatus),
    /// Whether the look-up ended with success.
    Located(bool),
    /// What the execution ended in.
    Executed(Result<ExecutionResult, CodeRunnerError>),
    /// The deletion has been tried; whether it failed is not asked.
    Cleaned,
}

/// What the caller is to do next.
pub enum Task {
    /// Ask the file system for the canonical form of `path`.
    Canonicalize { path: String },
    /// Ask the file system whether `path` exists, whether it is a directory,
    /// and how large it is.
    Stat { path: String },
    /// Run `probe` without showing its output, and see whether it ends with
    /// success.
    Locate { probe: CommandSpec },
    /// Execute `command`, as [`Executor::execute`] directs.
    Execute { command: CommandSpec },
    /// Delete `file` if it is there, and go on whether or not that worked.
    Delete { file: String },
    /// End the run with this.
    Exit(Result<(), CodeRunnerError>),
}

pub enum StageModel {
    Idle,
    Resolving { file: Seq<char> },
    Probing { info: FileInfoModel },
    Locating { ext: Seq<char>, command: CommandModel },
    Executing { ext: Seq<char> },
    Cleaning { outcome: Result<(), ErrorModel> },
    Done,
}

pub enum SignalModel {
    Begin { file: Seq<char> },
    Canonical(Option<Seq<char>>),
    Status(FileStatusModel),
    Located(bool),
    Executed(Result<ExecutionResultModel, ErrorModel>),
    Cleaned,
}

pub enum TaskModel {
    Canonicalize { path: Seq<char> },
    Stat { path: Seq<char> },
    Locate { probe: CommandModel },
    Execute { command: CommandModel },
    Delete { file: Seq<char> },
    Exit(Result<(), ErrorModel>),
}

/// The model of what a run ends in.
pub open spec fn result_view(result: Result<(), CodeRunnerError>) -> Result<(), ErrorModel> {
    match result {
        Ok(_) => Ok(()),
        Err(e) => Err(e@),
    }
}

impl View for Stage {
    type V = StageModel;

    open spec fn view(&self) -> StageModel {
        match self {
            Stage::Idle => StageModel::Idle,
            Stage::Resolving { file } => StageModel::Resolving { file: file@ },
            Stage::Probing { info } => StageModel::Probing { info: info@ },
            Stage::Locating { ext, command } => StageModel::Locating {
                ext: ext@,
                command: command@,
            },
            Stage::Executing { ext } => StageModel::Executing { ext: ext@ },
            Stage::Cleaning { outcome } => StageModel::Cleaning { outcome: result_view(*outcome) },
            Stage::Done => StageModel::Done,
        }
    }
}

impl View for Signal {
    type V = SignalModel;

    open spec fn view(&self) -> SignalModel {
        match self {
            Signal::Begin { file } => SignalModel::Begin { file: file@ },
            Signal::Canonical(path) => SignalModel::Canonical(
                match path {
                    Some(p) => Some(p@),
                    None => None,
                },
            ),
            Signal::Status(status) => SignalModel::Status(status@),
            Signal::Located(found) => SignalModel::Located(*found),
            Signal::Executed(outcome) => SignalModel::Executed(outcome_view(*outcome)),
            Signal::Cleaned => SignalModel::Cleaned,
        }
    }
}

impl View for Task {
    type V = TaskModel;

    open spec fn view(&self) -> TaskModel {
        match self {
            Task::Canonicalize { path } => TaskModel::Canonicalize { path: path@ },
            Task::Stat { path } => TaskModel::Stat { path: path@ },
            Task::Locate { probe } => TaskModel::Locate { probe: probe@ },
            Task::Execute { command } => TaskModel::Execute { command: command@ },
            Task::Delete { file } => TaskModel::Delete { file: file@ },
            Task::Exit(result) => TaskModel::Exit(result_view(*result)),
        }
    }
}

/// The model of a step that may be refused.
pub open spec fn move_view(step: Option<(Stage, Task)>) -> Option<(StageModel, TaskModel)> {
    match step {
        Some((stage, task)) => Some((stage@, task@)),
        None => None,
    }
}

/// The end of a run.
pub open spec fn exit(result: Result<(), ErrorModel>) -> Option<(StageModel, TaskModel)> {
    Some((StageModel::Done, TaskModel::Exit(result)))
}

/// What follows once the file has passed its checks: the end where no
/// command is known for its extension, else the look-up of the command's
/// program where that is configured and called for, else the execution.
pub open spec fn dispatch(config: Config, platform: Platform, info: FileInfoModel) -> Option<
    (StageModel, TaskModel),
> {
    match command_for(platform, info.ext, info.abs_path) {
        None => exit(Err(ErrorModel::UnsupportedFileType(info.ext))),
        Some(command) => if !config.check_installed {
            launch(info.ext, command)
        } else {
            match probe_for(platform, command.program) {
                Some(probe) => Some(
                    (
                        StageModel::Locating { ext: info.ext, command },
                        TaskModel::Locate { probe },
                    ),
                ),
                None => located(info.ext, command, false),
            }
        },
    }
}

/// What follows once it is known whether the program was found.
pub open spec fn located(ext: Seq<char>, command: CommandModel, found: bool) -> Option<
    (StageModel, TaskModel),
> {
    match install_failure(command.program, found) {
        Some(e) => exit(Err(e)),
        None => launch(ext, command),
    }
}

/// The step into the execution.
pub open spec fn launch(ext: Seq<char>, command: CommandModel) -> Option<
    (StageModel, TaskModel),
> {
    Some((StageModel::Executing { ext }, TaskModel::Execute { command }))
}

/// What is left of an execution's outcome at the end of the run: that it
/// went well, or why it did not.
pub open spec fn verdict(outcome: Result<ExecutionResultModel, ErrorModel>) -> Result<
    (),
    ErrorModel,
> {
    match outcome {
        Ok(_) => Ok(()),
        Err(e) => Err(e),
    }
}

/// The file that is deleted after a file with extension `ext` has been
/// executed, if any.
pub open spec fn leftover(config: Config, platform: Platform, ext: Seq<char>) -> Option<
    Seq<char>,
> {
    if config.cleanup_artifacts {
        artifact(platform, ext)
    } else {
        None
    }
}

/// The step that `signal` leads to from `stage`, under `config` on
/// `platform`; `None` where `signal` is not what `stage` waits for.
pub open spec fn advance(config: Config, platform: Platform, stage: StageModel, signal: SignalModel)
    -> Option<(StageModel, TaskModel)> {
    match (stage, signal) {
        (StageModel::Idle, SignalModel::Begin { file }) => match path_failure(platform, file) {
            Some(e) => exit(Err(e)),
            None => Some((StageModel::Resolving { file }, TaskModel::Canonicalize { path: file })),
        },
        (StageModel::Resolving { file }, SignalModel::Canonical(canonical)) => {
            let info = file_info(platform, file, canonical);
            Some((StageModel::Probing { info }, TaskModel::Stat { path: info.abs_path }))
        },
        (StageModel::Probing { info }, SignalModel::Status(status)) => match file_failure(
            config.max_file_size_mb,
            info,
            status,
        ) {
            Some(e) => exit(Err(e)),
            None => dispatch(config, platform, info),
        },
        (StageModel::Locating { ext, command }, SignalModel::Located(found)) => located(
            ext,
            command,
            found,
        ),
        (StageModel::Executing { ext }, SignalModel::Executed(outcome)) => match leftover(
            config,
            platform,
            ext,
        ) {
            Some(file) => Some(
                (StageModel::Cleaning { outcome: verdict(outcome) }, TaskModel::Delete { file }),
            ),
            None => exit(verdict(outcome)),
        },
        (StageModel::Cleaning { outcome }, SignalModel::Cleaned) => exit(outcome),
        _ => None,
    }
}

/// A command is executed only for a path that passed the checks on the
/// string, or after the file passed the checks against the file system; and
/// where the configuration asks for the look-up, only a shell or a program
/// that was found is executed.
pub proof fn lemma_executed_only_after_checks(
    config: Config,
    platform: Platform,
    stage: StageModel,
    signal: SignalModel,
)
    ensures
        advance(config, platform, stage, signal) matches Some(
            (_, TaskModel::Execute { command }),
        ) ==> {
            ||| {
                &&& stage matches StageModel::Probing { info }
                &&& signal matches SignalModel::Status(status)
                &&& file_failure(config.max_file_size_mb, info, status) is None
                &&& command_for(platform, info.ext, info.abs_path) == Some(command)
                &&& config.check_installed ==> crate::utils::is_shell(command.program)
            }
            ||| {
                &&& stage matches StageModel::Locating { command: located, .. }
                &&& located == command
                &&& signal == SignalModel::Located(true) || crate::utils::is_shell(command.program)
            }
        },
        advance(config, platform, stage, signal) matches Some(
            (_, TaskModel::Canonicalize { path }),
        ) ==> path_failure(platform, path) is None,
{
}

/// The run ends in what the execution ended in, whether or not a build
/// product is deleted first: the deletion never changes the outcome.
pub proof fn lemma_cleanup_keeps_the_outcome(
    config: Config,
    platform: Platform,
    ext: Seq<char>,
    outcome: Result<ExecutionResultModel, ErrorModel>,
)
    ensures
        ({
            let first = advance(
                config,
                platform,
                StageModel::Executing { ext },
                SignalModel::Executed(outcome),
            );
            match leftover(config, platform, ext) {
                None => first == exit(verdict(outcome)),
                Some(file) => first matches Some((cleaning, task)) && task == (TaskModel::Delete {
                    file,
                }) && advance(config, platform, cleaning, SignalModel::Cleaned) == exit(
                    verdict(outcome),
                ),
            }
        }),
{
}

/// Runs files under one configuration, for one platform.
pub struct Launcher {
    config: Config,
    platform: Platform,
}

impl Launcher {
    /// The configuration that the runs are made under.
    pub closed spec fn config(&self) -> Config {
        self.config
    }

    /// The platform that paths and commands are made for.
    pub closed spec fn platform(&self) -> Platform {
        self.platform
    }

    /// A launcher for the host.
    pub fn new(config: Config) -> (launcher: Self)
        ensures
            launcher.config() == config,
    {
        Launcher { config, platform: Platform::host() }
    }

    /// A launcher for `platform`.
    pub fn for_platform(config: Config, platform: Platform) -> (launcher: Self)
        ensures
            launcher.config() == config,
            launcher.platform() == platform,
    {
        Launcher { config, platform }
    }

    /// The step into the execution, or the end where the program is known
    /// to be missing.
    fn after_lookup(ext: String, command: CommandSpec, found: bool) -> (next: Option<
        (Stage, Task),
    >)
        ensures
            move_view(next) == located(ext@, command@, found),
    {
        match check_program_installed(command.program.as_str(), found) {
            Err(e) => Some((Stage::Done, Task::Exit(Err(e)))),
            Ok(_) => Some((Stage::Executing { ext }, Task::Execute { command })),
        }
    }

    /// What follows once the file has passed its checks.
    fn after_checks(&self, info: FileInfo) -> (next: Option<(Stage, Task)>)
        ensures
            move_view(next) == dispatch(self.config(), self.platform(), info@),
    {
        match get_command_on(self.platform, info.ext.as_str(), info.abs_path.as_str()) {
            None => Some(
                (Stage::Done, Task::Exit(Err(CodeRunnerError::UnsupportedFileType(info.ext)))),
            ),
            Some(command) => {
                if !self.config.check_installed {
                    Some((Stage::Executing { ext: info.ext }, Task::Execute { command }))
                } else {
                    match install_probe_on(self.platform, command.program.as_str()) {
                        Some(probe) => Some(
                            (Stage::Locating { ext: info.ext, command }, Task::Locate { probe }),
                        ),
                        None => Self::after_lookup(info.ext, command, false),
                    }
                }
            },
        }
    }

    /// Takes a run one step on: from `stage`, where the caller has found out
    /// `signal`, to the next stage and the task to carry out. `None` where
    /// `signal` is not what `stage` waits for.
    ///
    /// A run starts in [`Stage::Idle`] with [`Signal::Begin`] and is over
    /// with [`Task::Exit`]. The first check that fails ends it; nothing is
    /// executed then. After an execution, however it ended, the build
    /// product is deleted where the configuration asks for it, and the run
    /// ends in what the execution ended in.
    pub fn run(&self, stage: Stage, signal: Signal) -> (next: Option<(Stage, Task)>)
        ensures
            move_view(next) == advance(self.config(), self.platform(), stage@, signal@),
    {
        match (stage, signal) {
            (Stage::Idle, Signal::Begin { file }) => {
                let validator = Validator::for_platform(
                    self.config.max_file_size_mb,
                    self.platform,
                );
                match validator.validate(file.as_str()) {
                    Err(e) => Some((Stage::Done, Task::Exit(Err(e)))),
                    Ok(_) => {
                        let path = file.clone();
                        Some((Stage::Resolving { file }, Task::Canonicalize { path }))
                    },
                }
            },
            (Stage::Resolving { file }, Signal::Canonical(canonical)) => {
                let info = get_file_info_on(self.platform, file.as_str(), canonical);
                let path = info.abs_path.clone();
                Some((Stage::Probing { info }, Task::Stat { path }))
            },
            (Stage::Probing { info }, Signal::Status(status)) => {
                let validator = Validator::for_platform(
                    self.config.max_file_size_mb,
                    self.platform,
                );
                match validator.validate_file(&info, &status) {
                    Err(e) => Some((Stage::Done, Task::Exit(Err(e)))),
                    Ok(_) => self.after_checks(info),
                }
            },
            (Stage::Locating { ext, command }, Signal::Located(found)) => Self::after_lookup(
                ext,
                command,
                found,
            ),
            (Stage::Executing { ext }, Signal::Executed(outcome)) => {
                let result = match outcome {
                    Ok(_) => Ok(()),
                    Err(e) => Err(e),
                };
                let executor = Executor::for_platform(self.config, self.platform);
                match executor.cleanup(ext.as_str()) {
                    Some(file) => Some(
                        (Stage::Cleaning { outcome: result }, Task::Delete { file }),
                    ),
                    None => Some((Stage::Done, Task::Exit(result))),
                }
            },
            (Stage::Cleaning { outcome }, Signal::Cleaned) => Some(
                (Stage::Done, Task::Exit(outcome)),
            ),
            _ => None,
        }
    }
}

} // verus!
