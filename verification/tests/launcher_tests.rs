use code_runner::executor::ExecutionResult;
use code_runner::launcher::{Signal, Stage, Task};
use code_runner::validator::FileStatus;
use code_runner::{CodeRunnerError, CommandSpec, Config, FileInfo, Launcher, Platform};

fn config() -> Config {
    Config::default()
}

fn posix(config: Config) -> Launcher {
    Launcher::for_platform(config, Platform::Posix)
}

fn begin(file: &str) -> Signal {
    Signal::Begin {
        file: file.to_string(),
    }
}

fn file_of(bytes: u64) -> FileStatus {
    FileStatus {
        exists: true,
        is_dir: false,
        size: Ok(bytes),
    }
}

fn missing() -> FileStatus {
    FileStatus {
        exists: false,
        is_dir: false,
        size: Err("No such file or directory (os error 2)".to_string()),
    }
}

fn ended(step: Option<(Stage, Task)>) -> Result<(), CodeRunnerError> {
    match step {
        Some((Stage::Done, Task::Exit(result))) => result,
        _ => panic!("expected the end of the run"),
    }
}

fn success() -> Result<ExecutionResult, CodeRunnerError> {
    Ok(ExecutionResult {
        stdout: "Hello, World!\n".to_string(),
        stderr: String::new(),
        exit_code: 0,
        success: true,
    })
}

/// Drives a run with the answers given, and returns what it ends in, the
/// command that was executed, and the file that was deleted.
fn drive(
    launcher: &Launcher,
    file: &str,
    canonical: Option<&str>,
    status: FileStatus,
    found: bool,
    outcome: Result<ExecutionResult, CodeRunnerError>,
) -> (
    Result<(), CodeRunnerError>,
    Option<CommandSpec>,
    Option<String>,
) {
    let mut status = Some(status);
    let mut outcome = Some(outcome);
    let mut executed = None;
    let mut deleted = None;
    let mut stage = Stage::Idle;
    let mut signal = begin(file);
    loop {
        let (next, task) = launcher.run(stage, signal).unwrap();
        stage = next;
        signal = match task {
            Task::Canonicalize { path } => {
                assert_eq!(path, file);
                Signal::Canonical(canonical.map(|c| c.to_string()))
            }
            Task::Stat { path } => {
                assert_eq!(path, canonical.unwrap_or(file));
                Signal::Status(status.take().unwrap())
            }
            Task::Locate { probe } => {
                assert_eq!(probe.program, "which");
                Signal::Located(found)
            }
            Task::Execute { command } => {
                executed = Some(command);
                Signal::Executed(outcome.take().unwrap())
            }
            Task::Delete { file } => {
                deleted = Some(file);
                Signal::Cleaned
            }
            Task::Exit(result) => return (result, executed, deleted),
        };
    }
}

#[test]
fn a_python_file_runs() {
    let (result, executed, deleted) = drive(
        &posix(config()),
        "test.py",
        Some("/tmp/x/test.py"),
        file_of(22),
        true,
        success(),
    );
    assert!(result.is_ok());
    let command = executed.unwrap();
    assert_eq!(command.program, "python");
    assert_eq!(command.args, vec!["/tmp/x/test.py".to_string()]);
    assert_eq!(deleted, None);
}

#[test]
fn a_javascript_file_runs() {
    let (result, executed, _) = drive(
        &posix(config()),
        "test.js",
        Some("/tmp/x/test.js"),
        file_of(26),
        true,
        success(),
    );
    assert!(result.is_ok());
    let command = executed.unwrap();
    assert_eq!(command.program, "node");
    assert_eq!(command.args, vec!["/tmp/x/test.js".to_string()]);
}

#[test]
fn a_path_with_a_space_runs() {
    let (result, executed, _) = drive(
        &posix(config()),
        "hello world.py",
        Some("/tmp/x/hello world.py"),
        file_of(21),
        true,
        success(),
    );
    assert!(result.is_ok());
    assert_eq!(
        executed.unwrap().args,
        vec!["/tmp/x/hello world.py".to_string()]
    );
}

#[test]
fn a_missing_file_is_not_found() {
    let (result, executed, deleted) = drive(
        &posix(config()),
        "nonexistent.py",
        None,
        missing(),
        true,
        success(),
    );
    let error = result.unwrap_err();
    assert!(matches!(error, CodeRunnerError::FileNotFound(_)));
    assert_eq!(error.to_string(), "File not found: nonexistent.py");
    assert!(error.to_string().contains("File not found"));
    assert!(executed.is_none());
    assert!(deleted.is_none());
}

#[test]
fn an_unknown_extension_is_unsupported() {
    let (result, executed, _) = drive(
        &posix(config()),
        "test.xyz",
        Some("/tmp/x/test.xyz"),
        file_of(12),
        true,
        success(),
    );
    let error = result.unwrap_err();
    assert!(matches!(error, CodeRunnerError::UnsupportedFileType(_)));
    assert_eq!(error.to_string(), "Unsupported file type: .xyz");
    assert!(executed.is_none());
}

#[test]
fn an_invalid_path_ends_the_run_at_once() {
    let launcher = posix(config());
    for file in ["", "   ", ".", "..", "-help", "a\0.py"] {
        let error = ended(launcher.run(Stage::Idle, begin(file))).unwrap_err();
        assert!(matches!(error, CodeRunnerError::InvalidPath(_)));
    }
    let windows = Launcher::for_platform(config(), Platform::Windows);
    assert!(ended(windows.run(Stage::Idle, begin("CON.py"))).is_err());
    assert!(matches!(
        launcher.run(Stage::Idle, begin("CON.py")),
        Some((Stage::Resolving { .. }, Task::Canonicalize { .. }))
    ));
}

#[test]
fn a_program_that_is_missing_is_not_executed() {
    let (result, executed, deleted) = drive(
        &posix(config()),
        "a.rb",
        Some("/tmp/a.rb"),
        file_of(1),
        false,
        success(),
    );
    match result {
        Err(CodeRunnerError::ProgramNotInstalled(program)) => assert_eq!(program, "ruby"),
        _ => panic!("expected ProgramNotInstalled"),
    }
    assert!(executed.is_none());
    assert!(deleted.is_none());
}

#[test]
fn the_look_up_can_be_switched_off() {
    let mut c = config();
    c.check_installed = false;
    let launcher = posix(c);
    let info = FileInfo {
        ext: "rb".to_string(),
        abs_path: "/tmp/a.rb".to_string(),
    };
    match launcher.run(Stage::Probing { info }, Signal::Status(file_of(1))) {
        Some((Stage::Executing { ext }, Task::Execute { command })) => {
            assert_eq!(ext, "rb");
            assert_eq!(command.program, "ruby");
        }
        _ => panic!("expected the execution"),
    }
}

#[test]
fn shells_are_executed_without_a_look_up() {
    let launcher = posix(config());
    let info = FileInfo {
        ext: "rs".to_string(),
        abs_path: "/tmp/a.rs".to_string(),
    };
    match launcher.run(Stage::Probing { info }, Signal::Status(file_of(1))) {
        Some((Stage::Executing { ext }, Task::Execute { command })) => {
            assert_eq!(ext, "rs");
            assert_eq!(command.program, "sh");
            assert_eq!(
                command.args,
                vec![
                    "-c".to_string(),
                    "rustc '/tmp/a.rs' -o main && ./main".to_string()
                ]
            );
        }
        _ => panic!("expected the execution"),
    }
}

#[test]
fn the_build_product_is_deleted_after_success_and_after_failure() {
    let (result, _, deleted) = drive(
        &posix(config()),
        "a.rs",
        Some("/tmp/a.rs"),
        file_of(1),
        true,
        success(),
    );
    assert!(result.is_ok());
    assert_eq!(deleted, Some("main".to_string()));

    let failure = Err(CodeRunnerError::ExecutionFailed(
        "Command exited with code: 1".to_string(),
    ));
    let (result, _, deleted) = drive(
        &posix(config()),
        "a.c",
        Some("/tmp/a.c"),
        file_of(1),
        true,
        failure,
    );
    match result {
        Err(CodeRunnerError::ExecutionFailed(detail)) => {
            assert_eq!(detail, "Command exited with code: 1")
        }
        _ => panic!("expected ExecutionFailed"),
    }
    assert_eq!(deleted, Some("main".to_string()));

    let (result, _, deleted) = drive(
        &Launcher::for_platform(config(), Platform::Posix),
        "a.nim",
        Some("/tmp/a.nim"),
        file_of(1),
        true,
        Err(CodeRunnerError::Timeout(30)),
    );
    assert!(matches!(result, Err(CodeRunnerError::Timeout(30))));
    assert_eq!(deleted, Some("main".to_string()));
}

#[test]
fn nothing_is_deleted_where_the_configuration_says_so() {
    let mut c = config();
    c.cleanup_artifacts = false;
    let (result, executed, deleted) = drive(
        &posix(c),
        "a.rs",
        Some("/tmp/a.rs"),
        file_of(1),
        true,
        success(),
    );
    assert!(result.is_ok());
    assert!(executed.is_some());
    assert_eq!(deleted, None);
}

#[test]
fn a_large_file_is_not_run() {
    let (result, executed, _) = drive(
        &posix(config()),
        "big.py",
        Some("/tmp/big.py"),
        file_of(101 * 1024 * 1024),
        true,
        success(),
    );
    assert!(matches!(result, Err(CodeRunnerError::FileTooLarge(101, 100))));
    assert!(executed.is_none());
}

#[test]
fn a_directory_is_not_run() {
    let status = FileStatus {
        exists: true,
        is_dir: true,
        size: Ok(4096),
    };
    let (result, executed, _) = drive(
        &posix(config()),
        "src.d",
        Some("/tmp/src.d"),
        status,
        true,
        success(),
    );
    assert!(matches!(result, Err(CodeRunnerError::IsDirectory(_))));
    assert!(executed.is_none());
}

#[test]
fn signals_out_of_turn_are_refused() {
    let launcher = posix(config());
    assert!(launcher.run(Stage::Idle, Signal::Cleaned).is_none());
    assert!(launcher.run(Stage::Idle, Signal::Located(true)).is_none());
    assert!(launcher.run(Stage::Done, begin("a.py")).is_none());
    assert!(launcher
        .run(
            Stage::Resolving {
                file: "a.py".to_string()
            },
            Signal::Status(file_of(1))
        )
        .is_none());
    assert!(launcher
        .run(
            Stage::Executing {
                ext: "py".to_string()
            },
            Signal::Cleaned
        )
        .is_none());
    assert!(launcher
        .run(Stage::Cleaning { outcome: Ok(()) }, Signal::Executed(success()))
        .is_none());
}

#[test]
fn host_launcher_runs_a_script() {
    let launcher = Launcher::new(config());
    let file = if Platform::host() == Platform::Windows {
        "C:\\x\\a.py"
    } else {
        "/x/a.py"
    };
    match launcher.run(Stage::Idle, begin(file)) {
        Some((Stage::Resolving { file: kept }, Task::Canonicalize { path })) => {
            assert_eq!(kept, file);
            assert_eq!(path, file);
        }
        _ => panic!("expected the resolution"),
    }
}
