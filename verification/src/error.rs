//! The failures that running a source file can end in, and how each one reads.
use vstd::prelude::*;
use crate::text::{decimal, push_decimal};

verus! {

/// Why a file could not be run.
#[derive(Debug)]
pub enum CodeRunnerError {
    /// Nothing exists at the path.
    FileNotFound(String),
    /// The path, as a string, is malformed or unsafe; the text says why.
    InvalidPath(String),
    /// No command is known for this extension.
    UnsupportedFileType(String),
    /// The path names a directory.
    IsDirectory(String),
    /// The file's size in whole megabytes, and the most that is allowed.
    FileTooLarge(u64, u64),
    /// The program that would run the file was not found on the search path.
    ProgramNotInstalled(String),
    /// The command could not be started, or ended without success.
    ExecutionFailed(String),
    /// The command ran longer than this many seconds and was killed.
    Timeout(u64),
    /// The operating system reported a failure; the text is its report.
    IoError(String),
    /// The configuration could not be written down.
    ConfigError(String),
}

/// A [`CodeRunnerError`] with its texts as sequences of characters.
pub enum ErrorModel {
    FileNotFound(Seq<char>),
    InvalidPath(Seq<char>),
    UnsupportedFileType(Seq<char>),
    IsDirectory(Seq<char>),
    FileTooLarge(u64, u64),
    ProgramNotInstalled(Seq<char>),
    ExecutionFailed(Seq<char>),
    Timeout(u64),
    IoError(Seq<char>),
    ConfigError(Seq<char>),
}

impl View for CodeRunnerError {
    type V = ErrorModel;

    open spec fn view(&self) -> ErrorModel {
        match self {
            CodeRunnerError::FileNotFound(path) => ErrorModel::FileNotFound(path@),
            CodeRunnerError::InvalidPath(reason) => ErrorModel::InvalidPath(reason@),
            CodeRunnerError::UnsupportedFileType(ext) => ErrorModel::UnsupportedFileType(ext@),
            CodeRunnerError::IsDirectory(path) => ErrorModel::IsDirectory(path@),
            CodeRunnerError::FileTooLarge(size, max) => ErrorModel::FileTooLarge(*size, *max),
            CodeRunnerError::ProgramNotInstalled(program) => ErrorModel::ProgramNotInstalled(
                program@,
            ),
            CodeRunnerError::ExecutionFailed(detail) => ErrorModel::ExecutionFailed(detail@),
            CodeRunnerError::Timeout(seconds) => ErrorModel::Timeout(*seconds),
            CodeRunnerError::IoError(report) => ErrorModel::IoError(report@),
            CodeRunnerError::ConfigError(reason) => ErrorModel::ConfigError(reason@),
        }
    }
}

impl ErrorModel {
    /// The line that tells a user of this failure.
    pub open spec fn message(self) -> Seq<char> {
        match self {
            ErrorModel::FileNotFound(path) => "File not found: "@ + path,
            ErrorModel::InvalidPath(reason) => "Invalid file path: "@ + reason,
            ErrorModel::UnsupportedFileType(ext) => "Unsupported file type: ."@ + ext,
            ErrorModel::IsDirectory(path) => "File is a directory: "@ + path,
            ErrorModel::FileTooLarge(size, max) => "File is too large: "@ + decimal(size as nat)
                + " MB (max: "@ + decimal(max as nat) + " MB)"@,
            ErrorModel::ProgramNotInstalled(program) => "Program not installed: "@ + program,
            ErrorModel::ExecutionFailed(detail) => "Execution failed: "@ + detail,
            ErrorModel::Timeout(seconds) => "Timeout: Command exceeded "@ + decimal(
                seconds as nat,
            ) + " seconds"@,
            ErrorModel::IoError(report) => "IO error: "@ + report,
            ErrorModel::ConfigError(reason) => "Configuration error: "@ + reason,
        }
    }
}

/// What a check failed with, if it failed.
pub open spec fn failure(res: Result<(), CodeRunnerError>) -> Option<ErrorModel> {
    match res {
        Ok(_) => None,
        Err(e) => Some(e@),
    }
}

/// `prefix` followed by `rest`.
fn prefixed(prefix: &str, rest: &String) -> (text: String)
    ensures
        text@ == prefix@ + rest@,
{
    let mut text = String::from_str(prefix);
    text.append(rest.as_str());
    text
}

impl CodeRunnerError {
    /// The line that tells a user of this failure.
    pub fn to_string(&self) -> (text: String)
        ensures
            text@ == self@.message(),
    {
        match self {
            CodeRunnerError::FileNotFound(path) => prefixed("File not found: ", path),
            CodeRunnerError::InvalidPath(reason) => prefixed("Invalid file path: ", reason),
            CodeRunnerError::UnsupportedFileType(ext) => prefixed("Unsupported file type: .", ext),
            CodeRunnerError::IsDirectory(path) => prefixed("File is a directory: ", path),
            CodeRunnerError::FileTooLarge(size, max) => {
                let mut text = String::from_str("File is too large: ");
                push_decimal(&mut text, *size);
                text.append(" MB (max: ");
                push_decimal(&mut text, *max);
                text.append(" MB)");
                text
            },
            CodeRunnerError::ProgramNotInstalled(program) => prefixed(
                "Program not installed: ",
                program,
            ),
            CodeRunnerError::ExecutionFailed(detail) => prefixed("Execution failed: ", detail),
            CodeRunnerError::Timeout(seconds) => {
                let mut text = String::from_str("Timeout: Command exceeded ");
                push_decimal(&mut text, *seconds);
                text.append(" seconds");
                text
            },
            CodeRunnerError::IoError(report) => prefixed("IO error: ", report),
            CodeRunnerError::ConfigError(reason) => prefixed("Configuration error: ", reason),
        }
    }
}

} // verus!
