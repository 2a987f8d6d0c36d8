//! The checks a path passes before the file it names is run: first as a
//! string, then against what the file system says of it.
use vstd::prelude::*;
use crate::error::{failure, CodeRunnerError, ErrorModel};
use crate::platform::{final_segment, final_segment_of, Platform};
use crate::text::{
    chars_of, find_last, has_char, is_text, lemma_last_index_of, lowered, string_of,
    string_of_range, to_lower, trim, trimmed,
};
use crate::utils::{stem, FileInfo, FileInfoModel};

verus! {

/// The longest path that is accepted, in characters.
pub const MAX_PATH_CHARS: usize = 4096;

/// The bytes of one megabyte.
pub const BYTES_PER_MB: u64 = 1048576;

/// What the file system says of a path.
pub struct FileStatus {
    /// Whether anything exists at the path.
    pub exists: bool,
    /// Whether the path names a directory.
    pub is_dir: bool,
    /// The size of the file in bytes, or the report of the failure to read
    /// it.
    pub size: Result<u64, String>,
}

/// A [`FileStatus`] with its text as a sequence of characters.
pub struct FileStatusModel {
    pub exists: bool,
    pub is_dir: bool,
    pub size: Result<u64, Seq<char>>,
}

impl View for FileStatus {
    type V = FileStatusModel;

    open spec fn view(&self) -> FileStatusModel {
        FileStatusModel {
            exists: self.exists,
            is_dir: self.is_dir,
            size: match self.size {
                Ok(bytes) => Ok(bytes),
                Err(report) => Err(report@),
            },
        }
    }
}

/// Whether `name` is one of the device names that Windows reserves.
pub open spec fn is_device_name(name: Seq<char>) -> bool {
    ||| name == "con"@
    ||| name == "prn"@
    ||| name == "aux"@
    ||| name == "nul"@
    ||| name == "com1"@
    ||| name == "com2"@
    ||| name == "com3"@
    ||| name == "com4"@
    ||| name == "com5"@
    ||| name == "com6"@
    ||| name == "com7"@
    ||| name == "com8"@
    ||| name == "com9"@
    ||| name == "lpt1"@
    ||| name == "lpt2"@
    ||| name == "lpt3"@
    ||| name == "lpt4"@
    ||| name == "lpt5"@
    ||| name == "lpt6"@
    ||| name == "lpt7"@
    ||| name == "lpt8"@
    ||| name == "lpt9"@
}

/// The reserved device name that the final component of `path` stands for
/// on `platform`, if it stands for one: the component without its extension,
/// in lower case. Only Windows reserves any.
pub open spec fn reserved_name(platform: Platform, path: Seq<char>) -> Option<Seq<char>> {
    let name = lowered(stem(final_segment(platform, path)));
    if platform == Platform::Windows && is_device_name(name) {
        Some(name)
    } else {
        None
    }
}

/// Why the final component of `path` cannot be used on `platform`, if so.
pub open spec fn reserved_failure(platform: Platform, path: Seq<char>) -> Option<ErrorModel> {
    match reserved_name(platform, path) {
        Some(name) => Some(
            ErrorModel::InvalidPath("'"@ + name + "' is a reserved filename on Windows"@),
        ),
        None => None,
    }
}

/// Why the string `path` is refused as a path on `platform`, if it is. The
/// checks are made on the path without the whitespace around it, in this
/// order, and the first that fails decides.
pub open spec fn path_failure(platform: Platform, path: Seq<char>) -> Option<ErrorModel> {
    let t = trimmed(path);
    if t.len() == 0 {
        Some(ErrorModel::InvalidPath("File path cannot be empty"@))
    } else if t == "."@ || t == ".."@ {
        Some(ErrorModel::InvalidPath("Cannot run directories"@))
    } else if t[0] == '-' {
        Some(ErrorModel::InvalidPath("Path '"@ + t + "' looks like a command flag"@))
    } else if t.contains('\0') {
        Some(ErrorModel::InvalidPath("Path contains null bytes"@))
    } else if t.len() > MAX_PATH_CHARS {
        Some(ErrorModel::InvalidPath("Path is too long (max 4096 characters)"@))
    } else {
        reserved_failure(platform, t)
    }
}

/// Why the file that `info` describes is not run, if so, where `status` is
/// what the file system says of `info.abs_path` and `max_mb` the largest
/// size that is run. The checks are made in this order, and the first that
/// fails decides.
pub open spec fn file_failure(max_mb: u64, info: FileInfoModel, status: FileStatusModel) -> Option<
    ErrorModel,
> {
    if !status.exists {
        Some(ErrorModel::FileNotFound(info.abs_path))
    } else if status.is_dir {
        Some(ErrorModel::IsDirectory(info.abs_path))
    } else if info.ext.len() == 0 {
        Some(ErrorModel::UnsupportedFileType(Seq::empty()))
    } else {
        match status.size {
            Err(report) => Some(ErrorModel::IoError(report)),
            Ok(bytes) => if bytes / BYTES_PER_MB > max_mb {
                Some(ErrorModel::FileTooLarge(bytes / BYTES_PER_MB, max_mb))
            } else {
                None
            },
        }
    }
}

/// Checks paths for one platform and one size limit.
pub struct Validator {
    max_file_size_mb: u64,
    platform: Platform,
}

/// Whether `name` is one of the device names that Windows reserves.
fn device_name(name: &Vec<char>) -> (reserved: bool)
    ensures
        reserved == is_device_name(name@),
{
    is_text(name, "con") || is_text(name, "prn") || is_text(name, "aux") || is_text(name, "nul")
        || is_text(name, "com1") || is_text(name, "com2") || is_text(name, "com3") || is_text(
        name,
        "com4",
    ) || is_text(name, "com5") || is_text(name, "com6") || is_text(name, "com7") || is_text(
        name,
        "com8",
    ) || is_text(name, "com9") || is_text(name, "lpt1") || is_text(name, "lpt2") || is_text(
        name,
        "lpt3",
    ) || is_text(name, "lpt4") || is_text(name, "lpt5") || is_text(name, "lpt6") || is_text(
        name,
        "lpt7",
    ) || is_text(name, "lpt8") || is_text(name, "lpt9")
}

impl Validator {
    /// The largest file that passes, in whole megabytes.
    pub closed spec fn max_file_size_mb(&self) -> u64 {
        self.max_file_size_mb
    }

    /// The platform whose rules for file names apply.
    pub closed spec fn platform(&self) -> Platform {
        self.platform
    }

    /// A validator for the host.
    pub fn new(max_file_size_mb: u64) -> (validator: Self)
        ensures
            validator.max_file_size_mb() == max_file_size_mb,
    {
        Validator { max_file_size_mb, platform: Platform::host() }
    }

    /// A validator for `platform`.
    pub fn for_platform(max_file_size_mb: u64, platform: Platform) -> (validator: Self)
        ensures
            validator.max_file_size_mb() == max_file_size_mb,
            validator.platform() == platform,
    {
        Validator { max_file_size_mb, platform }
    }

    /// Accepts `file_path` as a string, before the file system is asked
    /// anything: it must not be blank, `.` or `..`, look like a flag, hold a
    /// NUL character, be longer than 4096 characters, or name a reserved
    /// device.
    pub fn validate(&self, file_path: &str) -> (res: Result<(), CodeRunnerError>)
        ensures
            failure(res) == path_failure(self.platform(), file_path@),
    {
        let t = trim(file_path);
        if t.len() == 0 {
            return Err(CodeRunnerError::InvalidPath(String::from_str("File path cannot be empty")));
        }
        if is_text(&t, ".") || is_text(&t, "..") {
            return Err(CodeRunnerError::InvalidPath(String::from_str("Cannot run directories")));
        }
        if t[0] == '-' {
            let mut reason = String::from_str("Path '");
            reason.append(string_of(&t).as_str());
            reason.append("' looks like a command flag");
            return Err(CodeRunnerError::InvalidPath(reason));
        }
        if has_char(&t, '\0') {
            return Err(CodeRunnerError::InvalidPath(String::from_str("Path contains null bytes")));
        }
        if t.len() > MAX_PATH_CHARS {
            return Err(
                CodeRunnerError::InvalidPath(
                    String::from_str("Path is too long (max 4096 characters)"),
                ),
            );
        }
        self.validate_windows_reserved(string_of(&t).as_str())
    }

    /// Accepts the file that `file_info` describes, where `status` is what
    /// the file system says of `file_info.abs_path`: the file must exist, be
    /// no directory, have an extension, and be no larger than the limit.
    pub fn validate_file(&self, file_info: &FileInfo, status: &FileStatus) -> (res: Result<
        (),
        CodeRunnerError,
    >)
        ensures
            failure(res) == file_failure(self.max_file_size_mb(), file_info@, status@),
    {
        if !status.exists {
            return Err(CodeRunnerError::FileNotFound(file_info.abs_path.clone()));
        }
        if status.is_dir {
            return Err(CodeRunnerError::IsDirectory(file_info.abs_path.clone()));
        }
        if chars_of(file_info.ext.as_str()).len() == 0 {
            return Err(CodeRunnerError::UnsupportedFileType(String::new()));
        }
        match &status.size {
            Err(report) => Err(CodeRunnerError::IoError(report.clone())),
            Ok(bytes) => {
                let file_size_mb = *bytes / BYTES_PER_MB;
                if file_size_mb > self.max_file_size_mb {
                    Err(CodeRunnerError::FileTooLarge(file_size_mb, self.max_file_size_mb))
                } else {
                    Ok(())
                }
            },
        }
    }

    /// Refuses a path whose final component stands for a device on Windows:
    /// `con`, `prn`, `aux`, `nul`, `com1` to `com9` or `lpt1` to `lpt9`, in
    /// any case, alone or with an extension. On other platforms every path
    /// passes.
    pub fn validate_windows_reserved(&self, path: &str) -> (res: Result<(), CodeRunnerError>)
        ensures
            failure(res) == reserved_failure(self.platform(), path@),
    {
        match self.platform {
            Platform::Posix => Ok(()),
            Platform::Windows => {
                let name = final_segment_of(self.platform, path);
                let end = match find_last(&name, '.') {
                    Some(dot) => dot,
                    None => name.len(),
                };
                proof {
                    lemma_last_index_of(name@, '.');
                    assert(name@.take(name.len() as int) == name@);
                    assert(name@.subrange(0, end as int) == name@.take(end as int));
                }
                let part = chars_of(to_lower(string_of_range(&name, 0, end).as_str()).as_str());
                if device_name(&part) {
                    let mut reason = String::from_str("'");
                    reason.append(string_of(&part).as_str());
                    reason.append("' is a reserved filename on Windows");
                    Err(CodeRunnerError::InvalidPath(reason))
                } else {
                    Ok(())
                }
            },
        }
    }
}

} // verus!
