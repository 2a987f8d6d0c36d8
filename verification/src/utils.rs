//! What a path says of the file it names, and whether a program has to be
//! looked up before it is started.
use vstd::prelude::*;
use crate::commands::{CommandModel, CommandSpec};
use crate::error::{failure, CodeRunnerError, ErrorModel};
use crate::platform::{final_segment, final_segment_of, Platform};
use crate::text::{
    chars_of, find_last, is_text, last_index_of, lemma_last_index_of, lowered, string_of_range,
    to_lower,
};

verus! {

/// What is known of a file from its path alone.
pub struct FileInfo {
    /// The extension, in lower case and without its dot; empty where the
    /// file name has none.
    pub ext: String,
    /// The path in its canonical form, or as it was given where it has none.
    pub abs_path: String,
}

/// A [`FileInfo`] with its texts as sequences of characters.
pub struct FileInfoModel {
    pub ext: Seq<char>,
    pub abs_path: Seq<char>,
}

impl View for FileInfo {
    type V = FileInfoModel;

    open spec fn view(&self) -> FileInfoModel {
        FileInfoModel { ext: self.ext@, abs_path: self.abs_path@ }
    }
}

/// What follows the last dot of a file name; empty where it has no dot.
pub open spec fn extension(name: Seq<char>) -> Seq<char> {
    let dot = last_index_of(name, '.');
    if dot < 0 {
        Seq::empty()
    } else {
        name.skip(dot + 1)
    }
}

/// What precedes the last dot of a file name; the whole name where it has no
/// dot.
pub open spec fn stem(name: Seq<char>) -> Seq<char> {
    let dot = last_index_of(name, '.');
    if dot < 0 {
        name
    } else {
        name.take(dot)
    }
}

/// A file name with a dot is its stem, the dot and its extension; one
/// without a dot is its stem alone. Either way the extension holds no dot.
pub proof fn lemma_stem_and_extension(name: Seq<char>)
    ensures
        name.contains('.') ==> name == stem(name) + seq!['.'] + extension(name),
        !name.contains('.') ==> name == stem(name) && extension(name).len() == 0,
        !extension(name).contains('.'),
{
    lemma_last_index_of(name, '.');
    let dot = last_index_of(name, '.');
    if dot >= 0 {
        assert(name == name.take(dot) + seq!['.'] + name.skip(dot + 1));
        assert forall|j: int| 0 <= j < extension(name).len() implies extension(name)[j]
            != '.' by {
            assert(extension(name)[j] == name[dot + 1 + j]);
        }
    } else {
        assert(!name.contains('.'));
    }
}

/// A canonical path as it is handed on: on Windows without the prefix `\\?\`
/// of the extended-length form, elsewhere unchanged.
pub open spec fn normalized(platform: Platform, path: Seq<char>) -> Seq<char> {
    if platform == Platform::Windows && "\\\\?\\"@.is_prefix_of(path) {
        path.skip(4)
    } else {
        path
    }
}

/// What is known of the file that `file` names, where `canonical` is the
/// canonical form of `file`, if it has one.
///
/// The extension is read from `file` as it was given: it is the lower-case
/// form of what follows the last dot of the final component, and empty
/// where that component has no dot or ends with one.
pub open spec fn file_info(
    platform: Platform,
    file: Seq<char>,
    canonical: Option<Seq<char>>,
) -> FileInfoModel {
    FileInfoModel {
        ext: lowered(extension(final_segment(platform, file))),
        abs_path: match canonical {
            Some(path) => normalized(platform, path),
            None => file,
        },
    }
}

/// The canonical path `path` as it is handed on.
pub fn normalize_path(platform: Platform, path: String) -> (plain: String)
    ensures
        plain@ == normalized(platform, path@),
{
    proof {
        reveal_strlit("\\\\?\\");
    }
    match platform {
        Platform::Windows => {
            let v = chars_of(path.as_str());
            if v.len() >= 4 && v[0] == '\\' && v[1] == '\\' && v[2] == '?' && v[3] == '\\' {
                assert(v@.subrange(4, v.len() as int) == v@.skip(4));
                assert("\\\\?\\"@ =~= v@.subrange(0, 4));
                string_of_range(&v, 4, v.len())
            } else {
                assert(!"\\\\?\\"@.is_prefix_of(v@)) by {
                    if "\\\\?\\"@.is_prefix_of(v@) {
                        let head = v@.subrange(0, 4);
                        assert(head[0] == v@[0] && head[1] == v@[1] && head[2] == v@[2] && head[3]
                            == v@[3]);
                    }
                }
                path
            }
        },
        Platform::Posix => path,
    }
}

/// What is known of the file that `file` names on `platform`, where
/// `canonical` is the canonical form of `file`, or `None` where the file
/// system could not give one.
pub fn get_file_info_on(platform: Platform, file: &str, canonical: Option<String>) -> (info:
    FileInfo)
    ensures
        info@ == file_info(
            platform,
            file@,
            match canonical {
                Some(path) => Some(path@),
                None => None,
            },
        ),
{
    let name = final_segment_of(platform, file);
    let raw = match find_last(&name, '.') {
        Some(dot) => {
            proof {
                lemma_last_index_of(name@, '.');
                assert(name@.subrange(dot + 1, name.len() as int) == name@.skip(dot + 1));
            }
            string_of_range(&name, dot + 1, name.len())
        },
        None => String::new(),
    };
    let ext = to_lower(raw.as_str());
    let abs_path = match canonical {
        Some(path) => normalize_path(platform, path),
        None => String::from_str(file),
    };
    FileInfo { ext, abs_path }
}

/// What is known of the file that `file` names on the host, where
/// `canonical` is the canonical form of `file`, or `None` where the file
/// system could not give one.
///
/// Which platform the host is shows only at run time, so the contract says
/// what holds on either; [`get_file_info_on`] is exact.
pub fn get_file_info(file: &str, canonical: Option<String>) -> (info: FileInfo)
    ensures
        ({
            let canonical_text = match canonical {
                Some(path) => Some(path@),
                None => None,
            };
            info@ == file_info(Platform::Windows, file@, canonical_text) || info@ == file_info(
                Platform::Posix,
                file@,
                canonical_text,
            )
        }),
        canonical is None ==> info@.abs_path == file@,
{
    get_file_info_on(Platform::host(), file, canonical)
}

/// Whether `program` is one of the two shells. A shell is handed a command
/// line, and the program that matters stands in that line.
pub open spec fn is_shell(program: Seq<char>) -> bool {
    program == "cmd"@ || program == "sh"@
}

/// The command that finds out whether `program` is installed, or `None`
/// where no look-up is made: for a shell, and for an empty name.
pub open spec fn probe_for(platform: Platform, program: Seq<char>) -> Option<CommandModel> {
    if is_shell(program) || program.len() == 0 {
        None
    } else {
        Some(CommandModel { program: platform.locator(), args: seq![program] })
    }
}

/// Why `program` cannot be started, if so, where `located` says whether the
/// look-up found it.
pub open spec fn install_failure(program: Seq<char>, located: bool) -> Option<ErrorModel> {
    if is_shell(program) {
        None
    } else if program.len() == 0 {
        Some(ErrorModel::InvalidPath("Program name cannot be empty"@))
    } else if located {
        None
    } else {
        Some(ErrorModel::ProgramNotInstalled(program))
    }
}

/// The command that finds out on `platform` whether `program` is installed:
/// it ends with success if and only if it is. `None` where no look-up is
/// made.
pub fn install_probe_on(platform: Platform, program: &str) -> (probe: Option<CommandSpec>)
    ensures
        crate::commands::command_view(probe) == probe_for(platform, program@),
{
    let name = chars_of(program);
    if is_text(&name, "cmd") || is_text(&name, "sh") || name.len() == 0 {
        None
    } else {
        let mut args: Vec<String> = Vec::new();
        args.push(String::from_str(program));
        let probe = CommandSpec::new(String::from_str(platform.locator_program()), args);
        assert(probe@.args == seq![program@]);
        Some(probe)
    }
}

/// The command that finds out on the host whether `program` is installed,
/// or `None` where no look-up is made.
pub fn install_probe(program: &str) -> (probe: Option<CommandSpec>)
    ensures
        probe is Some <==> !is_shell(program@) && program@.len() > 0,
        crate::commands::command_view(probe) == probe_for(Platform::Windows, program@)
            || crate::commands::command_view(probe) == probe_for(Platform::Posix, program@),
{
    install_probe_on(Platform::host(), program)
}

/// Accepts `program` where it can be started: a shell always, any other
/// program where the look-up found it. `located` is the outcome of the
/// command that [`install_probe`] gives; for a shell it is not looked at.
pub fn check_program_installed(program: &str, located: bool) -> (res: Result<
    (),
    CodeRunnerError,
>)
    ensures
        failure(res) == install_failure(program@, located),
{
    let name = chars_of(program);
    if is_text(&name, "cmd") || is_text(&name, "sh") {
        Ok(())
    } else if name.len() == 0 {
        Err(CodeRunnerError::InvalidPath(String::from_str("Program name cannot be empty")))
    } else if located {
        Ok(())
    } else {
        Err(CodeRunnerError::ProgramNotInstalled(String::from_str(program)))
    }
}

} // verus!
