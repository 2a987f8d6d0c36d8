//! The settings of one run.
use vstd::prelude::*;

verus! {

/// The settings of one run. They are read once, before anything else, and
/// do not change afterwards.
#[derive(Clone, Copy, Debug)]
pub struct Config {
    /// How many seconds a command may run.
    pub timeout: u64,
    /// The largest file that is run, in whole megabytes.
    pub max_file_size_mb: u64,
    /// Whether the program that a compiler leaves behind is deleted.
    pub cleanup_artifacts: bool,
    /// Whether the command and its output are kept off the screen.
    pub silent_mode: bool,
    /// Whether the program is looked up before it is started.
    pub check_installed: bool,
}

impl Default for Config {
    fn default() -> (config: Self)
        ensures
            config.timeout == 30,
            config.max_file_size_mb == 100,
            config.cleanup_artifacts,
            !config.silent_mode,
            config.check_installed,
    {
        Config {
            timeout: 30,
            max_file_size_mb: 100,
            cleanup_artifacts: true,
            silent_mode: false,
            check_installed: true,
        }
    }
}

} // verus!
