pub mod commands;
pub mod config;
pub mod error;
pub mod executor;
pub mod launcher;
pub mod platform;
pub mod text;
pub mod utils;
pub mod validator;

pub use commands::CommandSpec;
pub use config::Config;
pub use error::CodeRunnerError;
pub use executor::Executor;
pub use launcher::Launcher;
pub use platform::Platform;
pub use utils::FileInfo;
pub use validator::Validator;
