//! The rules of the command-line tool: what must be in the project
//! directory, which arguments each container command gets, and how the
//! outcome of a command is reported. Running the commands and looking at the
//! file system is left to the caller.

pub mod config;
pub mod docker;
pub mod error;

pub use self::config::{Config, EnvFileAction};
pub use self::docker::{DockerClient, RunOutcome};
pub use self::error::CliError;
