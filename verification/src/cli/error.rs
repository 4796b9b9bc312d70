//! The failures of the command-line tool.

use vstd::prelude::*;
use vstd::string::StringExecFns;

verus! {

/// Why a command of the tool failed.
#[derive(Debug, Clone, PartialEq, Eq)]
pub enum CliError {
    DockerNotFound,
    DockerCommandFailed(String),
    ConfigError(String),
    /// An input/output failure, with the text that describes it.
    IoError(String),
    ServiceNotRunning,
    InvalidEnvFile,
}

impl CliError {
    /// The line that reports this failure to the user.
    pub open spec fn text(self) -> Seq<char> {
        match self {
            CliError::DockerNotFound => "Docker not found. Please install Docker first."@,
            CliError::DockerCommandFailed(detail) => "Docker command failed: "@ + detail@,
            CliError::ConfigError(detail) => "Configuration error: "@ + detail@,
            CliError::IoError(detail) => "IO error: "@ + detail@,
            CliError::ServiceNotRunning => "Service not running"@,
            CliError::InvalidEnvFile => "Invalid environment file"@,
        }
    }

    /// Computes [`CliError::text`].
    pub fn message(&self) -> (message: String)
        ensures
            message@ == self.text(),
    {
        match self {
            CliError::DockerNotFound => "Docker not found. Please install Docker first.".to_owned(),
            CliError::DockerCommandFailed(detail) => "Docker command failed: ".to_owned().concat(
                detail.as_str(),
            ),
            CliError::ConfigError(detail) => "Configuration error: ".to_owned().concat(
                detail.as_str(),
            ),
            CliError::IoError(detail) => "IO error: ".to_owned().concat(detail.as_str()),
            CliError::ServiceNotRunning => "Service not running".to_owned(),
            CliError::InvalidEnvFile => "Invalid environment file".to_owned(),
        }
    }
}

} // verus!
