//! The project directory and what the tool expects to find in it.

use vstd::prelude::*;
use std::path::PathBuf;
use crate::cli::error::CliError;

verus! {

#[verifier::external_type_specification]
#[verifier::external_body]
pub struct ExPathBuf(PathBuf);

/// Where the project lives and where its environment file is.
pub struct Config {
    pub project_dir: PathBuf,
    pub env_file: PathBuf,
}

/// What has to be done so that the environment file exists.
#[derive(Debug, Clone, Copy, PartialEq, Eq, Structural)]
pub enum EnvFileAction {
    /// The environment file is there: nothing to do.
    Keep,
    /// The environment file is missing: copy the example file to its place.
    CopyExample,
}

impl Config {
    /// The name of the compose file in the project directory.
    pub fn compose_file_name() -> (name: &'static str)
        ensures
            name@ == "docker-compose.yml"@,
    {
        "docker-compose.yml"
    }

    /// The name of the environment file in the project directory.
    pub fn env_file_name() -> (name: &'static str)
        ensures
            name@ == ".env"@,
    {
        ".env"
    }

    /// The name of the example environment file in the project directory.
    pub fn env_example_name() -> (name: &'static str)
        ensures
            name@ == ".env.example"@,
    {
        ".env.example"
    }

    /// Decides how to make sure that the environment file exists, given
    /// whether it and the example file exist: an existing file is kept, a
    /// missing one is copied from the example, and without the example the
    /// configuration is refused.
    pub fn ensure_env_file(&self, env_file_exists: bool, example_exists: bool) -> (r: Result<
        EnvFileAction,
        CliError,
    >)
        ensures
            env_file_exists ==> r == Ok::<EnvFileAction, CliError>(EnvFileAction::Keep),
            !env_file_exists && example_exists ==> r == Ok::<EnvFileAction, CliError>(
                EnvFileAction::CopyExample,
            ),
            !env_file_exists && !example_exists ==> (r matches Err(CliError::ConfigError(detail))
                && detail@ == ".env.example not found"@),
    {
        if !env_file_exists {
            if example_exists {
                Ok(EnvFileAction::CopyExample)
            } else {
                Err(CliError::ConfigError(".env.example not found".to_owned()))
            }
        } else {
            Ok(EnvFileAction::Keep)
        }
    }

    /// Accepts the project directory exactly when its compose file exists.
    pub fn validate_docker_compose(&self, compose_file_exists: bool) -> (r: Result<(), CliError>)
        ensures
            compose_file_exists <==> r is Ok,
            !compose_file_exists ==> (r matches Err(CliError::ConfigError(detail)) && detail@
                == "docker-compose.yml not found"@),
    {
        if !compose_file_exists {
            return Err(CliError::ConfigError("docker-compose.yml not found".to_owned()));
        }
        Ok(())
    }
}

} // verus!
