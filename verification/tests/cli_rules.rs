use std::path::PathBuf;

use saferoute::cli::config::{Config, EnvFileAction};
use saferoute::cli::docker::{DockerClient, RunOutcome};
use saferoute::cli::error::CliError;

fn config() -> Config {
    Config { project_dir: PathBuf::from("/srv/saferoute"), env_file: PathBuf::from("/srv/saferoute/.env") }
}

#[test]
fn test_start_without_docker_compose() {
    let result = config().validate_docker_compose(false);
    assert_eq!(result, Err(CliError::ConfigError("docker-compose.yml not found".to_string())));
}

#[test]
fn test_config_validation() {
    let config = config();
    assert_eq!(config.validate_docker_compose(true), Ok(()));
    // A minimal project: the compose file and the example file, no environment file yet.
    assert_eq!(config.ensure_env_file(false, true), Ok(EnvFileAction::CopyExample));
    // Once the environment file is there it is kept.
    assert_eq!(config.ensure_env_file(true, true), Ok(EnvFileAction::Keep));
    assert_eq!(config.ensure_env_file(true, false), Ok(EnvFileAction::Keep));
}

#[test]
fn missing_example_file_is_a_configuration_error() {
    assert_eq!(
        config().ensure_env_file(false, false),
        Err(CliError::ConfigError(".env.example not found".to_string()))
    );
}

#[test]
fn file_names() {
    assert_eq!(Config::compose_file_name(), "docker-compose.yml");
    assert_eq!(Config::env_file_name(), ".env");
    assert_eq!(Config::env_example_name(), ".env.example");
}

#[test]
fn arguments_of_the_commands() {
    let docker = DockerClient::new();
    assert_eq!(docker.compose_up_args(false), vec!["compose", "up"]);
    assert_eq!(docker.compose_up_args(true), vec!["compose", "up", "-d"]);
    assert_eq!(docker.compose_down_args(false), vec!["compose", "down"]);
    assert_eq!(docker.compose_down_args(true), vec!["compose", "down", "-v"]);
    assert_eq!(docker.compose_logs_args(false, None), vec!["compose", "logs"]);
    assert_eq!(docker.compose_logs_args(true, None), vec!["compose", "logs", "-f"]);
    assert_eq!(docker.compose_logs_args(false, Some("vault")), vec!["compose", "logs", "vault"]);
    assert_eq!(
        docker.compose_logs_args(true, Some("vault")),
        vec!["compose", "logs", "-f", "vault"]
    );
}

#[test]
fn outcome_of_each_command() {
    let docker = DockerClient::new();
    let not_started = RunOutcome::NotStarted("No such file or directory".to_string());
    let io_error = Err(CliError::IoError("No such file or directory".to_string()));

    assert_eq!(docker.check_installed(&RunOutcome::Success), Ok(()));
    assert_eq!(docker.check_installed(&RunOutcome::Failure), Ok(()));
    assert_eq!(docker.check_installed(&not_started), Err(CliError::DockerNotFound));

    assert_eq!(docker.check_compose_installed(&RunOutcome::Success), Ok(()));
    assert_eq!(docker.check_compose_installed(&RunOutcome::Failure), Ok(()));
    assert_eq!(
        docker.check_compose_installed(&not_started),
        Err(CliError::DockerCommandFailed("docker compose not found".to_string()))
    );

    assert_eq!(docker.compose_up(&RunOutcome::Success), Ok(()));
    assert_eq!(
        docker.compose_up(&RunOutcome::Failure),
        Err(CliError::DockerCommandFailed("Failed to start services".to_string()))
    );
    assert_eq!(docker.compose_up(&not_started), io_error);

    assert_eq!(docker.compose_down(&RunOutcome::Success), Ok(()));
    assert_eq!(
        docker.compose_down(&RunOutcome::Failure),
        Err(CliError::DockerCommandFailed("Failed to stop services".to_string()))
    );
    assert_eq!(docker.compose_down(&not_started), io_error);

    assert_eq!(docker.compose_ps(&RunOutcome::Success), Ok(()));
    assert_eq!(docker.compose_ps(&RunOutcome::Failure), Err(CliError::ServiceNotRunning));
    assert_eq!(docker.compose_ps(&not_started), io_error);

    assert_eq!(docker.compose_logs(&RunOutcome::Success), Ok(()));
    assert_eq!(docker.compose_logs(&RunOutcome::Failure), Ok(()));
    assert_eq!(docker.compose_logs(&not_started), io_error);

    assert_eq!(docker.compose_build(&RunOutcome::Success), Ok(()));
    assert_eq!(
        docker.compose_build(&RunOutcome::Failure),
        Err(CliError::DockerCommandFailed("Build failed".to_string()))
    );
    assert_eq!(docker.compose_build(&not_started), io_error);
}

#[test]
fn text_of_each_cli_failure() {
    assert_eq!(CliError::DockerNotFound.message(), "Docker not found. Please install Docker first.");
    assert_eq!(
        CliError::DockerCommandFailed("Build failed".to_string()).message(),
        "Docker command failed: Build failed"
    );
    assert_eq!(
        CliError::ConfigError(".env.example not found".to_string()).message(),
        "Configuration error: .env.example not found"
    );
    assert_eq!(CliError::IoError("denied".to_string()).message(), "IO error: denied");
    assert_eq!(CliError::ServiceNotRunning.message(), "Service not running");
    assert_eq!(CliError::InvalidEnvFile.message(), "Invalid environment file");
}
