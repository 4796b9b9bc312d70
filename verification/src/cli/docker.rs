//! The container commands of the tool: their arguments, and how the outcome
//! of running one is reported.

use vstd::prelude::*;
use crate::cli::error::CliError;

verus! {

/// What running a command gave.
#[derive(Debug, Clone, PartialEq, Eq)]
pub enum RunOutcome {
    /// The command ran and reported success.
    Success,
    /// The command ran and reported failure.
    Failure,
    /// The command could not be started; the text describes why.
    NotStarted(String),
}

/// The client for the container tool.
pub struct DockerClient;

/// The arguments of `compose up`.
pub open spec fn up_args(detached: bool) -> Seq<Seq<char>> {
    if detached {
        seq!["compose"@, "up"@, "-d"@]
    } else {
        seq!["compose"@, "up"@]
    }
}

/// The arguments of `compose down`.
pub open spec fn down_args(volumes: bool) -> Seq<Seq<char>> {
    if volumes {
        seq!["compose"@, "down"@, "-v"@]
    } else {
        seq!["compose"@, "down"@]
    }
}

/// The arguments of `compose logs`.
pub open spec fn logs_args(follow: bool, service: Option<Seq<char>>) -> Seq<Seq<char>> {
    seq!["compose"@, "logs"@] + (if follow {
        seq!["-f"@]
    } else {
        Seq::empty()
    }) + (match service {
        Some(name) => seq![name],
        None => Seq::empty(),
    })
}

/// What a command that must run and succeed reports: success is accepted, a
/// command that could not be started is an input/output failure, and a
/// command that failed is reported with `complaint`.
pub open spec fn must_succeed(outcome: RunOutcome, complaint: Seq<char>, r: Result<(), CliError>) -> bool {
    match outcome {
        RunOutcome::Success => r is Ok,
        RunOutcome::Failure => r matches Err(CliError::DockerCommandFailed(detail)) && detail@
            == complaint,
        RunOutcome::NotStarted(why) => r matches Err(CliError::IoError(detail)) && detail@ == why@,
    }
}

fn require_success(outcome: &RunOutcome, complaint: &str) -> (r: Result<(), CliError>)
    ensures
        must_succeed(*outcome, complaint@, r),
{
    match outcome {
        RunOutcome::Success => Ok(()),
        RunOutcome::Failure => Err(CliError::DockerCommandFailed(complaint.to_owned())),
        RunOutcome::NotStarted(why) => Err(CliError::IoError(why.clone())),
    }
}

impl DockerClient {
    pub fn new() -> (client: Self) {
        DockerClient
    }

    /// The container tool is installed when asking for its version could be
    /// started, whatever it then reported.
    pub fn check_installed(&self, outcome: &RunOutcome) -> (r: Result<(), CliError>)
        ensures
            outcome is NotStarted <==> r is Err,
            r is Err ==> r == Err::<(), CliError>(CliError::DockerNotFound),
    {
        match outcome {
            RunOutcome::NotStarted(_) => Err(CliError::DockerNotFound),
            _ => Ok(()),
        }
    }

    /// The compose command is installed when asking for its version could be
    /// started, whatever it then reported.
    pub fn check_compose_installed(&self, outcome: &RunOutcome) -> (r: Result<(), CliError>)
        ensures
            outcome is NotStarted <==> r is Err,
            r matches Err(e) ==> (e matches CliError::DockerCommandFailed(detail) && detail@
                == "docker compose not found"@),
    {
        match outcome {
            RunOutcome::NotStarted(_) => Err(
                CliError::DockerCommandFailed("docker compose not found".to_owned()),
            ),
            _ => Ok(()),
        }
    }

    /// The arguments that start the services, in the background if `detached`.
    pub fn compose_up_args(&self, detached: bool) -> (args: Vec<String>)
        ensures
            args.deep_view() == up_args(detached),
    {
        let mut args: Vec<String> = Vec::new();
        args.push("compose".to_owned());
        args.push("up".to_owned());
        if detached {
            args.push("-d".to_owned());
        }
        assert(args.deep_view() =~= up_args(detached));
        args
    }

    /// Reports the outcome of starting the services.
    pub fn compose_up(&self, outcome: &RunOutcome) -> (r: Result<(), CliError>)
        ensures
            must_succeed(*outcome, "Failed to start services"@, r),
    {
        require_success(outcome, "Failed to start services")
    }

    /// The arguments that stop the services, removing their volumes if
    /// `volumes`.
    pub fn compose_down_args(&self, volumes: bool) -> (args: Vec<String>)
        ensures
            args.deep_view() == down_args(volumes),
    {
        let mut args: Vec<String> = Vec::new();
        args.push("compose".to_owned());
        args.push("down".to_owned());
        if volumes {
            args.push("-v".to_owned());
        }
        assert(args.deep_view() =~= down_args(volumes));
        args
    }

    /// Reports the outcome of stopping the services.
    pub fn compose_down(&self, outcome: &RunOutcome) -> (r: Result<(), CliError>)
        ensures
            must_succeed(*outcome, "Failed to stop services"@, r),
    {
        require_success(outcome, "Failed to stop services")
    }

    /// Reports the outcome of listing the services: a listing that fails
    /// means that the services are not running.
    pub fn compose_ps(&self, outcome: &RunOutcome) -> (r: Result<(), CliError>)
        ensures
            match *outcome {
                RunOutcome::Success => r is Ok,
                RunOutcome::Failure => r == Err::<(), CliError>(CliError::ServiceNotRunning),
                RunOutcome::NotStarted(why) => r matches Err(CliError::IoError(detail)) && detail@
                    == why@,
            },
    {
        match outcome {
            RunOutcome::Success => Ok(()),
            RunOutcome::Failure => Err(CliError::ServiceNotRunning),
            RunOutcome::NotStarted(why) => Err(CliError::IoError(why.clone())),
        }
    }

    /// The arguments that show the logs, of one service if `service` names
    /// one, and following them if `follow`.
    pub fn compose_logs_args(&self, follow: bool, service: Option<&str>) -> (args: Vec<String>)
        ensures
            args.deep_view() == logs_args(
                follow,
                match service {
                    Some(name) => Some(name@),
                    None => None,
                },
            ),
    {
        let mut args: Vec<String> = Vec::new();
        args.push("compose".to_owned());
        args.push("logs".to_owned());
        if follow {
            args.push("-f".to_owned());
        }
        if let Some(name) = service {
            args.push(name.to_owned());
        }
        assert(args.deep_view() =~= logs_args(
            follow,
            match service {
                Some(name) => Some(name@),
                None => None,
            },
        ));
        args
    }

    /// Reports the outcome of showing the logs: only a command that could
    /// not be started is a failure.
    pub fn compose_logs(&self, outcome: &RunOutcome) -> (r: Result<(), CliError>)
        ensures
            match *outcome {
                RunOutcome::NotStarted(why) => r matches Err(CliError::IoError(detail)) && detail@
                    == why@,
                _ => r is Ok,
            },
    {
        match outcome {
            RunOutcome::NotStarted(why) => Err(CliError::IoError(why.clone())),
            _ => Ok(()),
        }
    }

    /// Reports the outcome of building the images.
    pub fn compose_build(&self, outcome: &RunOutcome) -> (r: Result<(), CliError>)
        ensures
            must_succeed(*outcome, "Build failed"@, r),
    {
        require_success(outcome, "Build failed")
    }
}

} // verus!
