//! Why the client stops, and the status that the process ends with.

use vstd::prelude::*;
use crate::endpoint::Endpoint;
use crate::target::ResolutionError;
use crate::target::TargetEmoji;

verus! {

/// The phase in which the client stopped.
#[derive(Clone, Copy, Debug, PartialEq, Eq, Structural)]
pub enum ExitReason {
    /// Voting came to an end by itself. No run of the client ends so.
    Completed,
    /// Logging could not be set up.
    LoggingInit,
    /// One of the two auxiliary services could not be reached.
    Preflight,
    /// Voting could not start, or a vote failed.
    VoteLoop,
}

impl ExitReason {
    /// The process exit status that stands for the reason.
    pub open spec fn status(self) -> u8 {
        match self {
            ExitReason::Completed => 0,
            ExitReason::LoggingInit => 1,
            ExitReason::Preflight => 2,
            ExitReason::VoteLoop => 3,
        }
    }

    /// The status to end the process with.
    pub fn code(self) -> (code: u8)
        ensures
            code == self.status(),
    {
        match self {
            ExitReason::Completed => 0,
            ExitReason::LoggingInit => 1,
            ExitReason::Preflight => 2,
            ExitReason::VoteLoop => 3,
        }
    }
}

/// What is wrong with the configured target name.
#[derive(Clone, Debug, PartialEq, Eq)]
pub enum ConfigurationError {
    /// No name is configured, or it cannot be read.
    Missing,
    /// The name selects no target.
    Unrecognized(ResolutionError),
}

/// What made the client stop. A `cause` is the description that came with
/// the failed operation.
#[derive(Clone, Debug, PartialEq, Eq)]
pub enum Failure {
    LoggingInit { cause: String },
    Connect { endpoint: Endpoint, cause: String },
    Configuration(ConfigurationError),
    RpcInvocation { target: TargetEmoji, cause: String },
}

impl Failure {
    /// The phase that the failure belongs to. A failed connection belongs to
    /// the preflight when the service is auxiliary, else to the vote loop.
    pub open spec fn reason(self) -> ExitReason {
        match self {
            Failure::LoggingInit { .. } => ExitReason::LoggingInit,
            Failure::Connect { endpoint, .. } => if endpoint.is_auxiliary() {
                ExitReason::Preflight
            } else {
                ExitReason::VoteLoop
            },
            Failure::Configuration(_) => ExitReason::VoteLoop,
            Failure::RpcInvocation { .. } => ExitReason::VoteLoop,
        }
    }

    /// The phase in which the client stopped with this failure.
    pub fn exit_reason(&self) -> (reason: ExitReason)
        ensures
            reason == self.reason(),
    {
        match self {
            Failure::LoggingInit { .. } => ExitReason::LoggingInit,
            Failure::Connect { endpoint, .. } => if endpoint.auxiliary() {
                ExitReason::Preflight
            } else {
                ExitReason::VoteLoop
            },
            Failure::Configuration(_) => ExitReason::VoteLoop,
            Failure::RpcInvocation { .. } => ExitReason::VoteLoop,
        }
    }
}

/// Two reasons with the same status are the same reason.
pub proof fn lemma_status_tells_reason(first: ExitReason, second: ExitReason)
    ensures
        first.status() == second.status() <==> first == second,
{
}

/// No failure ends the process with the status of a completed run.
pub proof fn lemma_failure_status_is_not_zero(failure: Failure)
    ensures
        1 <= failure.reason().status() <= 3,
{
}

} // verus!
