//! The client as a state machine. The machine asks for one operation at a
//! time (an `Action`); whoever drives it performs the operation and reports
//! how it went (an `Event`); the machine then says what comes next.

use vstd::prelude::*;
use crate::endpoint::Endpoint;
use crate::exit::ConfigurationError;
use crate::exit::ExitReason;
use crate::exit::Failure;
use crate::pacing::is_nap;
use crate::pacing::nap_length;
use crate::pacing::NAP_MIN;
use crate::target::resolve;
use crate::target::ResolutionError;
use crate::target::RpcMethod;
use crate::target::TargetEmoji;

verus! {

/// What the client is waiting for.
#[derive(Clone, Copy, Debug, PartialEq, Eq, Structural)]
pub enum State {
    /// Logging is being set up.
    Logging,
    /// A channel to the service is being opened.
    Connecting(Endpoint),
    /// The configured target name is being read.
    Resolving,
    /// A vote for the target is under way.
    Voting(TargetEmoji),
    /// The client pauses after a vote for the target.
    Napping(TargetEmoji),
    /// The client has stopped.
    Stopped(ExitReason),
}

/// How the operation that the client waited for went.
#[derive(Clone, Debug, PartialEq, Eq)]
pub enum Event {
    LoggingReady,
    LoggingFailed(String),
    Connected,
    ConnectFailed(String),
    /// The configured target name, or `None` where there is none to read.
    Selector(Option<String>),
    VoteCast,
    VoteFailed(String),
    Woke,
}

/// The operation that the client asks for next.
#[derive(Clone, Debug, PartialEq, Eq)]
pub enum Action {
    InitLogging,
    /// Open a channel to the service, once, and report the outcome.
    Connect(Endpoint),
    ReadSelector,
    /// Call the procedure on the channel to `Endpoint::Voting`, with an
    /// empty request.
    Invoke(RpcMethod),
    /// Record the vote for `target` and pause for `seconds`.
    Nap { target: TargetEmoji, seconds: u64 },
    /// Record the failure and end the process with the status of its reason.
    Abort(Failure),
}

/// The service that is connected to once `endpoint` has answered, if any.
pub open spec fn following(endpoint: Endpoint) -> Option<Endpoint> {
    match endpoint {
        Endpoint::JoyVoting => Some(Endpoint::GhostVoting),
        Endpoint::GhostVoting => Some(Endpoint::Voting),
        Endpoint::Voting => None,
    }
}

/// The state that follows `state` on `event`, and the operation to perform
/// next. `nap` is the pause to take if the event is a vote that was cast. An
/// event that does not answer what the state waits for changes nothing and
/// asks for nothing.
pub open spec fn transition(state: State, event: Event, nap: u64) -> (State, Option<Action>) {
    match (state, event) {
        (State::Logging, Event::LoggingReady) => (
            State::Connecting(Endpoint::JoyVoting),
            Some(Action::Connect(Endpoint::JoyVoting)),
        ),
        (State::Logging, Event::LoggingFailed(cause)) => stop(Failure::LoggingInit { cause }),
        (State::Connecting(endpoint), Event::Connected) => match following(endpoint) {
            Some(next) => (State::Connecting(next), Some(Action::Connect(next))),
            None => (State::Resolving, Some(Action::ReadSelector)),
        },
        (State::Connecting(endpoint), Event::ConnectFailed(cause)) => stop(
            Failure::Connect { endpoint, cause },
        ),
        (State::Resolving, Event::Selector(None)) => stop(
            Failure::Configuration(ConfigurationError::Missing),
        ),
        (State::Resolving, Event::Selector(Some(value))) => match resolve(value@) {
            Some(target) => (State::Voting(target), Some(Action::Invoke(target.bound_method()))),
            None => stop(
                Failure::Configuration(
                    ConfigurationError::Unrecognized(ResolutionError { value }),
                ),
            ),
        },
        (State::Voting(target), Event::VoteCast) => (
            State::Napping(target),
            Some(Action::Nap { target, seconds: nap }),
        ),
        (State::Voting(target), Event::VoteFailed(cause)) => stop(
            Failure::RpcInvocation { target, cause },
        ),
        (State::Napping(target), Event::Woke) => (
            State::Voting(target),
            Some(Action::Invoke(target.bound_method())),
        ),
        _ => (state, None),
    }
}

/// Stopping with `failure`: the state records its reason, the action hands
/// the failure out.
pub open spec fn stop(failure: Failure) -> (State, Option<Action>) {
    (State::Stopped(failure.reason()), Some(Action::Abort(failure)))
}

fn stop_with(failure: Failure) -> (stopped: (State, Option<Action>))
    ensures
        stopped == stop(failure),
{
    (State::Stopped(failure.exit_reason()), Some(Action::Abort(failure)))
}

impl State {
    /// Where the client starts, and the first operation to perform.
    pub fn start() -> (first: (State, Action))
        ensures
            first == (State::Logging, Action::InitLogging),
    {
        (State::Logging, Action::InitLogging)
    }

    /// The state after `event` and the operation to perform next, with `nap`
    /// as the pause after a vote that was cast.
    pub fn step_with(self, event: Event, nap: u64) -> (next: (State, Option<Action>))
        ensures
            next == transition(self, event, nap),
    {
        match self {
            State::Logging => match event {
                Event::LoggingReady => (
                    State::Connecting(Endpoint::JoyVoting),
                    Some(Action::Connect(Endpoint::JoyVoting)),
                ),
                Event::LoggingFailed(cause) => stop_with(Failure::LoggingInit { cause }),
                _ => (self, None),
            },
            State::Connecting(endpoint) => match event {
                Event::Connected => match endpoint {
                    Endpoint::JoyVoting => (
                        State::Connecting(Endpoint::GhostVoting),
                        Some(Action::Connect(Endpoint::GhostVoting)),
                    ),
                    Endpoint::GhostVoting => (
                        State::Connecting(Endpoint::Voting),
                        Some(Action::Connect(Endpoint::Voting)),
                    ),
                    Endpoint::Voting => (State::Resolving, Some(Action::ReadSelector)),
                },
                Event::ConnectFailed(cause) => stop_with(Failure::Connect { endpoint, cause }),
                _ => (self, None),
            },
            State::Resolving => match event {
                Event::Selector(None) => stop_with(
                    Failure::Configuration(ConfigurationError::Missing),
                ),
                Event::Selector(Some(value)) => match TargetEmoji::from_str(value.as_str()) {
                    Ok(target) => (State::Voting(target), Some(Action::Invoke(target.method()))),
                    Err(_) => stop_with(
                        Failure::Configuration(
                            ConfigurationError::Unrecognized(ResolutionError { value }),
                        ),
                    ),
                },
                _ => (self, None),
            },
            State::Voting(target) => match event {
                Event::VoteCast => (State::Napping(target), Some(Action::Nap { target, seconds: nap })),
                Event::VoteFailed(cause) => stop_with(Failure::RpcInvocation { target, cause }),
                _ => (self, None),
            },
            State::Napping(target) => match event {
                Event::Woke => (State::Voting(target), Some(Action::Invoke(target.method()))),
                _ => (self, None),
            },
            State::Stopped(_) => (self, None),
        }
    }

    /// The state after `event` and the operation to perform next. After a
    /// vote that was cast, the pause is drawn at random.
    pub fn step(self, event: Event) -> (next: (State, Option<Action>))
        ensures
            exists|nap: u64| is_nap(nap) && next == transition(self, event, nap),
    {
        let cast: bool = match (&self, &event) {
            (State::Voting(_), Event::VoteCast) => true,
            _ => false,
        };
        let nap: u64 = if cast {
            nap_length()
        } else {
            NAP_MIN
        };
        let next = self.step_with(event, nap);
        assert(is_nap(nap) && next == transition(self, event, nap));
        next
    }
}

} // verus!
