use vote_bot::endpoint::Endpoint;
use vote_bot::exit::ConfigurationError;
use vote_bot::exit::ExitReason;
use vote_bot::exit::Failure;
use vote_bot::session::Action;
use vote_bot::session::Event;
use vote_bot::session::State;
use vote_bot::target::ResolutionError;
use vote_bot::target::RpcMethod;
use vote_bot::target::TargetEmoji;

/// A stand-in for everything outside the client: it performs no operation,
/// records what it was asked for, and answers from a script.
struct World {
    unreachable: Vec<Endpoint>,
    selector: Option<String>,
    votes_that_succeed: usize,
    connects: Vec<Endpoint>,
    calls: Vec<RpcMethod>,
    naps: Vec<u64>,
    selector_reads: usize,
    failure: Option<Failure>,
}

impl World {
    fn new(selector: Option<&str>, votes_that_succeed: usize) -> World {
        World {
            unreachable: Vec::new(),
            selector: selector.map(|value| value.to_string()),
            votes_that_succeed,
            connects: Vec::new(),
            calls: Vec::new(),
            naps: Vec::new(),
            selector_reads: 0,
            failure: None,
        }
    }

    fn without(mut self, endpoint: Endpoint) -> World {
        self.unreachable.push(endpoint);
        self
    }

    fn perform(&mut self, action: Action) -> Option<Event> {
        match action {
            Action::InitLogging => Some(Event::LoggingReady),
            Action::Connect(endpoint) => {
                self.connects.push(endpoint);
                if self.unreachable.contains(&endpoint) {
                    Some(Event::ConnectFailed(format!("no route to {}", endpoint.address())))
                } else {
                    Some(Event::Connected)
                }
            }
            Action::ReadSelector => {
                self.selector_reads += 1;
                Some(Event::Selector(self.selector.clone()))
            }
            Action::Invoke(method) => {
                self.calls.push(method);
                if self.calls.len() <= self.votes_that_succeed {
                    Some(Event::VoteCast)
                } else {
                    Some(Event::VoteFailed("unavailable".to_string()))
                }
            }
            Action::Nap { seconds, .. } => {
                self.naps.push(seconds);
                Some(Event::Woke)
            }
            Action::Abort(failure) => {
                self.failure = Some(failure);
                None
            }
        }
    }

    /// Drives the client until it stops, and returns the exit status.
    fn run(&mut self) -> u8 {
        let (mut state, first) = State::start();
        let mut pending: Option<Action> = Some(first);
        while let Some(action) = pending.take() {
            match self.perform(action) {
                Some(event) => {
                    let (next, action) = state.step(event);
                    state = next;
                    pending = action;
                }
                None => {}
            }
        }
        match state {
            State::Stopped(reason) => {
                assert_eq!(Some(reason), self.failure.as_ref().map(|failure| failure.exit_reason()));
                reason.code()
            }
            other => panic!("the client halted in {:?}", other),
        }
    }
}

#[test]
fn client_starts_by_setting_up_logging() {
    assert_eq!(State::start(), (State::Logging, Action::InitLogging));
}

#[test]
fn failed_logging_setup_exits_with_one() {
    let (state, action) = State::Logging.step(Event::LoggingFailed("already set".to_string()));
    assert_eq!(state, State::Stopped(ExitReason::LoggingInit));
    assert_eq!(action, Some(Action::Abort(Failure::LoggingInit { cause: "already set".to_string() })));
    assert_eq!(ExitReason::LoggingInit.code(), 1);
}

#[test]
fn services_are_connected_to_in_order() {
    let (state, action) = State::Logging.step(Event::LoggingReady);
    assert_eq!(state, State::Connecting(Endpoint::JoyVoting));
    assert_eq!(action, Some(Action::Connect(Endpoint::JoyVoting)));
    let (state, action) = state.step(Event::Connected);
    assert_eq!(state, State::Connecting(Endpoint::GhostVoting));
    assert_eq!(action, Some(Action::Connect(Endpoint::GhostVoting)));
    let (state, action) = state.step(Event::Connected);
    assert_eq!(state, State::Connecting(Endpoint::Voting));
    assert_eq!(action, Some(Action::Connect(Endpoint::Voting)));
    let (state, action) = state.step(Event::Connected);
    assert_eq!(state, State::Resolving);
    assert_eq!(action, Some(Action::ReadSelector));
}

#[test]
fn second_service_is_not_tried_when_the_first_is_unreachable() {
    let mut world = World::new(Some("joy"), 3).without(Endpoint::JoyVoting);
    assert_eq!(world.run(), 2);
    assert_eq!(world.connects, vec![Endpoint::JoyVoting]);
    assert_eq!(world.connects.len(), 1);
    assert!(world.calls.is_empty());
    assert_eq!(
        world.failure,
        Some(Failure::Connect {
            endpoint: Endpoint::JoyVoting,
            cause: "no route to http://joy-voting-svc.emojivoto.svc.cluster.local:8080".to_string(),
        })
    );
}

#[test]
fn unreachable_second_service_exits_with_two_before_any_vote() {
    let mut world = World::new(Some("ghost"), 3).without(Endpoint::GhostVoting);
    assert_eq!(world.run(), 2);
    assert_eq!(world.connects, vec![Endpoint::JoyVoting, Endpoint::GhostVoting]);
    assert!(world.calls.is_empty());
    assert_eq!(world.selector_reads, 0);
    assert!(world.naps.is_empty());
}

#[test]
fn unreachable_voting_service_exits_with_three() {
    let mut world = World::new(Some("joy"), 3).without(Endpoint::Voting);
    assert_eq!(world.run(), 3);
    assert_eq!(world.connects, vec![Endpoint::JoyVoting, Endpoint::GhostVoting, Endpoint::Voting]);
    assert_eq!(world.selector_reads, 0);
    assert!(world.calls.is_empty());
}

#[test]
fn missing_selector_exits_with_three() {
    let mut world = World::new(None, 3);
    assert_eq!(world.run(), 3);
    assert_eq!(world.failure, Some(Failure::Configuration(ConfigurationError::Missing)));
    assert!(world.calls.is_empty());
}

#[test]
fn unrecognized_selector_exits_with_three_and_names_the_value() {
    let mut world = World::new(Some("Heart"), 3);
    assert_eq!(world.run(), 3);
    assert_eq!(
        world.failure,
        Some(Failure::Configuration(ConfigurationError::Unrecognized(ResolutionError {
            value: "Heart".to_string(),
        })))
    );
    assert!(world.calls.is_empty());
    assert_eq!(world.selector_reads, 1);
}

#[test]
fn only_the_joy_procedure_is_called_for_joy() {
    let mut world = World::new(Some("JOY"), 25);
    assert_eq!(world.run(), 3);
    assert_eq!(world.calls.len(), 26);
    assert!(world.calls.iter().all(|method| *method == RpcMethod::VoteJoy));
}

#[test]
fn only_the_ghost_procedure_is_called_for_ghost() {
    let mut world = World::new(Some("\u{1F47B}"), 25);
    assert_eq!(world.run(), 3);
    assert_eq!(world.calls.len(), 26);
    assert!(world.calls.iter().all(|method| *method == RpcMethod::VoteGhost));
}

#[test]
fn failed_vote_ends_the_run_at_once() {
    let mut world = World::new(Some("joy"), 4);
    assert_eq!(world.run(), 3);
    assert_eq!(world.calls.len(), 5);
    assert_eq!(world.naps.len(), 4);
    assert_eq!(
        world.failure,
        Some(Failure::RpcInvocation { target: TargetEmoji::Joy, cause: "unavailable".to_string() })
    );
}

#[test]
fn first_vote_that_fails_is_the_only_call() {
    let mut world = World::new(Some("ghost"), 0);
    assert_eq!(world.run(), 3);
    assert_eq!(world.calls, vec![RpcMethod::VoteGhost]);
    assert!(world.naps.is_empty());
}

#[test]
fn channel_to_the_voting_service_is_opened_once() {
    let mut world = World::new(Some("joy"), 40);
    assert_eq!(world.run(), 3);
    assert_eq!(world.connects, vec![Endpoint::JoyVoting, Endpoint::GhostVoting, Endpoint::Voting]);
    assert_eq!(world.selector_reads, 1);
}

#[test]
fn pauses_between_votes_are_in_range() {
    let mut world = World::new(Some("joy"), 500);
    assert_eq!(world.run(), 3);
    assert_eq!(world.naps.len(), 500);
    assert!(world.naps.iter().all(|seconds| 5 <= *seconds && *seconds < 30));
    assert!(world.naps.iter().any(|seconds| *seconds != world.naps[0]));
}

#[test]
fn vote_that_was_cast_is_followed_by_the_given_pause() {
    let (state, action) = State::Voting(TargetEmoji::Joy).step_with(Event::VoteCast, 17);
    assert_eq!(state, State::Napping(TargetEmoji::Joy));
    assert_eq!(action, Some(Action::Nap { target: TargetEmoji::Joy, seconds: 17 }));
    let (state, action) = state.step_with(Event::Woke, 23);
    assert_eq!(state, State::Voting(TargetEmoji::Joy));
    assert_eq!(action, Some(Action::Invoke(RpcMethod::VoteJoy)));
}

#[test]
fn selector_starts_the_first_vote() {
    let (state, action) = State::Resolving.step(Event::Selector(Some("Ghost".to_string())));
    assert_eq!(state, State::Voting(TargetEmoji::Phantom));
    assert_eq!(action, Some(Action::Invoke(RpcMethod::VoteGhost)));
}

#[test]
fn failed_vote_hands_out_target_and_cause() {
    let (state, action) =
        State::Voting(TargetEmoji::Phantom).step(Event::VoteFailed("deadline".to_string()));
    assert_eq!(state, State::Stopped(ExitReason::VoteLoop));
    assert_eq!(
        action,
        Some(Action::Abort(Failure::RpcInvocation {
            target: TargetEmoji::Phantom,
            cause: "deadline".to_string(),
        }))
    );
}

#[test]
fn event_that_answers_nothing_is_ignored() {
    let states = [
        State::Logging,
        State::Connecting(Endpoint::JoyVoting),
        State::Resolving,
        State::Voting(TargetEmoji::Joy),
        State::Napping(TargetEmoji::Joy),
    ];
    assert_eq!(State::Logging.step(Event::Woke), (State::Logging, None));
    assert_eq!(State::Logging.step(Event::Connected), (State::Logging, None));
    assert_eq!(State::Resolving.step(Event::VoteCast), (State::Resolving, None));
    assert_eq!(
        State::Napping(TargetEmoji::Joy).step(Event::VoteCast),
        (State::Napping(TargetEmoji::Joy), None)
    );
    assert_eq!(
        State::Voting(TargetEmoji::Joy).step(Event::Woke),
        (State::Voting(TargetEmoji::Joy), None)
    );
    for state in states {
        assert_eq!(state.step_with(Event::Selector(None), 9) == (state, None), state != State::Resolving);
    }
}

#[test]
fn stopped_client_stays_stopped() {
    let events = [
        Event::LoggingReady,
        Event::LoggingFailed("x".to_string()),
        Event::Connected,
        Event::ConnectFailed("x".to_string()),
        Event::Selector(None),
        Event::Selector(Some("joy".to_string())),
        Event::VoteCast,
        Event::VoteFailed("x".to_string()),
        Event::Woke,
    ];
    for reason in [ExitReason::LoggingInit, ExitReason::Preflight, ExitReason::VoteLoop] {
        for event in events.clone() {
            assert_eq!(State::Stopped(reason).step(event), (State::Stopped(reason), None));
        }
    }
}
