//! Whole runs of the client: what holds of the operations that it asks for,
//! whatever the events that come in.

use vstd::prelude::*;
use crate::endpoint::Endpoint;
use crate::exit::ExitReason;
use crate::pacing::is_nap;
use crate::session::transition;
use crate::session::Action;
use crate::session::Event;
use crate::session::State;
use crate::target::resolve;
use crate::target::RpcMethod;
use crate::target::TargetEmoji;

verus! {

/// One step of a run: the event that came in, and the pause that was drawn
/// for the case that the event is a vote that was cast.
pub struct Input {
    pub event: Event,
    pub nap: u64,
}

/// The state that the client is in after `inputs`, and every operation that
/// it has asked for up to then, the first one included.
pub open spec fn run(inputs: Seq<Input>) -> (State, Seq<Action>)
    decreases inputs.len(),
{
    if inputs.len() == 0 {
        (State::Logging, seq![Action::InitLogging])
    } else {
        let (state, actions) = run(inputs.drop_last());
        let (next, action) = transition(state, inputs.last().event, inputs.last().nap);
        (next, extended(actions, action))
    }
}

/// `actions`, with `action` at the end where there is one.
pub open spec fn extended(actions: Seq<Action>, action: Option<Action>) -> Seq<Action> {
    match action {
        Some(action) => actions.push(action),
        None => actions,
    }
}

/// The services that `actions` connect to, in order.
pub open spec fn attempts(actions: Seq<Action>) -> Seq<Endpoint>
    decreases actions.len(),
{
    if actions.len() == 0 {
        seq![]
    } else {
        let before = attempts(actions.drop_last());
        match actions.last() {
            Action::Connect(endpoint) => before.push(endpoint),
            _ => before,
        }
    }
}

/// The procedures that `actions` call, in order.
pub open spec fn calls(actions: Seq<Action>) -> Seq<RpcMethod>
    decreases actions.len(),
{
    if actions.len() == 0 {
        seq![]
    } else {
        let before = calls(actions.drop_last());
        match actions.last() {
            Action::Invoke(method) => before.push(method),
            _ => before,
        }
    }
}

/// Whether every call in `called` is a call of `method`.
pub open spec fn only(called: Seq<RpcMethod>, method: RpcMethod) -> bool {
    forall|i: int| 0 <= i < called.len() ==> called[i] == method
}

/// All three services, in the order in which the client connects to them.
pub open spec fn all_services() -> Seq<Endpoint> {
    seq![Endpoint::JoyVoting, Endpoint::GhostVoting, Endpoint::Voting]
}

/// What the operations asked for so far look like in each state: the
/// services are connected to in their order and each at most once, no
/// procedure is called before all three are connected and a target is
/// selected, and from then on only the selected target's procedure is.
pub open spec fn consistent(state: State, actions: Seq<Action>) -> bool {
    let tried = attempts(actions);
    let called = calls(actions);
    match state {
        State::Logging => tried == all_services().take(0) && called.len() == 0,
        State::Connecting(Endpoint::JoyVoting) => {
            tried == all_services().take(1) && called.len() == 0
        },
        State::Connecting(Endpoint::GhostVoting) => {
            tried == all_services().take(2) && called.len() == 0
        },
        State::Connecting(Endpoint::Voting) => tried == all_services() && called.len() == 0,
        State::Resolving => tried == all_services() && called.len() == 0,
        State::Voting(target) | State::Napping(target) => {
            &&& tried == all_services()
            &&& called.len() > 0
            &&& only(called, target.bound_method())
        },
        State::Stopped(ExitReason::Completed) => false,
        State::Stopped(ExitReason::LoggingInit) => {
            tried == all_services().take(0) && called.len() == 0
        },
        State::Stopped(ExitReason::Preflight) => {
            &&& tried == all_services().take(1) || tried == all_services().take(2)
            &&& called.len() == 0
        },
        State::Stopped(ExitReason::VoteLoop) => {
            &&& tried == all_services()
            &&& only(called, RpcMethod::VoteJoy) || only(called, RpcMethod::VoteGhost)
        },
    }
}

proof fn lemma_attempts_extended(actions: Seq<Action>, action: Option<Action>)
    ensures
        attempts(extended(actions, action)) == match action {
            Some(Action::Connect(endpoint)) => attempts(actions).push(endpoint),
            _ => attempts(actions),
        },
        calls(extended(actions, action)) == match action {
            Some(Action::Invoke(method)) => calls(actions).push(method),
            _ => calls(actions),
        },
{
    match action {
        Some(action) => {
            assert(actions.push(action).drop_last() =~= actions);
        },
        None => {},
    }
}

/// After any events whatever, the operations asked for are consistent with
/// the state. In particular no run ends as completed.
pub proof fn lemma_run_is_consistent(inputs: Seq<Input>)
    ensures
        consistent(run(inputs).0, run(inputs).1),
    decreases inputs.len(),
{
    if inputs.len() == 0 {
        let first = seq![Action::InitLogging];
        assert(first.drop_last() =~= Seq::<Action>::empty());
        assert(attempts(first.drop_last()) =~= Seq::<Endpoint>::empty());
        assert(attempts(first) =~= all_services().take(0));
        assert(calls(first.drop_last()).len() == 0);
    } else {
        lemma_run_is_consistent(inputs.drop_last());
        let (state, actions) = run(inputs.drop_last());
        let (next, action) = transition(state, inputs.last().event, inputs.last().nap);
        lemma_attempts_extended(actions, action);
        let tried = attempts(actions);
        if tried == all_services().take(0) {
            assert(tried.push(Endpoint::JoyVoting) =~= all_services().take(1));
        }
        if tried == all_services().take(1) {
            assert(tried.push(Endpoint::GhostVoting) =~= all_services().take(2));
        }
        if tried == all_services().take(2) {
            assert(tried.push(Endpoint::Voting) =~= all_services());
        }
    }
}

/// The run up to and including event `k` is the run before it, followed by
/// the transition on event `k`.
pub proof fn lemma_run_unfolds(inputs: Seq<Input>, k: int)
    requires
        0 <= k < inputs.len(),
    ensures
        run(inputs.take(k + 1)) == ({
            let (state, actions) = run(inputs.take(k));
            let (next, action) = transition(state, inputs[k].event, inputs[k].nap);
            (next, extended(actions, action))
        }),
{
    assert(inputs.take(k + 1).drop_last() =~= inputs.take(k));
}

/// A client that has stopped stays as it is: events that come in later
/// change neither the state nor what was asked for.
pub proof fn lemma_stopped_is_final(inputs: Seq<Input>, k: int)
    requires
        0 <= k <= inputs.len(),
        run(inputs.take(k)).0 is Stopped,
    ensures
        run(inputs) == run(inputs.take(k)),
    decreases inputs.len() - k,
{
    if k == inputs.len() {
        assert(inputs.take(k) =~= inputs);
    } else {
        assert(inputs.drop_last().take(k) =~= inputs.take(k));
        lemma_stopped_is_final(inputs.drop_last(), k);
    }
}

/// If the first service cannot be reached, the client stops with the
/// preflight as its reason, and that one connection is the only one it ever
/// asks for: the second service is not tried.
pub proof fn lemma_failed_first_probe_ends_the_preflight(inputs: Seq<Input>, k: int)
    requires
        0 <= k < inputs.len(),
        run(inputs.take(k)).0 == State::Connecting(Endpoint::JoyVoting),
        inputs[k].event is ConnectFailed,
    ensures
        run(inputs).0 == State::Stopped(ExitReason::Preflight),
        attempts(run(inputs).1) == seq![Endpoint::JoyVoting],
{
    lemma_run_is_consistent(inputs.take(k));
    lemma_failed_probe_stops_before_voting(inputs, k);
    assert(all_services().take(1) =~= seq![Endpoint::JoyVoting]);
}

/// If one of the two auxiliary services cannot be reached, the client stops
/// with the preflight as its reason, whose status is 2, and no procedure is
/// ever called.
pub proof fn lemma_failed_probe_stops_before_voting(inputs: Seq<Input>, k: int)
    requires
        0 <= k < inputs.len(),
        run(inputs.take(k)).0 matches State::Connecting(endpoint) && endpoint.is_auxiliary(),
        inputs[k].event is ConnectFailed,
    ensures
        run(inputs).0 == State::Stopped(ExitReason::Preflight),
        ExitReason::Preflight.status() == 2,
        run(inputs).1 == run(inputs.take(k)).1.push(run(inputs).1.last()),
        run(inputs).1.last() matches Action::Abort(failure) && failure.reason()
            == ExitReason::Preflight,
        attempts(run(inputs).1) == attempts(run(inputs.take(k)).1),
        calls(run(inputs).1).len() == 0,
{
    let (state, actions) = run(inputs.take(k));
    let (next, action) = transition(state, inputs[k].event, inputs[k].nap);
    lemma_run_is_consistent(inputs.take(k));
    lemma_run_unfolds(inputs, k);
    lemma_attempts_extended(actions, action);
    lemma_stopped_is_final(inputs, k + 1);
}

/// A vote that fails ends voting at once: the client stops with the vote
/// loop as its reason, whose status is 3, hands out the failure, and calls
/// no procedure after the one that failed.
pub proof fn lemma_failed_vote_ends_voting(inputs: Seq<Input>, k: int)
    requires
        0 <= k < inputs.len(),
        run(inputs.take(k)).0 is Voting,
        inputs[k].event is VoteFailed,
    ensures
        run(inputs).0 == State::Stopped(ExitReason::VoteLoop),
        ExitReason::VoteLoop.status() == 3,
        run(inputs).1 == run(inputs.take(k)).1.push(run(inputs).1.last()),
        run(inputs).1.last() matches Action::Abort(failure) && failure.reason()
            == ExitReason::VoteLoop,
        calls(run(inputs).1) == calls(run(inputs.take(k)).1),
{
    let (state, actions) = run(inputs.take(k));
    let (next, action) = transition(state, inputs[k].event, inputs[k].nap);
    lemma_run_unfolds(inputs, k);
    lemma_attempts_extended(actions, action);
    lemma_stopped_is_final(inputs, k + 1);
}

/// Once a name has selected a target, the client votes for that target and
/// no other: every procedure that it ever calls is the one bound to it.
pub proof fn lemma_only_the_selected_target_is_voted_for(
    inputs: Seq<Input>,
    k: int,
    target: TargetEmoji,
)
    requires
        0 <= k < inputs.len(),
        run(inputs.take(k)).0 == State::Resolving,
        inputs[k].event matches Event::Selector(Some(value)) && resolve(value@) == Some(target),
    ensures
        only(calls(run(inputs).1), target.bound_method()),
        run(inputs).0 == State::Voting(target) || run(inputs).0 == State::Napping(target)
            || run(inputs).0 == State::Stopped(ExitReason::VoteLoop),
    decreases inputs.len() - k,
{
    if k + 1 == inputs.len() {
        let (state, actions) = run(inputs.take(k));
        let (next, action) = transition(state, inputs[k].event, inputs[k].nap);
        lemma_run_is_consistent(inputs.take(k));
        lemma_run_unfolds(inputs, k);
        lemma_attempts_extended(actions, action);
        assert(inputs.take(k + 1) =~= inputs);
    } else {
        let shorter = inputs.drop_last();
        assert(shorter.take(k) =~= inputs.take(k));
        lemma_only_the_selected_target_is_voted_for(shorter, k, target);
        let (state, actions) = run(shorter);
        let (next, action) = transition(state, inputs.last().event, inputs.last().nap);
        lemma_attempts_extended(actions, action);
    }
}

/// Where every pause that is drawn lies in the range for pauses, so does
/// every pause that the client asks for.
pub proof fn lemma_every_nap_is_in_range(inputs: Seq<Input>)
    requires
        forall|i: int| 0 <= i < inputs.len() ==> is_nap(#[trigger] inputs[i].nap),
    ensures
        forall|j: int|
            0 <= j < run(inputs).1.len() ==> (#[trigger] run(inputs).1[j] matches Action::Nap {
                seconds,
                ..
            } ==> is_nap(seconds)),
    decreases inputs.len(),
{
    if inputs.len() > 0 {
        lemma_every_nap_is_in_range(inputs.drop_last());
    }
}

/// The services are connected to in their order, each at most once, and no
/// run ends as completed.
pub proof fn lemma_services_are_tried_in_order(inputs: Seq<Input>)
    ensures
        attempts(run(inputs).1).is_prefix_of(all_services()),
        run(inputs).0 != State::Stopped(ExitReason::Completed),
{
    lemma_run_is_consistent(inputs);
    assert(all_services().is_prefix_of(all_services()));
    assert(all_services().take(0).is_prefix_of(all_services()));
    assert(all_services().take(1).is_prefix_of(all_services()));
    assert(all_services().take(2).is_prefix_of(all_services()));
}

/// Whether `actions` hold no failure.
pub open spec fn unbroken(actions: Seq<Action>) -> bool {
    forall|j: int| 0 <= j < actions.len() ==> !(#[trigger] actions[j] is Abort)
}

/// A failure is handed out at most once, as the last thing that the client
/// asks for, and the client has stopped exactly when it has handed one out;
/// the reason it stopped with is then the reason of that failure.
pub proof fn lemma_failure_is_the_last_action(inputs: Seq<Input>)
    ensures
        run(inputs).1.len() > 0,
        unbroken(run(inputs).1.drop_last()),
        match run(inputs).0 {
            State::Stopped(reason) => run(inputs).1.last() matches Action::Abort(failure)
                && failure.reason() == reason,
            _ => !(run(inputs).1.last() is Abort),
        },
    decreases inputs.len(),
{
    if inputs.len() == 0 {
        assert(run(inputs).1.drop_last() =~= Seq::<Action>::empty());
    } else {
        lemma_failure_is_the_last_action(inputs.drop_last());
        let (state, actions) = run(inputs.drop_last());
        let (next, action) = transition(state, inputs.last().event, inputs.last().nap);
        if action is Some {
            assert(actions.push(action->Some_0).drop_last() =~= actions);
            assert forall|j: int| 0 <= j < actions.len() implies !(#[trigger] actions[j]
                is Abort) by {
                if j < actions.len() - 1 {
                    assert(actions.drop_last()[j] == actions[j]);
                }
            }
        }
    }
}

} // verus!
