//! The run dispatcher as a state machine: at most one background run is in
//! flight, a trigger while one is running changes nothing, and a poll that
//! sees the run finished returns the dispatcher to idle.
use vstd::prelude::*;

verus! {

/// Whether a background run is in flight.
#[derive(Clone, Copy, Debug, PartialEq, Eq, Structural)]
pub enum RunState {
    Idle,
    Running,
}

/// What the dispatcher reacts to: the user triggers a run, whose tokens the
/// schema's parser accepted or refused; or the host polls the run, which has
/// or has not finished.
pub enum RunEvent {
    Trigger { valid: bool },
    Poll { finished: bool },
}

/// The state after `e` in state `s`.
pub open spec fn next_state(s: RunState, e: RunEvent) -> RunState {
    match e {
        RunEvent::Trigger { valid } => if s == RunState::Idle && valid {
            RunState::Running
        } else {
            s
        },
        RunEvent::Poll { finished } => if finished {
            RunState::Idle
        } else {
            s
        },
    }
}

/// Whether `e` in state `s` starts a background run.
pub open spec fn spawns(s: RunState, e: RunEvent) -> bool {
    match e {
        RunEvent::Trigger { valid } => s == RunState::Idle && valid,
        RunEvent::Poll { .. } => false,
    }
}

/// Whether `e` in state `s` observes the end of the run in flight.
pub open spec fn retires(s: RunState, e: RunEvent) -> bool {
    match e {
        RunEvent::Trigger { .. } => false,
        RunEvent::Poll { finished } => s == RunState::Running && finished,
    }
}

/// How many runs state `s` has in flight.
pub open spec fn live(s: RunState) -> nat {
    if s == RunState::Running {
        1
    } else {
        0
    }
}

/// The state after the events `evs`, from state `s`.
pub open spec fn state_after(s: RunState, evs: Seq<RunEvent>) -> RunState
    decreases evs.len(),
{
    if evs.len() == 0 {
        s
    } else {
        next_state(state_after(s, evs.drop_last()), evs.last())
    }
}

/// How many runs the events `evs` start, from state `s`.
pub open spec fn spawn_count(s: RunState, evs: Seq<RunEvent>) -> nat
    decreases evs.len(),
{
    if evs.len() == 0 {
        0
    } else {
        let before = state_after(s, evs.drop_last());
        spawn_count(s, evs.drop_last()) + if spawns(before, evs.last()) {
            1nat
        } else {
            0nat
        }
    }
}

/// How many ends of runs the events `evs` observe, from state `s`.
pub open spec fn retire_count(s: RunState, evs: Seq<RunEvent>) -> nat
    decreases evs.len(),
{
    if evs.len() == 0 {
        0
    } else {
        let before = state_after(s, evs.drop_last());
        retire_count(s, evs.drop_last()) + if retires(before, evs.last()) {
            1nat
        } else {
            0nat
        }
    }
}

/// At most one run is ever in flight: over any sequence of triggers and
/// polls, the runs in flight at the start plus those started, less those
/// seen to end, are the runs of the final state, and never more than one.
/// A trigger while a run is in flight starts nothing and changes nothing.
pub proof fn lemma_at_most_one_run(s: RunState, evs: Seq<RunEvent>)
    ensures
        live(s) + spawn_count(s, evs) == retire_count(s, evs) + live(state_after(s, evs)),
        live(s) + spawn_count(s, evs) <= retire_count(s, evs) + 1,
        forall|e: RunEvent|
            e is Trigger ==> #[trigger] next_state(RunState::Running, e) == RunState::Running
                && !spawns(RunState::Running, e),
    decreases evs.len(),
{
    if evs.len() > 0 {
        lemma_at_most_one_run(s, evs.drop_last());
    }
}

/// Once the run has finished, one poll returns the dispatcher to idle, and
/// polls before that leave a running dispatcher running.
pub proof fn lemma_poll_converges(s: RunState)
    ensures
        next_state(s, RunEvent::Poll { finished: true }) == RunState::Idle,
        next_state(s, RunEvent::Poll { finished: false }) == s,
        state_after(s, seq![RunEvent::Poll { finished: true }]) == RunState::Idle,
{
    let evs = seq![RunEvent::Poll { finished: true }];
    assert(evs.drop_last() =~= Seq::<RunEvent>::empty());
}

} // verus!
