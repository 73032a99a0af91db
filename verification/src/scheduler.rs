//! The refresh scheduler: a two-state machine driven by timer ticks and
//! fetch completions. The surrounding task performs the actions it asks for
//! (start a fetch, apply its outcome) and feeds the resulting events back.

use vstd::prelude::*;

use crate::registry::Registry;
use crate::remote::refresh_keepers;
use crate::remote::FetchError;
use crate::remote::KeeperSnapshot;

verus! {

/// Where the scheduler stands between events.
#[derive(Debug, PartialEq, Eq, Structural, Clone, Copy)]
pub enum SchedulerState {
    /// Waiting for the next timer tick.
    Idle,
    /// A fetch is in flight; ticks are delayed until it completes.
    Refreshing,
}

/// What the scheduler learns from outside: the interval timer expired, or
/// the fetch in flight came back with its outcome.
pub enum SchedulerEvent {
    Tick,
    FetchCompleted(Result<KeeperSnapshot, FetchError>),
}

/// What the scheduler asks its surrounding task to do next.
pub enum SchedulerAction {
    /// Issue one fetch against the upstream authority.
    StartFetch,
    /// Replace the registry contents with the fetched snapshot.
    ApplySnapshot(KeeperSnapshot),
    /// Log the failed fetch and keep the registry as it is.
    RecordFailure(FetchError),
    /// Nothing to do until the next event.
    Wait,
}

/// The transition relation of the scheduler. A fetch is started exactly on a
/// tick received while idle; a completed fetch returns the machine to idle
/// whatever its outcome, so a failure neither skips nor shortens the next
/// interval; a tick during a fetch in flight is simply delayed.
pub open spec fn spec_step(state: SchedulerState, event: SchedulerEvent) -> (
    SchedulerState,
    SchedulerAction,
) {
    match (state, event) {
        (SchedulerState::Idle, SchedulerEvent::Tick) => (
            SchedulerState::Refreshing,
            SchedulerAction::StartFetch,
        ),
        (SchedulerState::Refreshing, SchedulerEvent::FetchCompleted(outcome)) => (
            SchedulerState::Idle,
            match outcome {
                Ok(snapshot) => SchedulerAction::ApplySnapshot(snapshot),
                Err(error) => SchedulerAction::RecordFailure(error),
            },
        ),
        (SchedulerState::Refreshing, SchedulerEvent::Tick) => (
            SchedulerState::Refreshing,
            SchedulerAction::Wait,
        ),
        (SchedulerState::Idle, SchedulerEvent::FetchCompleted(_)) => (
            SchedulerState::Idle,
            SchedulerAction::Wait,
        ),
    }
}

/// Advances the scheduler by one event and says what to do next.
pub fn step(state: SchedulerState, event: SchedulerEvent) -> (r: (
    SchedulerState,
    SchedulerAction,
))
    ensures
        r == spec_step(state, event),
{
    match (state, event) {
        (SchedulerState::Idle, SchedulerEvent::Tick) => (
            SchedulerState::Refreshing,
            SchedulerAction::StartFetch,
        ),
        (SchedulerState::Refreshing, SchedulerEvent::FetchCompleted(outcome)) => (
            SchedulerState::Idle,
            match outcome {
                Ok(snapshot) => SchedulerAction::ApplySnapshot(snapshot),
                Err(error) => SchedulerAction::RecordFailure(error),
            },
        ),
        (SchedulerState::Refreshing, SchedulerEvent::Tick) => (
            SchedulerState::Refreshing,
            SchedulerAction::Wait,
        ),
        (SchedulerState::Idle, SchedulerEvent::FetchCompleted(_)) => (
            SchedulerState::Idle,
            SchedulerAction::Wait,
        ),
    }
}

/// Performs a scheduler action on the registry. Only a fetched snapshot
/// changes the contents, and it replaces them exactly; every other action
/// leaves the registry as it was.
pub fn perform(registry: &mut Registry, action: SchedulerAction)
    ensures
        match action {
            SchedulerAction::ApplySnapshot(snapshot) => final(registry)@ == snapshot.records@,
            _ => final(registry)@ == old(registry)@,
        },
{
    match action {
        SchedulerAction::ApplySnapshot(snapshot) => refresh_keepers(registry, Ok(snapshot)),
        SchedulerAction::RecordFailure(_) => (),
        SchedulerAction::StartFetch => (),
        SchedulerAction::Wait => (),
    }
}

/// Each interval tick taken while idle issues exactly one fetch, and the
/// completion of that fetch — success or failure alike — returns the
/// scheduler to idle, where the next tick issues exactly one fetch again. A
/// failed fetch therefore neither skips nor shortens the following interval.
pub proof fn lemma_one_fetch_per_tick(outcome: Result<KeeperSnapshot, FetchError>)
    ensures
        ({
            let (in_flight, first_action) = spec_step(SchedulerState::Idle, SchedulerEvent::Tick);
            let (settled, _) = spec_step(in_flight, SchedulerEvent::FetchCompleted(outcome));
            let (_, next_action) = spec_step(settled, SchedulerEvent::Tick);
            &&& first_action is StartFetch
            &&& settled == SchedulerState::Idle
            &&& next_action is StartFetch
        }),
{
}

/// A fetch is started only on a tick received while idle: no other
/// state/event pair issues one, so no tick issues more than one fetch.
pub proof fn lemma_fetch_only_on_idle_tick(state: SchedulerState, event: SchedulerEvent)
    ensures
        spec_step(state, event).1 is StartFetch <==> (state == SchedulerState::Idle
            && event is Tick),
{
}

} // verus!
