//! The abort guard: armed when a payload starts to propagate, disarmed only by a
//! successful catch, and fired when it is destroyed while still armed.
use vstd::prelude::*;

verus! {

/// Where an abort guard stands in its life.
#[derive(PartialEq, Eq, Structural, Clone, Copy, Debug)]
pub enum GuardState {
    /// Set at envelope construction.
    Armed,
    /// Released by the catch boundary after a legitimate recovery; terminal.
    Disarmed,
    /// Destroyed while armed: the process must terminate; terminal.
    Fired,
}

/// What can happen to a guard.
#[derive(PartialEq, Eq, Structural, Clone, Copy, Debug)]
pub enum GuardEvent {
    /// The successful catch path releases the guard.
    Disarm,
    /// The guard goes out of scope.
    Drop,
}

/// One transition of the guard's state machine.
pub open spec fn guard_step(s: GuardState, e: GuardEvent) -> GuardState {
    match (s, e) {
        (GuardState::Armed, GuardEvent::Disarm) => GuardState::Disarmed,
        (GuardState::Armed, GuardEvent::Drop) => GuardState::Fired,
        (s, _) => s,
    }
}

/// The state reached from `s` after the events `es`, in order.
pub open spec fn guard_run(s: GuardState, es: Seq<GuardEvent>) -> GuardState
    decreases es.len(),
{
    if es.len() == 0 {
        s
    } else {
        guard_run(guard_step(s, es[0]), es.drop_first())
    }
}

/// The guard embedded in every envelope.
pub struct DropGuard {
    pub state: GuardState,
}

impl DropGuard {
    /// A fresh guard, armed.
    pub fn armed() -> (g: DropGuard)
        ensures
            g.state == GuardState::Armed,
    {
        DropGuard { state: GuardState::Armed }
    }

    /// Releases the guard without firing it; only the successful catch path does this.
    pub fn disarm(&mut self)
        ensures
            final(self).state == guard_step(old(self).state, GuardEvent::Disarm),
    {
        if self.state == GuardState::Armed {
            self.state = GuardState::Disarmed;
        }
    }

    /// The guard goes out of scope. Returns whether it fired, in which case
    /// the process must terminate at once.
    pub fn release(&mut self) -> (fired: bool)
        ensures
            final(self).state == guard_step(old(self).state, GuardEvent::Drop),
            fired == (old(self).state == GuardState::Armed),
    {
        if self.state == GuardState::Armed {
            self.state = GuardState::Fired;
            true
        } else {
            false
        }
    }
}

/// A disarmed guard stays disarmed whatever happens to it afterwards: once a
/// payload has been recovered, no path can make its guard fire.
pub proof fn lemma_disarmed_never_fires(es: Seq<GuardEvent>)
    ensures
        guard_run(GuardState::Disarmed, es) == GuardState::Disarmed,
    decreases es.len(),
{
    if es.len() > 0 {
        lemma_disarmed_never_fires(es.drop_first());
    }
}

/// An armed guard that is dropped before it is disarmed fires, and stays fired.
pub proof fn lemma_dropped_armed_fires(es: Seq<GuardEvent>)
    requires
        es.len() > 0,
        es[0] == GuardEvent::Drop,
    ensures
        guard_run(GuardState::Armed, es) == GuardState::Fired,
    decreases es.len(),
{
    lemma_fired_stays(es.drop_first());
}

/// Firing is terminal.
pub proof fn lemma_fired_stays(es: Seq<GuardEvent>)
    ensures
        guard_run(GuardState::Fired, es) == GuardState::Fired,
    decreases es.len(),
{
    if es.len() > 0 {
        lemma_fired_stays(es.drop_first());
    }
}

} // verus!
