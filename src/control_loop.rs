//! The decisions of the stabilization loop, one event at a time. Receiving
//! samples, running the attitude estimator and publishing the motor commands
//! are left to the caller, which hands each outcome to `handle`.

use vstd::prelude::*;
use crate::algorithm::{control_cycle, cycle_output, forces_within, Coords, MotorForces, Orientation, StabilizerConfig};

verus! {

/// What happened while the loop waited for its next sample.
#[derive(Clone, Copy, Debug, PartialEq, Eq, Structural)]
pub enum LoopEvent {
    /// A sample arrived and the estimator turned it into an attitude estimate;
    /// `rate` is the sample's measured angular rate.
    Sample { estimate: Orientation, rate: Coords },
    /// A sample arrived and was dropped before it could reach the estimator's
    /// state (a non-finite reading, or one the estimator cannot use).
    Rejected,
    /// The inbound channel was closed with no sender left.
    Closed,
}

/// What the loop does in answer to an event.
#[derive(Clone, Copy, Debug, PartialEq, Eq, Structural)]
pub enum LoopAction {
    /// Send these motor commands on the outbound channel.
    Publish(MotorForces),
    /// Send nothing and wait for the next sample.
    Wait,
    /// Leave the loop.
    Stop,
}

/// The stabilization loop: its fixed configuration and whether it still runs.
#[derive(Clone, Copy, Debug, PartialEq, Eq, Structural)]
pub struct StabilizationLoop {
    pub config: StabilizerConfig,
    pub running: bool,
}

/// One transition: the state after `event` and the action taken.
pub open spec fn step(s: StabilizationLoop, event: LoopEvent) -> (StabilizationLoop, LoopAction) {
    if !s.running {
        (s, LoopAction::Stop)
    } else {
        match event {
            LoopEvent::Sample { estimate, rate } => (
                s,
                LoopAction::Publish(cycle_output(s.config, estimate, rate)),
            ),
            LoopEvent::Rejected => (s, LoopAction::Wait),
            LoopEvent::Closed => (StabilizationLoop { running: false, ..s }, LoopAction::Stop),
        }
    }
}

/// The motor commands published, in order, while the loop handles `events`
/// one after the other from state `s`.
pub open spec fn published(s: StabilizationLoop, events: Seq<LoopEvent>) -> Seq<MotorForces>
    decreases events.len(),
{
    if events.len() == 0 {
        Seq::empty()
    } else {
        let (next, action) = step(s, events[0]);
        let rest = published(next, events.drop_first());
        match action {
            LoopAction::Publish(f) => seq![f] + rest,
            _ => rest,
        }
    }
}

/// Every event of `events` is a sample that reached the estimator.
pub open spec fn all_samples(events: Seq<LoopEvent>) -> bool {
    forall|i: int| 0 <= i < events.len() ==> (#[trigger] events[i]) is Sample
}

impl StabilizationLoop {
    /// A running loop with the given configuration.
    pub fn new(config: StabilizerConfig) -> (r: StabilizationLoop)
        ensures
            r.config == config,
            r.running,
    {
        StabilizationLoop { config, running: true }
    }

    /// Handles one event: a sample gives one control cycle whose commands are
    /// published, a rejected sample changes nothing, and a closed channel
    /// stops the loop for good.
    pub fn handle(&mut self, event: LoopEvent) -> (r: LoopAction)
        ensures
            (*final(self), r) == step(*old(self), event),
            old(self).config.wf() ==> match r {
                LoopAction::Publish(f) => forces_within(
                    f,
                    old(self).config.min_thrust as int,
                    old(self).config.max_thrust as int,
                ),
                _ => true,
            },
    {
        if !self.running {
            return LoopAction::Stop;
        }
        match event {
            LoopEvent::Sample { estimate, rate } => {
                LoopAction::Publish(control_cycle(&self.config, &estimate, &rate))
            },
            LoopEvent::Rejected => LoopAction::Wait,
            LoopEvent::Closed => {
                self.running = false;
                LoopAction::Stop
            },
        }
    }
}

/// A running loop fed only samples publishes exactly one set of motor
/// commands per sample, in the order the samples came, each computed from its
/// own sample alone.
pub proof fn lemma_publish_in_order(s: StabilizationLoop, events: Seq<LoopEvent>)
    requires
        s.running,
        all_samples(events),
    ensures
        published(s, events).len() == events.len(),
        forall|i: int|
            0 <= i < events.len() ==> match #[trigger] events[i] {
                LoopEvent::Sample { estimate, rate } => published(s, events)[i] == cycle_output(
                    s.config,
                    estimate,
                    rate,
                ),
                _ => false,
            },
    decreases events.len(),
{
    if events.len() > 0 {
        let rest = events.drop_first();
        assert(events[0] is Sample);
        assert forall|i: int| 0 <= i < rest.len() implies (#[trigger] rest[i]) is Sample by {
            assert(rest[i] == events[i + 1]);
        }
        lemma_publish_in_order(s, rest);
        assert forall|i: int|
            0 <= i < events.len() implies match #[trigger] events[i] {
                LoopEvent::Sample { estimate, rate } => published(s, events)[i] == cycle_output(
                    s.config,
                    estimate,
                    rate,
                ),
                _ => false,
            } by {
            if i > 0 {
                assert(events[i] == rest[i - 1]);
            }
        }
    }
}

/// Two loops in the same state, fed the same events, publish the same
/// commands in the same order.
pub proof fn lemma_loop_deterministic(
    s1: StabilizationLoop,
    s2: StabilizationLoop,
    events1: Seq<LoopEvent>,
    events2: Seq<LoopEvent>,
)
    requires
        s1 == s2,
        events1 == events2,
    ensures
        published(s1, events1) == published(s2, events2),
{
}

/// Once the inbound channel has closed, nothing more is published.
pub proof fn lemma_closed_is_final(s: StabilizationLoop, events: Seq<LoopEvent>)
    ensures
        published(step(s, LoopEvent::Closed).0, events) == Seq::<MotorForces>::empty(),
    decreases events.len(),
{
    if events.len() > 0 {
        lemma_closed_is_final(s, events.drop_first());
    }
}

} // verus!
