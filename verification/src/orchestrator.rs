//! The subscription loop as a state machine: from the current state and what
//! the outside world reported to the next state and what to do next. Per-slot
//! work is handed off and never reported back into the loop's decisions.

use crate::error::AggregatorError;
use vstd::prelude::*;

verus! {

/// How many slot notifications one run takes unless told otherwise.
pub const MAX_ITERATIONS: u32 = 100;

/// Where the subscription loop stands.
#[derive(Debug, Clone, Copy, PartialEq, Eq, Structural)]
pub enum Phase {
    /// Not yet subscribed.
    Idle,
    /// Subscribed and taking notifications.
    Subscribed,
    /// The loop has ended; handed-off work may still be running.
    Terminated,
}

/// What the outside world reported.
#[derive(Debug, Clone, Copy, PartialEq, Eq, Structural)]
pub enum Event {
    /// The notification channel could not be opened.
    ChannelFailed,
    /// The channel is open but the subscription was refused.
    SubscribeFailed,
    /// The subscription is established.
    Subscribed,
    /// A new root slot was announced.
    Slot(u64),
    /// The stream yielded nothing on this turn.
    Silence,
    /// A handed-off per-slot task ended, well or not.
    TaskEnded { failed: bool },
}

/// What the loop does after a step, once any spawn is done.
#[derive(Debug, Clone, Copy, PartialEq, Eq, Structural)]
pub enum Next {
    /// Wait for the next notification.
    Await,
    /// Unsubscribe explicitly and end successfully.
    Unsubscribe,
    /// End with this error, before any notification was taken.
    Fail(AggregatorError),
    /// Nothing: the event does not concern the loop in this state.
    Nothing,
}

/// The decision of one step.
#[derive(Debug, Clone, Copy, PartialEq, Eq, Structural)]
pub struct Step {
    /// The slot to hand to a new independent task, if any.
    pub spawn: Option<u64>,
    /// What follows.
    pub next: Next,
}

/// The loop's state.
#[derive(Debug, Clone, Copy, PartialEq, Eq, Structural)]
pub struct Orchestrator {
    /// Where the loop stands.
    pub phase: Phase,
    /// How many turns the run takes at most.
    pub cap: u32,
    /// How many turns were taken.
    pub taken: u32,
    /// How many per-slot tasks were spawned.
    pub spawned: u32,
}

impl Orchestrator {
    /// The counters are consistent, and a subscribed loop has turns left.
    pub open spec fn wf(self) -> bool {
        &&& self.spawned <= self.taken <= self.cap
        &&& self.phase == Phase::Subscribed ==> self.taken < self.cap
        &&& self.phase == Phase::Idle ==> self.taken == 0
    }

    /// The state after one taken turn.
    pub open spec fn after_turn(self, spawned: bool) -> Orchestrator {
        Orchestrator {
            phase: if self.taken + 1 == self.cap {
                Phase::Terminated
            } else {
                Phase::Subscribed
            },
            cap: self.cap,
            taken: (self.taken + 1) as u32,
            spawned: if spawned {
                (self.spawned + 1) as u32
            } else {
                self.spawned
            },
        }
    }

    /// What follows a taken turn.
    pub open spec fn next_after_turn(self) -> Next {
        if self.taken + 1 == self.cap {
            Next::Unsubscribe
        } else {
            Next::Await
        }
    }

    /// The transition function: the state and decision that follow `event`.
    pub open spec fn spec_step(self, event: Event) -> (Orchestrator, Step) {
        match (self.phase, event) {
            (Phase::Idle, Event::ChannelFailed) => (
                Orchestrator { phase: Phase::Terminated, ..self },
                Step { spawn: None, next: Next::Fail(AggregatorError::PubsubClientError) },
            ),
            (Phase::Idle, Event::SubscribeFailed) => (
                Orchestrator { phase: Phase::Terminated, ..self },
                Step { spawn: None, next: Next::Fail(AggregatorError::SlotSubscribeError) },
            ),
            (Phase::Idle, Event::Subscribed) => if self.cap == 0 {
                (
                    Orchestrator { phase: Phase::Terminated, ..self },
                    Step { spawn: None, next: Next::Unsubscribe },
                )
            } else {
                (
                    Orchestrator { phase: Phase::Subscribed, ..self },
                    Step { spawn: None, next: Next::Await },
                )
            },
            (Phase::Subscribed, Event::Slot(slot)) => (
                self.after_turn(true),
                Step { spawn: Some(slot), next: self.next_after_turn() },
            ),
            (Phase::Subscribed, Event::Silence) => (
                self.after_turn(false),
                Step { spawn: None, next: self.next_after_turn() },
            ),
            _ => (self, Step { spawn: None, next: Next::Nothing }),
        }
    }

    /// The state after a sequence of events.
    pub open spec fn run(self, events: Seq<Event>) -> Orchestrator
        decreases events.len(),
    {
        if events.len() == 0 {
            self
        } else {
            self.spec_step(events[0]).0.run(events.drop_first())
        }
    }

    /// An idle loop that will take at most `cap` turns.
    pub fn new(cap: u32) -> (o: Orchestrator)
        ensures
            o == (Orchestrator { phase: Phase::Idle, cap, taken: 0, spawned: 0 }),
            o.wf(),
    {
        Orchestrator { phase: Phase::Idle, cap, taken: 0, spawned: 0 }
    }

    /// Whether the state is well formed.
    pub fn is_wf(&self) -> (r: bool)
        ensures
            r == self.wf(),
    {
        self.spawned <= self.taken && self.taken <= self.cap && (match self.phase {
            Phase::Idle => self.taken == 0,
            Phase::Subscribed => self.taken < self.cap,
            Phase::Terminated => true,
        })
    }

    /// Takes one event: moves to the next state and says what to do.
    pub fn step(&mut self, event: Event) -> (step: Step)
        requires
            old(self).wf(),
        ensures
            (*final(self), step) == old(self).spec_step(event),
            final(self).wf(),
    {
        match (self.phase, event) {
            (Phase::Idle, Event::ChannelFailed) => {
                self.phase = Phase::Terminated;
                Step { spawn: None, next: Next::Fail(AggregatorError::PubsubClientError) }
            },
            (Phase::Idle, Event::SubscribeFailed) => {
                self.phase = Phase::Terminated;
                Step { spawn: None, next: Next::Fail(AggregatorError::SlotSubscribeError) }
            },
            (Phase::Idle, Event::Subscribed) => {
                if self.cap == 0 {
                    self.phase = Phase::Terminated;
                    Step { spawn: None, next: Next::Unsubscribe }
                } else {
                    self.phase = Phase::Subscribed;
                    Step { spawn: None, next: Next::Await }
                }
            },
            (Phase::Subscribed, Event::Slot(slot)) => {
                self.spawned = self.spawned + 1;
                let next = self.take_turn();
                Step { spawn: Some(slot), next }
            },
            (Phase::Subscribed, Event::Silence) => {
                let next = self.take_turn();
                Step { spawn: None, next }
            },
            _ => Step { spawn: None, next: Next::Nothing },
        }
    }

    /// Counts one turn of a subscribed loop and ends the loop at the cap.
    fn take_turn(&mut self) -> (next: Next)
        requires
            old(self).phase == Phase::Subscribed,
            old(self).taken < old(self).cap,
        ensures
            final(self).taken == old(self).taken + 1,
            final(self).cap == old(self).cap,
            final(self).spawned == old(self).spawned,
            final(self).phase == (if old(self).taken + 1 == old(self).cap {
                Phase::Terminated
            } else {
                Phase::Subscribed
            }),
            next == (if old(self).taken + 1 == old(self).cap {
                Next::Unsubscribe
            } else {
                Next::Await
            }),
    {
        self.taken = self.taken + 1;
        if self.taken == self.cap {
            self.phase = Phase::Terminated;
            Next::Unsubscribe
        } else {
            Next::Await
        }
    }
}

/// How many of the events announce a slot.
pub open spec fn slot_count(events: Seq<Event>) -> nat
    decreases events.len(),
{
    if events.len() == 0 {
        0
    } else {
        (if events[0] is Slot {
            1nat
        } else {
            0nat
        }) + slot_count(events.drop_first())
    }
}

/// Whether every event announces a slot or reports the end of a task.
pub open spec fn only_slots_and_task_ends(events: Seq<Event>) -> bool {
    forall|i: int| 0 <= i < events.len() ==> (#[trigger] events[i]) is Slot || events[i] is TaskEnded
}

/// Every step keeps the state well formed.
pub proof fn step_preserves_wf(o: Orchestrator, event: Event)
    requires
        o.wf(),
    ensures
        o.spec_step(event).0.wf(),
        o.spec_step(event).0.cap == o.cap,
{
}

/// The end of a per-slot task, failed or not, changes nothing in the loop:
/// no state change, no spawn, nothing to do.
pub proof fn task_end_is_ignored(o: Orchestrator, failed: bool)
    ensures
        o.spec_step(Event::TaskEnded { failed }) == (o, Step { spawn: None, next: Next::Nothing }),
{
}

/// A subscribed loop that is fed slot announcements, with reports of ended
/// tasks interleaved in any number and with any outcome, spawns exactly one
/// task per announcement as long as the announcements do not exceed the turns
/// left; it is terminated exactly when they use the turns up.
pub proof fn spawns_one_task_per_slot(o: Orchestrator, events: Seq<Event>)
    requires
        o.wf(),
        o.phase == Phase::Subscribed,
        only_slots_and_task_ends(events),
        slot_count(events) <= o.cap - o.taken,
    ensures
        o.run(events).wf(),
        o.run(events).cap == o.cap,
        o.run(events).spawned == o.spawned + slot_count(events),
        o.run(events).taken == o.taken + slot_count(events),
        o.run(events).phase == (if slot_count(events) == o.cap - o.taken {
            Phase::Terminated
        } else {
            Phase::Subscribed
        }),
    decreases events.len(),
{
    if events.len() > 0 {
        let rest = events.drop_first();
        let after = o.spec_step(events[0]).0;
        assert(events[0] is Slot || events[0] is TaskEnded);
        assert(only_slots_and_task_ends(rest)) by {
            assert forall|i: int| 0 <= i < rest.len() implies (#[trigger] rest[i]) is Slot
                || rest[i] is TaskEnded by {
                assert(rest[i] == events[i + 1]);
            }
        }
        if after.phase == Phase::Subscribed {
            spawns_one_task_per_slot(after, rest);
        } else {
            terminated_stays(after, rest);
            assert(slot_count(rest) == 0);
        }
    }
}

/// A terminated loop takes no further turn and spawns nothing, whatever arrives.
pub proof fn terminated_stays(o: Orchestrator, events: Seq<Event>)
    requires
        o.phase == Phase::Terminated,
    ensures
        o.run(events) == o,
    decreases events.len(),
{
    if events.len() > 0 {
        terminated_stays(o, events.drop_first());
    }
}

/// A run capped at `cap` turns that is subscribed and then receives exactly
/// `cap` slot announcements spawns exactly `cap` tasks and is terminated,
/// however many of those tasks are reported as failed in between.
pub proof fn cap_bounds_spawned_tasks(cap: u32, events: Seq<Event>)
    requires
        cap > 0,
        only_slots_and_task_ends(events),
        slot_count(events) == cap,
    ensures
        (Orchestrator { phase: Phase::Idle, cap, taken: 0, spawned: 0 }).run(
            seq![Event::Subscribed] + events,
        ).spawned == cap,
        (Orchestrator { phase: Phase::Idle, cap, taken: 0, spawned: 0 }).run(
            seq![Event::Subscribed] + events,
        ).phase == Phase::Terminated,
{
    let idle = Orchestrator { phase: Phase::Idle, cap, taken: 0, spawned: 0 };
    let all = seq![Event::Subscribed] + events;
    let subscribed = idle.spec_step(Event::Subscribed).0;
    assert(all[0] == Event::Subscribed);
    assert(all.drop_first() =~= events);
    assert(idle.run(all) == subscribed.run(events));
    spawns_one_task_per_slot(subscribed, events);
}

} // verus!
