//! The render loop as a state machine. The caller waits for a notification
//! for at most [`UPDATE_TIMEOUT_SECS`], hands what happened to the machine as
//! an event, and does what the machine answers.
//!
//! The policy is render-after-silence: a render is due only when a wait
//! timed out while data was pending. Every notification starts a new wait,
//! so a burst of notifications is rendered once, after the channel has been
//! silent for a whole wait, and notifications that keep arriving faster
//! than that put the render off. Nothing is rendered after shutdown, not
//! even data that is still pending.

use vstd::prelude::*;
use crate::status::{RenderOutcome, SpaceStatus, apply_all};

verus! {

/// How long the render loop waits for a notification, in seconds.
pub const UPDATE_TIMEOUT_SECS: u64 = 2;

/// How many notifications the channel to the render loop holds.
pub const NOTIFICATION_CAPACITY: usize = 32;

/// The state of the render loop.
#[derive(Clone, Copy, Debug, PartialEq, Eq, Structural)]
pub enum RenderLoop {
    /// Nothing has arrived since the last render.
    Quiet,
    /// A notification has arrived since the last render.
    Pending,
    /// Shutdown was observed: the loop has ended.
    Stopped,
}

/// What the render loop observed.
#[derive(Clone, Copy, Debug, PartialEq, Eq, Structural)]
pub enum LoopEvent {
    /// A notification arrived before the wait ran out.
    Notified,
    /// The wait ran out, or the channel has no sender left.
    TimedOut,
    /// The shutdown signal has fired.
    Shutdown,
}

/// What the render loop has to do next.
#[derive(Clone, Copy, Debug, PartialEq, Eq, Structural)]
pub enum LoopAction {
    /// Wait again.
    Wait,
    /// Render, then wait again.
    Render,
    /// Leave the loop.
    Stop,
}

/// The state after an event.
pub open spec fn next_state(state: RenderLoop, event: LoopEvent) -> RenderLoop {
    match (state, event) {
        (RenderLoop::Stopped, _) => RenderLoop::Stopped,
        (_, LoopEvent::Shutdown) => RenderLoop::Stopped,
        (_, LoopEvent::Notified) => RenderLoop::Pending,
        (_, LoopEvent::TimedOut) => RenderLoop::Quiet,
    }
}

/// The action that an event calls for.
pub open spec fn action_for(state: RenderLoop, event: LoopEvent) -> LoopAction {
    match (state, event) {
        (RenderLoop::Stopped, _) => LoopAction::Stop,
        (_, LoopEvent::Shutdown) => LoopAction::Stop,
        (RenderLoop::Pending, LoopEvent::TimedOut) => LoopAction::Render,
        _ => LoopAction::Wait,
    }
}

/// The state after a run of events.
pub open spec fn run(state: RenderLoop, events: Seq<LoopEvent>) -> RenderLoop
    decreases events.len(),
{
    if events.len() == 0 {
        state
    } else {
        next_state(run(state, events.drop_last()), events.last())
    }
}

/// How many renders a run of events calls for.
pub open spec fn renders(state: RenderLoop, events: Seq<LoopEvent>) -> nat
    decreases events.len(),
{
    if events.len() == 0 {
        0
    } else {
        let before = renders(state, events.drop_last());
        if action_for(run(state, events.drop_last()), events.last()) == LoopAction::Render {
            before + 1
        } else {
            before
        }
    }
}

/// A burst of `n` notifications.
pub open spec fn burst(n: nat) -> Seq<LoopEvent> {
    Seq::new(n, |i: int| LoopEvent::Notified)
}

impl RenderLoop {
    /// The loop before anything has arrived.
    pub fn new() -> (r: RenderLoop)
        ensures
            r == RenderLoop::Quiet,
    {
        RenderLoop::Quiet
    }

    /// Takes an event: moves to the next state and says what to do.
    pub fn step(&mut self, event: LoopEvent) -> (action: LoopAction)
        ensures
            *final(self) == next_state(*old(self), event),
            action == action_for(*old(self), event),
    {
        let state = *self;
        match state {
            RenderLoop::Stopped => LoopAction::Stop,
            RenderLoop::Quiet => match event {
                LoopEvent::Shutdown => {
                    *self = RenderLoop::Stopped;
                    LoopAction::Stop
                },
                LoopEvent::Notified => {
                    *self = RenderLoop::Pending;
                    LoopAction::Wait
                },
                LoopEvent::TimedOut => LoopAction::Wait,
            },
            RenderLoop::Pending => match event {
                LoopEvent::Shutdown => {
                    *self = RenderLoop::Stopped;
                    LoopAction::Stop
                },
                LoopEvent::Notified => LoopAction::Wait,
                LoopEvent::TimedOut => {
                    *self = RenderLoop::Quiet;
                    LoopAction::Render
                },
            },
        }
    }

    /// Takes an event and, where it calls for a render, runs the render
    /// pass on the aggregator. In every other case the aggregator is left
    /// as it is.
    pub fn drive(&mut self, status: &mut SpaceStatus, event: LoopEvent) -> (r: (
        LoopAction,
        Option<RenderOutcome>,
    ))
        ensures
            *final(self) == next_state(*old(self), event),
            r.0 == action_for(*old(self), event),
            final(status).base_view() == old(status).base_view(),
            final(status).mutator_views() == old(status).mutator_views(),
            old(status).wf() ==> final(status).wf(),
            r.0 == LoopAction::Render ==> final(status).rendered_view() == apply_all(
                old(status).mutator_views(),
                old(status).base_view(),
            ) && r.1 == Some(
                RenderOutcome {
                    state_changed: final(status).rendered_view().state != old(
                        status,
                    ).rendered_view().state,
                    document_changed: final(status).rendered_view() != old(status).rendered_view(),
                },
            ),
            r.0 != LoopAction::Render ==> final(status).rendered_view() == old(
                status,
            ).rendered_view() && r.1 is None,
    {
        let action = self.step(event);
        match action {
            LoopAction::Render => {
                let outcome = status.update_from_mutators();
                (action, Some(outcome))
            },
            _ => (action, None),
        }
    }
}

/// Whether the exit of a task has to bring the whole process down: a task
/// failed although no shutdown had been requested.
pub fn escalates(task_failed: bool, shutdown_requested: bool) -> (r: bool)
    ensures
        r == (task_failed && !shutdown_requested),
{
    task_failed && !shutdown_requested
}

/// A burst of notifications calls for no render, and leaves data pending.
pub proof fn lemma_burst_renders_nothing(state: RenderLoop, n: nat)
    requires
        state != RenderLoop::Stopped,
    ensures
        renders(state, burst(n)) == 0,
        n > 0 ==> run(state, burst(n)) == RenderLoop::Pending,
        n == 0 ==> run(state, burst(n)) == state,
    decreases n,
{
    if n > 0 {
        lemma_burst_renders_nothing(state, (n - 1) as nat);
        assert(burst(n).drop_last() =~= burst((n - 1) as nat));
    }
}

/// Debounce: however many notifications arrive before a wait runs out,
/// the burst and the timeout that ends it call for exactly one render, and
/// the loop is quiet again afterwards.
pub proof fn lemma_burst_renders_once(state: RenderLoop, n: nat)
    requires
        state != RenderLoop::Stopped,
        n > 0,
    ensures
        renders(state, burst(n).push(LoopEvent::TimedOut)) == 1,
        run(state, burst(n).push(LoopEvent::TimedOut)) == RenderLoop::Quiet,
{
    lemma_burst_renders_nothing(state, n);
    let events = burst(n).push(LoopEvent::TimedOut);
    assert(events.drop_last() =~= burst(n));
}

/// Once the loop has stopped, no run of events calls for a render, and the
/// loop stays stopped.
pub proof fn lemma_stopped_never_renders(events: Seq<LoopEvent>)
    ensures
        renders(RenderLoop::Stopped, events) == 0,
        run(RenderLoop::Stopped, events) == RenderLoop::Stopped,
    decreases events.len(),
{
    if events.len() > 0 {
        lemma_stopped_never_renders(events.drop_last());
    }
}

/// Shutdown is final: whatever the state in which the signal is observed
/// and whatever arrives afterwards, no render is called for.
pub proof fn lemma_no_render_after_shutdown(state: RenderLoop, events: Seq<LoopEvent>)
    ensures
        action_for(state, LoopEvent::Shutdown) == LoopAction::Stop,
        renders(next_state(state, LoopEvent::Shutdown), events) == 0,
        run(next_state(state, LoopEvent::Shutdown), events) == RenderLoop::Stopped,
{
    lemma_stopped_never_renders(events);
}

} // verus!
