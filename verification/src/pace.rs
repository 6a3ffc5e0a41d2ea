//! How the event loop goes on, and how long it waits for input.

use vstd::prelude::*;
use vstd::view::View as _;

use crate::app::{App, AppView, Screen, View};

verus! {

/// Milliseconds to wait while something on screen is moving: a spinner, or a
/// background result that a tick has to pick up.
pub const ACTIVE_POLL: u64 = 100;

/// Milliseconds to wait when nothing is moving.
pub const IDLE_POLL: u64 = 750;

/// Milliseconds to wait once nobody has touched the application for a while.
pub const PARKED_POLL: u64 = 2000;

/// What the event loop does next.
#[derive(Clone, Copy, Debug, PartialEq, Eq, Structural)]
pub enum LoopStep {
    /// Leaves the loop.
    Stop,
    /// Handles an event that is already there, before anything is drawn.
    Dispatch,
    /// Ticks, draws, and then waits this many milliseconds for an event.
    Redraw { wait: u64 },
}

impl AppView {
    /// Whether something on screen is moving.
    pub open spec fn moving(self) -> bool {
        ||| self.view is Busy
        ||| match self.view {
            Screen::Creating(run) => !run.done,
            _ => false,
        }
        ||| match self.view {
            Screen::CommitDiff(b) => b.pending is Some,
            _ => false,
        }
        ||| self.changes.pending is Some
        ||| self.update_check is Some
    }

    /// What the event loop does next.
    pub open spec fn next_step(self, queued: bool, untouched: bool) -> LoopStep {
        if self.quit {
            LoopStep::Stop
        } else if queued {
            LoopStep::Dispatch
        } else {
            LoopStep::Redraw { wait: wait_of(self.moving(), untouched) }
        }
    }
}

/// How long to wait for input.
pub open spec fn wait_of(fast: bool, untouched: bool) -> u64 {
    if fast {
        ACTIVE_POLL
    } else if untouched {
        PARKED_POLL
    } else {
        IDLE_POLL
    }
}

impl App {
    /// Whether something on screen is moving, so that the loop must not wait
    /// long.
    pub fn needs_fast_tick(&self) -> (r: bool)
        ensures
            r == self@.moving(),
    {
        let shown = match &self.view {
            View::Busy { .. } => true,
            View::Creating { done, .. } => !*done,
            View::CommitDiff { pending, .. } => pending.is_some(),
            _ => false,
        };
        shown || self.changes.pending.is_some() || self.update_check.is_some()
    }

    /// What the event loop does next. `queued` says that an event is waiting,
    /// `untouched` that there has been none for a while.
    pub fn loop_step(&self, queued: bool, untouched: bool) -> (r: LoopStep)
        ensures
            r == self@.next_step(queued, untouched),
    {
        if self.quit {
            LoopStep::Stop
        } else if queued {
            LoopStep::Dispatch
        } else if self.needs_fast_tick() {
            LoopStep::Redraw { wait: ACTIVE_POLL }
        } else if untouched {
            LoopStep::Redraw { wait: PARKED_POLL }
        } else {
            LoopStep::Redraw { wait: IDLE_POLL }
        }
    }
}

/// Input that is already there is handled before anything is drawn, whatever
/// is moving.
pub proof fn queued_input_comes_first(a: AppView, untouched: bool)
    requires
        !a.quit,
    ensures
        a.next_step(true, untouched) == LoopStep::Dispatch,
{
}

} // verus!
