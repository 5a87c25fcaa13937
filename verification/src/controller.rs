//! The three-operation lifecycle of the tracker: start, query, stop.
//!
//! A `Controller` owns at most one running tracker at a time, mirroring the
//! rule that only one tracking session may exist in the process. Each
//! operation's outcome is fixed by a spec-level transition function, so the
//! engine's behaviour can be reasoned about purely at the specification
//! level.

use vstd::prelude::*;
use crate::event::InputEvent;
use crate::state::ActivityState;

verus! {

/// The caller-usage errors of the lifecycle API.
#[derive(Clone, Copy, PartialEq, Eq, Structural, Debug)]
pub enum TrackerError {
    /// `start` was called while a tracker already exists.
    AlreadyRunning,
    /// The activity status was queried with no tracker running.
    NotRunning,
}

/// One running tracking session: the shared activity record together with
/// the idle timeout the watchdog was configured with, in seconds.
#[derive(Clone, Copy, PartialEq, Eq, Structural, Debug)]
pub struct RunningTracker {
    /// The shared activity record.
    pub state: ActivityState,
    /// The configured idle timeout, in seconds; always at least one.
    pub timeout_secs: u64,
}

/// The lifecycle controller: the single slot that holds the running
/// tracker, if any.
#[derive(Clone, Copy, PartialEq, Eq, Structural, Debug)]
pub struct Controller {
    /// The running tracker, or `None` while stopped.
    pub tracker: Option<RunningTracker>,
}

/// The outcome of `start`: rejected if a tracker already runs, otherwise a
/// fresh session with no activity seen and the stamp at `now`.
pub open spec fn spec_start(c: Controller, timeout_secs: u64, now: u64) -> (Controller, Result<
    (),
    TrackerError,
>) {
    if c.running() {
        (c, Err(TrackerError::AlreadyRunning))
    } else {
        (
            Controller {
                tracker: Some(
                    RunningTracker { state: ActivityState::initial(now), timeout_secs },
                ),
            },
            Ok(()),
        )
    }
}

/// The outcome of `is_active`: the current flag of the running tracker, or
/// an error if none runs.
pub open spec fn spec_is_active(c: Controller) -> Result<bool, TrackerError> {
    if c.running() {
        Ok(c.current().state.active)
    } else {
        Err(TrackerError::NotRunning)
    }
}

/// The outcome of `stop`: the slot is empty afterwards, whatever it held.
pub open spec fn spec_stop(c: Controller) -> Controller {
    Controller { tracker: None }
}

/// The outcome of the listener recording one raw event at clock time `now`.
pub open spec fn spec_note_event(c: Controller, e: InputEvent, now: u64) -> Controller {
    if c.running() && e.qualifies() {
        Controller {
            tracker: Some(
                RunningTracker {
                    state: ActivityState {
                        active: true,
                        last_activity: now,
                        stop_requested: c.current().state.stop_requested,
                    },
                    timeout_secs: c.current().timeout_secs,
                },
            ),
        }
    } else {
        c
    }
}

/// The outcome of one watchdog tick at clock time `now`: the possibly aged
/// tracker, and whether the watchdog loop goes on.
pub open spec fn spec_tick(c: Controller, now: u64) -> (Controller, bool) {
    if c.running() {
        let t = c.current();
        if t.state.stop_requested {
            (c, false)
        } else {
            (
                Controller {
                    tracker: Some(
                        RunningTracker {
                            state: ActivityState {
                                active: t.state.active && !t.state.idle_at(now, t.timeout_secs),
                                last_activity: t.state.last_activity,
                                stop_requested: t.state.stop_requested,
                            },
                            timeout_secs: t.timeout_secs,
                        },
                    ),
                },
                true,
            )
        }
    } else {
        (c, false)
    }
}

impl Controller {
    /// Whether a tracking session is currently running.
    pub open spec fn running(self) -> bool {
        self.tracker is Some
    }

    /// The running session.
    pub open spec fn current(self) -> RunningTracker
        recommends
            self.running(),
    {
        self.tracker->Some_0
    }

    /// The clock reading of the most recent qualifying event of the running
    /// session.
    pub open spec fn stamp(self) -> u64
        recommends
            self.running(),
    {
        self.current().state.last_activity
    }

    /// A controller with no tracker running.
    pub fn new() -> (c: Controller)
        ensures
            !c.running(),
    {
        Controller { tracker: None }
    }

    /// Start tracking with the given idle timeout, read at clock time
    /// `now`. Fails with `AlreadyRunning`, leaving the running session
    /// untouched, if a tracker already exists; otherwise installs a fresh
    /// session that has seen no activity yet.
    pub fn start(&mut self, timeout_secs: u64, now: u64) -> (r: Result<(), TrackerError>)
        requires
            1 <= timeout_secs,
        ensures
            *final(self) == spec_start(*old(self), timeout_secs, now).0,
            r == spec_start(*old(self), timeout_secs, now).1,
    {
        if self.tracker.is_some() {
            return Err(TrackerError::AlreadyRunning);
        }
        self.tracker = Some(
            RunningTracker { state: ActivityState::new(now), timeout_secs },
        );
        Ok(())
    }

    /// Report whether the user currently counts as active: a point-in-time
    /// read of the activity flag, or `NotRunning` if no tracker exists.
    pub fn is_active(&self) -> (r: Result<bool, TrackerError>)
        ensures
            r == spec_is_active(*self),
    {
        match &self.tracker {
            Some(t) => Ok(t.state.active),
            None => Err(TrackerError::NotRunning),
        }
    }

    /// Stop tracking: request the watchdog loop to end and discard the
    /// session. A silent no-op when no tracker runs; never an error.
    pub fn stop(&mut self)
        ensures
            *final(self) == spec_stop(*old(self)),
    {
        if let Some(t) = &mut self.tracker {
            t.state.request_stop();
        }
        self.tracker = None;
    }

    /// Record one raw input event received at clock time `now`. Ignored
    /// while no tracker runs.
    pub fn note_event(&mut self, e: &InputEvent, now: u64)
        requires
            old(self).running() ==> now >= old(self).stamp(),
        ensures
            *final(self) == spec_note_event(*old(self), *e, now),
    {
        if let Some(t) = &mut self.tracker {
            t.state.note_event(e, now);
        }
    }

    /// Run one watchdog tick at clock time `now`, ageing the activity flag
    /// once the timeout has elapsed. Returns whether the watchdog loop
    /// goes on; with no tracker running there is nothing to watch.
    pub fn tick(&mut self, now: u64) -> (keep_going: bool)
        requires
            old(self).running() ==> now >= old(self).stamp(),
        ensures
            *final(self) == spec_tick(*old(self), now).0,
            keep_going == spec_tick(*old(self), now).1,
    {
        match &mut self.tracker {
            Some(t) => {
                let timeout_secs = t.timeout_secs;
                t.state.tick(now, timeout_secs)
            },
            None => false,
        }
    }
}

} // verus!
