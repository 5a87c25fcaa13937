//! The shared activity record and the two per-thread decisions that act on
//! it: the listener's response to a raw event, and the watchdog's ageing of
//! the record into an idle verdict.

use vstd::prelude::*;
use crate::event::InputEvent;

verus! {

/// The shared record of one running tracker.
///
/// `last_activity` is a reading of a monotone clock, in whole seconds since
/// an arbitrary origin; it only ever advances, never rewinds. `active` is
/// set by the listener on every qualifying event and cleared by the
/// watchdog once the idle timeout elapses. `stop_requested` is the
/// cooperative cancellation signal for the watchdog loop.
#[derive(Clone, Copy, PartialEq, Eq, Structural, Debug)]
pub struct ActivityState {
    /// Whether the user currently counts as active.
    pub active: bool,
    /// Clock reading of the most recent qualifying event, or of the start
    /// of tracking if none has arrived yet.
    pub last_activity: u64,
    /// Whether a stop has been requested for the watchdog loop.
    pub stop_requested: bool,
}

impl ActivityState {
    /// The state a fresh tracker starts in: no activity seen, the stamp at
    /// the moment tracking began, no stop requested.
    pub open spec fn initial(now: u64) -> ActivityState {
        ActivityState { active: false, last_activity: now, stop_requested: false }
    }

    /// Whether, read at clock time `now`, the record is stale: more than
    /// `timeout_secs` seconds have passed since the last qualifying event.
    pub open spec fn idle_at(self, now: u64, timeout_secs: u64) -> bool {
        now - self.last_activity > timeout_secs
    }

    /// Create the record for a tracker that begins at clock time `now`.
    pub fn new(now: u64) -> (s: ActivityState)
        ensures
            s == ActivityState::initial(now),
    {
        ActivityState { active: false, last_activity: now, stop_requested: false }
    }

    /// The listener's decision for one raw event received at clock time
    /// `now`: a qualifying event claims activity and refreshes the stamp;
    /// any other event leaves the record untouched.
    pub fn note_event(&mut self, e: &InputEvent, now: u64)
        requires
            now >= old(self).last_activity,
        ensures
            e.qualifies() ==> *final(self) == (ActivityState {
                active: true,
                last_activity: now,
                stop_requested: old(self).stop_requested,
            }),
            !e.qualifies() ==> *final(self) == *old(self),
            final(self).last_activity >= old(self).last_activity,
    {
        if crate::event::event_qualifies(e) {
            self.active = true;
            self.last_activity = now;
        }
    }

    /// The watchdog's decision for one tick at clock time `now`: if a stop
    /// has been requested, leave the record alone and report that the loop
    /// must end; otherwise reclaim idleness once the timeout has elapsed.
    /// The stamp itself is never changed here.
    pub fn tick(&mut self, now: u64, timeout_secs: u64) -> (keep_going: bool)
        requires
            now >= old(self).last_activity,
        ensures
            keep_going == !old(self).stop_requested,
            final(self).last_activity == old(self).last_activity,
            final(self).stop_requested == old(self).stop_requested,
            old(self).stop_requested ==> *final(self) == *old(self),
            !old(self).stop_requested ==> final(self).active == (old(self).active
                && !old(self).idle_at(now, timeout_secs)),
    {
        if self.stop_requested {
            return false;
        }
        if idle_exceeded(self.last_activity, now, timeout_secs) {
            self.active = false;
        }
        true
    }

    /// Ask the watchdog loop to end at its next tick.
    pub fn request_stop(&mut self)
        ensures
            *final(self) == (ActivityState {
                active: old(self).active,
                last_activity: old(self).last_activity,
                stop_requested: true,
            }),
    {
        self.stop_requested = true;
    }
}

/// Whether more than `timeout_secs` seconds separate the stamp `last` from
/// the clock reading `now`. This is the whole idle criterion; the watchdog
/// applies it once per tick.
pub fn idle_exceeded(last: u64, now: u64, timeout_secs: u64) -> (b: bool)
    requires
        now >= last,
    ensures
        b == (now - last > timeout_secs),
{
    now - last > timeout_secs
}

} // verus!
