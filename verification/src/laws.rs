//! The guarantees of the tracking engine, stated and proved over the
//! spec-level transition functions of the lifecycle API.

use vstd::prelude::*;
use crate::event::InputEvent;
use crate::controller::Controller;
use crate::controller::TrackerError;
use crate::controller::spec_start;
use crate::controller::spec_is_active;
use crate::controller::spec_stop;
use crate::controller::spec_note_event;
use crate::controller::spec_tick;

verus! {

/// One step of the running engine, as the two background roles see it: the
/// listener records a raw event, or the watchdog ticks, each at a reading
/// of the monotone clock.
#[derive(Clone, Copy, PartialEq, Eq, Structural, Debug)]
pub enum EngineStep {
    /// The listener receives a raw event at the given clock time.
    Input(InputEvent, u64),
    /// The watchdog ticks at the given clock time.
    Tick(u64),
}

/// The tracker after one engine step.
pub open spec fn spec_step(c: Controller, s: EngineStep) -> Controller {
    match s {
        EngineStep::Input(e, now) => spec_note_event(c, e, now),
        EngineStep::Tick(now) => spec_tick(c, now).0,
    }
}

/// The tracker after a sequence of engine steps, applied in order.
pub open spec fn spec_run(c: Controller, steps: Seq<EngineStep>) -> Controller
    decreases steps.len(),
{
    if steps.len() == 0 {
        c
    } else {
        spec_run(spec_step(c, steps[0]), steps.drop_first())
    }
}

/// Whether one step happens inside the idle window of the tracker it acts
/// on: the clock has not rewound, and a tick comes no later than the
/// timeout after the last recorded activity.
pub open spec fn within_window(c: Controller, s: EngineStep) -> bool {
    match s {
        EngineStep::Input(e, now) => now >= c.stamp(),
        EngineStep::Tick(now) => now >= c.stamp() && now - c.stamp()
            <= c.current().timeout_secs,
    }
}

/// Whether every step of the sequence happens inside the idle window of
/// the tracker as it evolves.
pub open spec fn all_within_window(c: Controller, steps: Seq<EngineStep>) -> bool
    decreases steps.len(),
{
    steps.len() == 0 || (within_window(c, steps[0]) && all_within_window(
        spec_step(c, steps[0]),
        steps.drop_first(),
    ))
}

/// Starting succeeds on a stopped tracker, and the fresh tracker reports
/// inactive: no activity has been seen yet.
pub proof fn lemma_start_then_inactive(c: Controller, timeout_secs: u64, now: u64)
    requires
        !c.running(),
        1 <= timeout_secs,
    ensures
        spec_start(c, timeout_secs, now).1 == Ok::<(), TrackerError>(()),
        spec_is_active(spec_start(c, timeout_secs, now).0) == Ok::<bool, TrackerError>(false),
{
}

/// A qualifying event makes the tracker report active as soon as the
/// listener has recorded it.
pub proof fn lemma_event_activates(c: Controller, e: InputEvent, now: u64)
    requires
        c.running(),
        e.qualifies(),
    ensures
        spec_is_active(spec_note_event(c, e, now)) == Ok::<bool, TrackerError>(true),
{
}

/// One step inside the idle window keeps the tracker reporting active: a
/// tick that comes no later than the timeout does not reclaim idleness,
/// and an event never does.
pub proof fn lemma_activity_retained(c: Controller, s: EngineStep)
    requires
        c.running(),
        spec_is_active(c) == Ok::<bool, TrackerError>(true),
        within_window(c, s),
    ensures
        spec_step(c, s).running(),
        spec_is_active(spec_step(c, s)) == Ok::<bool, TrackerError>(true),
{
}

/// While events and ticks keep arriving inside the idle window, the
/// tracker keeps reporting active, over any number of steps.
pub proof fn lemma_activity_sustained(c: Controller, steps: Seq<EngineStep>)
    requires
        c.running(),
        spec_is_active(c) == Ok::<bool, TrackerError>(true),
        all_within_window(c, steps),
    ensures
        spec_run(c, steps).running(),
        spec_is_active(spec_run(c, steps)) == Ok::<bool, TrackerError>(true),
    decreases steps.len(),
{
    if steps.len() > 0 {
        lemma_activity_retained(c, steps[0]);
        lemma_activity_sustained(spec_step(c, steps[0]), steps.drop_first());
    }
}

/// Once more than the timeout has elapsed since the last recorded
/// activity, a watchdog tick makes the tracker report idle.
pub proof fn lemma_idle_clears(c: Controller, now: u64)
    requires
        c.running(),
        !c.current().state.stop_requested,
        now >= c.stamp(),
        now - c.stamp() > c.current().timeout_secs,
    ensures
        spec_is_active(spec_tick(c, now).0) == Ok::<bool, TrackerError>(false),
{
}

/// With the watchdog ticking at least once per second, some tick falls no
/// later than one second past the timeout, and that tick already reports
/// idle: the verdict turns false within timeout + 1 seconds of the last
/// recorded activity.
pub proof fn lemma_idle_within_slack(c: Controller)
    requires
        c.running(),
        !c.current().state.stop_requested,
        c.stamp() + c.current().timeout_secs + 1 <= u64::MAX,
    ensures
        spec_is_active(
            spec_tick(c, (c.stamp() + c.current().timeout_secs + 1) as u64).0,
        ) == Ok::<bool, TrackerError>(false),
{
}

/// Starting while a tracker runs fails with `AlreadyRunning` and leaves
/// the running tracker untouched.
pub proof fn lemma_second_start_rejected(c: Controller, timeout_secs: u64, now: u64)
    requires
        c.running(),
    ensures
        spec_start(c, timeout_secs, now).0 == c,
        spec_start(c, timeout_secs, now).1 == Err::<(), TrackerError>(
            TrackerError::AlreadyRunning,
        ),
{
}

/// Querying the activity status with no tracker running fails with
/// `NotRunning`.
pub proof fn lemma_query_before_start(c: Controller)
    requires
        !c.running(),
    ensures
        spec_is_active(c) == Err::<bool, TrackerError>(TrackerError::NotRunning),
{
}

/// Stopping never errs and is idempotent: after a stop no tracker runs,
/// and a second stop changes nothing, with or without a prior start.
pub proof fn lemma_stop_idempotent(c: Controller)
    ensures
        !spec_stop(c).running(),
        spec_stop(spec_stop(c)) == spec_stop(c),
{
}

/// The activity stamp never rewinds: any step whose clock reading has not
/// gone backwards leaves the stamp no smaller than before.
pub proof fn lemma_stamp_monotone(c: Controller, s: EngineStep)
    requires
        c.running(),
        within_window(c, s),
    ensures
        spec_step(c, s).running(),
        spec_step(c, s).stamp() >= c.stamp(),
{
}

} // verus!
