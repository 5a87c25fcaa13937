//! Background activity/idle detector.
//!
//! The library answers one question for a host application: has the user
//! interacted with the keyboard, mouse movement, or mouse buttons within the
//! last N seconds? It maintains a shared activity record that an event
//! listener refreshes on every qualifying input event and that an idle
//! watchdog ages into an active/idle verdict on a fixed one-second cadence.
//!
//! The verified core is the tracking engine itself: the activity state, the
//! decision the listener makes for each raw event, the decision the watchdog
//! makes on each tick, and the three-operation lifecycle (start, query,
//! stop). Time enters the engine as readings of a monotone clock, in
//! seconds; the surrounding program supplies the clock, the threads and the
//! platform input subscription, and drives the engine with plain values.

pub mod event;
pub mod state;
pub mod controller;
pub mod laws;
