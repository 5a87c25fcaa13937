//! Raw input events and the rule that decides which of them count as
//! user activity.

use vstd::prelude::*;

verus! {

/// One report from the platform's process-wide input stream, reduced to its
/// kind. The engine never looks at a key code, a button index or a pointer
/// position: every qualifying kind collapses to a single activity signal.
#[derive(Clone, Copy, PartialEq, Eq, Structural, Debug)]
pub enum InputEvent {
    /// A keyboard key was pressed.
    KeyPress,
    /// A keyboard key was released.
    KeyRelease,
    /// A mouse button was pressed.
    ButtonPress,
    /// A mouse button was released.
    ButtonRelease,
    /// The mouse pointer moved.
    MouseMove,
    /// The mouse wheel turned.
    Wheel,
}

impl InputEvent {
    /// An event counts as user activity exactly when it is a key press, a
    /// pointer movement or a mouse button press; releases and wheel turns
    /// are ignored.
    pub open spec fn qualifies(self) -> bool {
        self is KeyPress || self is MouseMove || self is ButtonPress
    }
}

/// Decide whether one raw event counts as user activity.
pub fn event_qualifies(e: &InputEvent) -> (b: bool)
    ensures
        b == e.qualifies(),
{
    match e {
        InputEvent::KeyPress | InputEvent::MouseMove | InputEvent::ButtonPress => true,
        _ => false,
    }
}

} // verus!
