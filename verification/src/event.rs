//! Mouse events as the list box receives them.

use vstd::prelude::*;

verus! {

/// The physical button that toolkits report for a primary (left) click.
pub const PRIMARY_BUTTON: u32 = 1;

/// The physical button that toolkits report for a secondary (right) click.
pub const SECONDARY_BUTTON: u32 = 3;

/// The kind of an event, as far as the context menu cares.
#[derive(Clone, Copy, Debug, PartialEq, Eq, Structural)]
pub enum EventType {
    /// A mouse button went down.
    ButtonPress,
    /// Anything else: a release, a double press, a key, a motion.
    Other,
}

/// A mouse-button event: its kind and the physical button it is about.
#[derive(Clone, Copy, Debug, PartialEq, Eq, Structural)]
pub struct EventButton {
    pub event_type: EventType,
    pub button: u32,
}

impl EventButton {
    /// A press of `button`.
    pub fn press(button: u32) -> (event: Self)
        ensures
            event == (EventButton { event_type: EventType::ButtonPress, button }),
    {
        EventButton { event_type: EventType::ButtonPress, button }
    }

    pub fn get_event_type(&self) -> (event_type: EventType)
        ensures
            event_type == self.event_type,
    {
        self.event_type
    }

    pub fn get_button(&self) -> (button: u32)
        ensures
            button == self.button,
    {
        self.button
    }
}

/// What a handler tells the toolkit about an event: `Inhibit(true)` consumes
/// it, so that no default handling follows; `Inhibit(false)` lets the toolkit
/// go on with it.
#[derive(Clone, Copy, Debug, PartialEq, Eq, Structural)]
pub struct Inhibit(pub bool);

} // verus!
