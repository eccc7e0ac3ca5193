//! What a mouse event on the list box calls for.

use vstd::prelude::*;
use crate::event::{EventButton, EventType, Inhibit, SECONDARY_BUTTON};
use crate::widget::Widget;

verus! {

/// What the program does about a mouse event on the list box.
#[derive(Clone, Copy, Debug, PartialEq, Eq, Structural)]
pub enum MouseAction {
    /// Nothing: the event is left to the toolkit.
    Pass,
    /// Anchor the context menu to `row` and connect the click handlers of its
    /// buttons; consume the event.
    Prepare { row: Widget },
    /// As `Prepare`, and then open the context menu.
    Popup { row: Widget },
}

impl MouseAction {
    /// Whether the event is consumed.
    pub open spec fn consumes(self) -> bool {
        !(self is Pass)
    }

    /// Whether the context menu is opened.
    pub open spec fn opens(self) -> bool {
        self is Popup
    }

    /// The row that the context menu is anchored to, if the action anchors it.
    pub open spec fn anchor(self) -> Option<Widget> {
        match self {
            MouseAction::Pass => None,
            MouseAction::Prepare { row } => Some(row),
            MouseAction::Popup { row } => Some(row),
        }
    }

    /// What the toolkit is told about the event.
    pub fn inhibit(&self) -> (inhibit: Inhibit)
        ensures
            inhibit == Inhibit(self.consumes()),
    {
        match self {
            MouseAction::Pass => Inhibit(false),
            _ => Inhibit(true),
        }
    }
}

/// The decision about `event`, given the row that is selected when it arrives.
///
/// An event that is no button press is passed on, whatever else holds. So is a
/// press while no row is selected. A press while `row` is selected is consumed:
/// the secondary button opens the menu at `row`, every other button only
/// prepares it.
pub open spec fn mouse_action(event: EventButton, selected_row: Option<Widget>) -> MouseAction {
    match selected_row {
        Some(row) if event.event_type == EventType::ButtonPress => {
            if event.button == SECONDARY_BUTTON {
                MouseAction::Popup { row }
            } else {
                MouseAction::Prepare { row }
            }
        },
        _ => MouseAction::Pass,
    }
}

/// Decides what to do about `event`, given the row that is selected when it
/// arrives. Every event has an answer, and the answer depends on nothing but
/// the two arguments.
pub fn dispatch(event: &EventButton, selected_row: Option<Widget>) -> (action: MouseAction)
    ensures
        action == mouse_action(*event, selected_row),
{
    match event.get_event_type() {
        EventType::ButtonPress => match selected_row {
            Some(row) => {
                if event.get_button() == SECONDARY_BUTTON {
                    MouseAction::Popup { row }
                } else {
                    MouseAction::Prepare { row }
                }
            },
            None => MouseAction::Pass,
        },
        EventType::Other => MouseAction::Pass,
    }
}

} // verus!
