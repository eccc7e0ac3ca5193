//! Plain values that stand for the toolkit's widgets.

use vstd::prelude::*;

verus! {

/// The identifier under which the toolkit knows the application.
pub const APPLICATION_ID: &'static str = "org.evanjs.popover-help";

/// The identity of a widget. Two handles with the same `id` are the same
/// widget.
#[derive(Clone, Copy, Debug, PartialEq, Eq, Structural)]
pub struct Widget {
    pub id: u32,
}

/// The application object that windows are attached to.
#[derive(Clone, Copy, Debug, PartialEq, Eq, Structural)]
pub struct Application {
    pub id: u32,
}

/// The top-level window.
#[derive(Clone, Copy, Debug, PartialEq, Eq, Structural)]
pub struct ApplicationWindow {
    pub widget: Widget,
    /// The application that the window belongs to, once it was given one.
    pub application: Option<Application>,
    /// Whether the window and its children are shown.
    pub visible: bool,
}

/// The popover that serves as context menu.
#[derive(Clone, Copy, Debug, PartialEq, Eq, Structural)]
pub struct PopoverMenu {
    pub widget: Widget,
    /// Whether the popover is open.
    pub visible: bool,
    /// The widget that the popover is positioned at, if any.
    pub relative_to: Option<Widget>,
}

impl PopoverMenu {
    /// The popover, open.
    pub open spec fn shown(self) -> PopoverMenu {
        PopoverMenu { visible: true, ..self }
    }

    /// The popover, closed.
    pub open spec fn hidden(self) -> PopoverMenu {
        PopoverMenu { visible: false, ..self }
    }

    /// The popover, positioned at `widget`, or detached for `None`.
    pub open spec fn anchored(self, widget: Option<Widget>) -> PopoverMenu {
        PopoverMenu { relative_to: widget, ..self }
    }

    /// Opens the popover where it is anchored.
    pub fn popup(&mut self)
        ensures
            *final(self) == old(self).shown(),
    {
        self.visible = true;
    }

    /// Closes the popover. Closing a closed popover changes nothing.
    pub fn popdown(&mut self)
        ensures
            *final(self) == old(self).hidden(),
    {
        self.visible = false;
    }

    /// Positions the popover at `relative_to`; `None` detaches it.
    pub fn set_relative_to(&mut self, relative_to: Option<&Widget>)
        ensures
            *final(self) == old(self).anchored(deref_widget(relative_to)),
    {
        self.relative_to = match relative_to {
            Some(widget) => Some(*widget),
            None => None,
        };
    }
}

/// The widget behind an optional reference.
pub open spec fn deref_widget(widget: Option<&Widget>) -> Option<Widget> {
    match widget {
        Some(w) => Some(*w),
        None => None,
    }
}

/// One of the context menu's buttons.
#[derive(Clone, Copy, Debug, PartialEq, Eq, Structural)]
pub struct Button {
    pub widget: Widget,
}

/// The position of a button in the context menu.
#[derive(Clone, Copy, Debug, PartialEq, Eq, Structural)]
pub enum SearchButton {
    One,
    Two,
    Three,
}

impl SearchButton {
    /// The line that this button's click handler reports.
    pub open spec fn spec_trace(self) -> Seq<char> {
        match self {
            SearchButton::One => "one clicked"@,
            SearchButton::Two => "two clicked"@,
            SearchButton::Three => "three clicked"@,
        }
    }

    /// The line that this button's click handler reports.
    pub fn trace(&self) -> (line: &'static str)
        ensures
            line@ == self.spec_trace(),
    {
        match self {
            SearchButton::One => "one clicked",
            SearchButton::Two => "two clicked",
            SearchButton::Three => "three clicked",
        }
    }
}

/// The three buttons of the context menu. There are always exactly three.
#[derive(Clone, Copy, Debug, PartialEq, Eq, Structural)]
pub struct SearchButtons {
    pub button_one: Button,
    pub button_two: Button,
    pub button_three: Button,
}

impl SearchButtons {
    /// The button at `which`.
    pub open spec fn button(self, which: SearchButton) -> Button {
        match which {
            SearchButton::One => self.button_one,
            SearchButton::Two => self.button_two,
            SearchButton::Three => self.button_three,
        }
    }

    pub fn get_button_one(&self) -> (button: Button)
        ensures
            button == self.button_one,
    {
        self.button_one
    }

    pub fn get_button_two(&self) -> (button: Button)
        ensures
            button == self.button_two,
    {
        self.button_two
    }

    pub fn get_button_three(&self) -> (button: Button)
        ensures
            button == self.button_three,
    {
        self.button_three
    }
}

/// The list box whose rows carry the context menu.
#[derive(Clone, Copy, Debug, PartialEq, Eq, Structural)]
pub struct ListBox {
    pub widget: Widget,
    /// The row that is selected, if one is.
    pub selected_row: Option<Widget>,
}

impl ListBox {
    pub fn get_selected_row(&self) -> (row: Option<Widget>)
        ensures
            row == self.selected_row,
    {
        self.selected_row
    }
}

} // verus!
