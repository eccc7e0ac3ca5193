//! The state of the widgets as contracts speak of it, and what each step of
//! the program makes of it.

use vstd::prelude::*;
use crate::dispatch::{mouse_action, MouseAction};
use crate::event::EventButton;
use crate::ui::UiObjects;
use crate::widget::{
    Application, ApplicationWindow, Button, ListBox, PopoverMenu, SearchButton, SearchButtons,
    Widget,
};

verus! {

/// A handler that was connected to a signal of one of the widgets.
#[derive(Clone, Copy, Debug, PartialEq, Eq, Structural)]
pub enum Handler {
    /// Connected to the click of a menu button: closes the context menu and
    /// reports that button's line.
    Clicked(SearchButton),
    /// Connected to the list box's button presses: the mouse-event dispatcher.
    MouseEvents,
}

/// How many handlers in `handlers` are connected to the click of `which`.
pub open spec fn count_clicked(handlers: Seq<Handler>, which: SearchButton) -> nat
    decreases handlers.len(),
{
    if handlers.len() == 0 {
        0
    } else {
        let rest = count_clicked(handlers.drop_last(), which);
        if handlers.last() == Handler::Clicked(which) {
            rest + 1
        } else {
            rest
        }
    }
}

/// The widgets and the handlers connected to them.
pub struct AppState {
    pub window: ApplicationWindow,
    pub meta_context_menu: PopoverMenu,
    pub search_buttons: SearchButtons,
    pub list_box: ListBox,
    /// Every connection made so far, oldest first. Connecting never replaces
    /// an earlier handler.
    pub handlers: Seq<Handler>,
}

impl AppState {
    /// The state right after the widgets were bound: the window attached to
    /// `application`, the menu closed and detached, no row selected, nothing
    /// connected.
    pub open spec fn bound(application: Application, objects: UiObjects) -> AppState
        recommends
            objects.is_complete(),
    {
        AppState {
            window: ApplicationWindow {
                widget: objects.window->0,
                application: Some(application),
                visible: false,
            },
            meta_context_menu: PopoverMenu {
                widget: objects.meta_context_menu->0,
                visible: false,
                relative_to: None,
            },
            search_buttons: SearchButtons {
                button_one: Button { widget: objects.meta_button_one->0 },
                button_two: Button { widget: objects.meta_button_two->0 },
                button_three: Button { widget: objects.meta_button_three->0 },
            },
            list_box: ListBox { widget: objects.list_box->0, selected_row: None },
            handlers: Seq::empty(),
        }
    }

    /// Whether the context menu is open.
    pub open spec fn menu_open(self) -> bool {
        self.meta_context_menu.visible
    }

    /// The context menu opened, all else as it was.
    pub open spec fn open_menu(self) -> AppState {
        AppState { meta_context_menu: self.meta_context_menu.shown(), ..self }
    }

    /// The context menu closed, all else as it was.
    pub open spec fn close_menu(self) -> AppState {
        AppState { meta_context_menu: self.meta_context_menu.hidden(), ..self }
    }

    /// The context menu positioned at `widget`, all else as it was.
    pub open spec fn anchor_menu(self, widget: Option<Widget>) -> AppState {
        AppState { meta_context_menu: self.meta_context_menu.anchored(widget), ..self }
    }

    /// One more handler connected, after those that were.
    pub open spec fn connect(self, handler: Handler) -> AppState {
        AppState { handlers: self.handlers.push(handler), ..self }
    }

    /// One more click handler on each of the three buttons, in their order.
    pub open spec fn wire_search_buttons(self) -> AppState {
        self.connect(Handler::Clicked(SearchButton::One)).connect(
            Handler::Clicked(SearchButton::Two),
        ).connect(Handler::Clicked(SearchButton::Three))
    }

    /// The row selection changed to `row`, all else as it was.
    pub open spec fn select(self, row: Option<Widget>) -> AppState {
        AppState { list_box: ListBox { selected_row: row, ..self.list_box }, ..self }
    }

    /// The window shown, all else as it was.
    pub open spec fn show_window(self) -> AppState {
        AppState { window: ApplicationWindow { visible: true, ..self.window }, ..self }
    }

    /// What carrying out `action` makes of the state.
    pub open spec fn apply(self, action: MouseAction) -> AppState {
        match action {
            MouseAction::Pass => self,
            MouseAction::Prepare { row } => self.anchor_menu(Some(row)).wire_search_buttons(),
            MouseAction::Popup { row } => self.anchor_menu(Some(row)).wire_search_buttons()
                .open_menu(),
        }
    }

    /// What a mouse event on the list box makes of the state.
    pub open spec fn mouse_event(self, event: EventButton) -> AppState {
        self.apply(mouse_action(event, self.list_box.selected_row))
    }

    /// What one run of a click handler of `button` makes of the state: the
    /// menu is closed, whichever button the handler belongs to.
    pub open spec fn handle_click(self, button: SearchButton) -> AppState {
        self.close_menu()
    }

    /// How many click handlers are connected to the button `which`.
    pub open spec fn clicked_handlers(self, which: SearchButton) -> nat {
        count_clicked(self.handlers, which)
    }

    /// What a click on the button `which` makes of the state: every handler
    /// connected to it runs, and each closes the menu.
    pub open spec fn click(self, which: SearchButton) -> AppState {
        if self.clicked_handlers(which) > 0 {
            self.handle_click(which)
        } else {
            self
        }
    }

    /// What startup makes of the bound widgets: the dispatcher connected to the
    /// list box, and the window shown.
    pub open spec fn built(application: Application, objects: UiObjects) -> AppState
        recommends
            objects.is_complete(),
    {
        AppState::bound(application, objects).connect(Handler::MouseEvents).show_window()
    }
}

} // verus!
