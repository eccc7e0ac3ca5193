//! The application context: the widgets of the program and what it does with
//! them.

use vstd::prelude::*;
use crate::dispatch::{dispatch, mouse_action, MouseAction};
use crate::event::{EventButton, Inhibit};
use crate::state::{count_clicked, AppState, Handler};
use crate::ui::{UiObjects, WidgetName};
use crate::widget::{
    deref_widget, Application, ApplicationWindow, Button, ListBox, PopoverMenu, SearchButton,
    SearchButtons, Widget,
};

verus! {

/// The window, the context menu, its three buttons and the list box, together
/// with the handlers connected to them.
///
/// The context owns this state. A clone is a snapshot of it: later changes to
/// one of the two do not show in the other.
#[derive(Debug, PartialEq, Eq)]
pub struct AppCtx {
    window: ApplicationWindow,
    meta_context_menu: PopoverMenu,
    search_buttons: SearchButtons,
    list_box: ListBox,
    handlers: Vec<Handler>,
}

impl View for AppCtx {
    type V = AppState;

    closed spec fn view(&self) -> AppState {
        AppState {
            window: self.window,
            meta_context_menu: self.meta_context_menu,
            search_buttons: self.search_buttons,
            list_box: self.list_box,
            handlers: self.handlers@,
        }
    }
}

impl Clone for AppCtx {
    fn clone(&self) -> (copy: Self)
        ensures
            copy@ == self@,
    {
        let handlers = self.handlers.clone();
        assert(handlers@ =~= self.handlers@);
        AppCtx {
            window: self.window,
            meta_context_menu: self.meta_context_menu,
            search_buttons: self.search_buttons,
            list_box: self.list_box,
            handlers,
        }
    }
}

impl AppCtx {
    /// Binds the widgets that the lookups in the interface description gave,
    /// and attaches the window to `application`.
    ///
    /// Startup cannot go on without one of the widgets: a caller checks with
    /// `UiObjects::first_missing` that none is missing.
    pub fn new(application: &Application, objects: &UiObjects) -> (ctx: Self)
        requires
            objects.is_complete(),
        ensures
            ctx@ == AppState::bound(*application, *objects),
    {
        assert(objects.object(WidgetName::Window) is Some);
        assert(objects.object(WidgetName::MetaContextMenu) is Some);
        assert(objects.object(WidgetName::MetaButtonOne) is Some);
        assert(objects.object(WidgetName::MetaButtonTwo) is Some);
        assert(objects.object(WidgetName::MetaButtonThree) is Some);
        assert(objects.object(WidgetName::ListBox) is Some);
        let window = ApplicationWindow {
            widget: objects.window.unwrap(),
            application: Some(*application),
            visible: false,
        };
        let meta_context_menu = PopoverMenu {
            widget: objects.meta_context_menu.unwrap(),
            visible: false,
            relative_to: None,
        };
        let search_buttons = SearchButtons {
            button_one: Button { widget: objects.meta_button_one.unwrap() },
            button_two: Button { widget: objects.meta_button_two.unwrap() },
            button_three: Button { widget: objects.meta_button_three.unwrap() },
        };
        let list_box = ListBox { widget: objects.list_box.unwrap(), selected_row: None };
        AppCtx { window, meta_context_menu, search_buttons, list_box, handlers: Vec::new() }
    }

    /// Opens the context menu where it is anchored.
    pub fn open_meta_context_menu(&mut self)
        ensures
            final(self)@ == old(self)@.open_menu(),
    {
        self.meta_context_menu.popup()
    }

    /// Closes the context menu. Closing a closed menu changes nothing.
    pub fn close_meta_context_menu(&mut self)
        ensures
            final(self)@ == old(self)@.close_menu(),
    {
        self.meta_context_menu.popdown()
    }

    /// Connects one more click handler to each of the three buttons. Handlers
    /// connected earlier stay connected.
    pub fn setup_search_buttons(&mut self)
        ensures
            final(self)@ == old(self)@.wire_search_buttons(),
    {
        self.setup_button_one_clicked();
        self.setup_button_two_clicked();
        self.setup_button_three_clicked();
    }

    /// Positions the context menu at `widget`; `None` detaches it.
    pub fn set_meta_context_menu_relative_to(&mut self, widget: Option<&Widget>)
        ensures
            final(self)@ == old(self)@.anchor_menu(deref_widget(widget)),
    {
        self.meta_context_menu.set_relative_to(widget)
    }

    pub fn get_window(&self) -> (window: ApplicationWindow)
        ensures
            window == self@.window,
    {
        self.window
    }

    pub fn get_meta_context_menu(&self) -> (menu: PopoverMenu)
        ensures
            menu == self@.meta_context_menu,
    {
        self.meta_context_menu
    }

    pub fn get_search_buttons(&self) -> (buttons: SearchButtons)
        ensures
            buttons == self@.search_buttons,
    {
        self.search_buttons
    }

    pub fn get_list_box(&self) -> (list_box: ListBox)
        ensures
            list_box == self@.list_box,
    {
        self.list_box
    }

    /// The handlers connected so far, oldest first.
    pub fn get_handlers(&self) -> (handlers: &Vec<Handler>)
        ensures
            handlers@ == self@.handlers,
    {
        &self.handlers
    }

    /// Records that the toolkit changed the selection of the list box to
    /// `row`.
    pub fn select_row(&mut self, row: Option<Widget>)
        ensures
            final(self)@ == old(self)@.select(row),
    {
        self.list_box.selected_row = row;
    }

    /// Shows the window and what it holds.
    pub fn show_window(&mut self)
        ensures
            final(self)@ == old(self)@.show_window(),
    {
        self.window.visible = true;
    }

    /// Carries out what was decided about a mouse event.
    pub fn perform(&mut self, action: &MouseAction)
        ensures
            final(self)@ == old(self)@.apply(*action),
    {
        match action {
            MouseAction::Pass => {},
            MouseAction::Prepare { row } => {
                self.set_meta_context_menu_relative_to(Some(row));
                self.setup_search_buttons();
            },
            MouseAction::Popup { row } => {
                self.set_meta_context_menu_relative_to(Some(row));
                self.setup_search_buttons();
                self.open_meta_context_menu();
            },
        }
    }

    /// Handles a mouse event on the list box: decides by the event and the
    /// selected row, carries the decision out, and tells the toolkit whether
    /// the event was consumed.
    pub fn connect_mouse_events(&mut self, event_button: &EventButton) -> (inhibit: Inhibit)
        ensures
            final(self)@ == old(self)@.mouse_event(*event_button),
            inhibit == Inhibit(
                mouse_action(*event_button, old(self)@.list_box.selected_row).consumes(),
            ),
    {
        let action = dispatch(event_button, self.list_box.get_selected_row());
        self.perform(&action);
        action.inhibit()
    }

    /// Connects to button one a handler that closes the context menu.
    pub fn setup_button_one_clicked(&mut self)
        ensures
            final(self)@ == old(self)@.connect(Handler::Clicked(SearchButton::One)),
    {
        self.handlers.push(Handler::Clicked(SearchButton::One));
    }

    /// Connects to button two a handler that closes the context menu.
    pub fn setup_button_two_clicked(&mut self)
        ensures
            final(self)@ == old(self)@.connect(Handler::Clicked(SearchButton::Two)),
    {
        self.handlers.push(Handler::Clicked(SearchButton::Two));
    }

    /// Connects to button three a handler that closes the context menu.
    pub fn setup_button_three_clicked(&mut self)
        ensures
            final(self)@ == old(self)@.connect(Handler::Clicked(SearchButton::Three)),
    {
        self.handlers.push(Handler::Clicked(SearchButton::Three));
    }

    /// Connects the mouse-event dispatcher to the list box.
    pub fn setup_meta_list(&mut self)
        ensures
            final(self)@ == old(self)@.connect(Handler::MouseEvents),
    {
        self.handlers.push(Handler::MouseEvents);
    }

    /// What a click handler of `button` does when it runs: it closes the
    /// context menu and hands back the line to report.
    pub fn button_clicked(&mut self, button: SearchButton) -> (line: &'static str)
        ensures
            final(self)@ == old(self)@.handle_click(button),
            line@ == button.spec_trace(),
    {
        self.close_meta_context_menu();
        button.trace()
    }

    /// A click on the button `which`: runs every handler connected to it,
    /// oldest first, and hands back the lines they report, one for each.
    pub fn click(&mut self, which: SearchButton) -> (lines: Vec<&'static str>)
        ensures
            final(self)@ == old(self)@.click(which),
            lines@.len() == old(self)@.clicked_handlers(which),
            forall|i: int| 0 <= i < lines@.len() ==> (#[trigger] lines@[i])@ == which.spec_trace(),
    {
        let ghost before = self@;
        let mut lines: Vec<&'static str> = Vec::new();
        let n = self.handlers.len();
        let mut i: usize = 0;
        assert(before.handlers.take(0) =~= Seq::empty());
        while i < n
            invariant
                i <= n,
                n == before.handlers.len(),
                self@.handlers == before.handlers,
                lines@.len() == count_clicked(before.handlers.take(i as int), which),
                self@ == if lines@.len() > 0 {
                    before.handle_click(which)
                } else {
                    before
                },
                forall|k: int|
                    0 <= k < lines@.len() ==> (#[trigger] lines@[k])@ == which.spec_trace(),
            decreases n - i,
        {
            let handler = self.handlers[i];
            proof {
                let upto = before.handlers.take(i as int + 1);
                assert(upto.drop_last() =~= before.handlers.take(i as int));
                assert(upto.last() == handler);
            }
            match handler {
                Handler::Clicked(button) if button == which => {
                    let line = self.button_clicked(button);
                    lines.push(line);
                },
                _ => {},
            }
            i += 1;
        }
        assert(before.handlers.take(n as int) =~= before.handlers);
        lines
    }
}

/// Sets the program up on the widgets that the lookups gave: binds them,
/// connects the mouse-event dispatcher to the list box, and shows the window.
pub fn build_ui(application: &Application, objects: &UiObjects) -> (ctx: AppCtx)
    requires
        objects.is_complete(),
    ensures
        ctx@ == AppState::built(*application, *objects),
{
    let mut app_ctx = AppCtx::new(application, objects);
    app_ctx.setup_meta_list();
    app_ctx.show_window();
    app_ctx
}

} // verus!
