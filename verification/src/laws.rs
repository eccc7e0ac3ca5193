//! What holds of the program's steps taken together.

use vstd::prelude::*;
use crate::dispatch::mouse_action;
use crate::event::{EventButton, EventType, PRIMARY_BUTTON, SECONDARY_BUTTON};
use crate::state::{count_clicked, AppState, Handler};
use crate::widget::{SearchButton, Widget};

verus! {

/// The decision about a mouse event rests on three things only: the kind of
/// the event, whether a row is selected, and the button. Two events that agree
/// in these are both consumed or both passed on, and both open the menu or
/// neither does, whichever rows are selected.
pub proof fn law_decision_is_determined(
    first: EventButton,
    first_row: Option<Widget>,
    second: EventButton,
    second_row: Option<Widget>,
)
    requires
        first.event_type == second.event_type,
        first.button == second.button,
        first_row is Some <==> second_row is Some,
    ensures
        mouse_action(first, first_row).consumes() == mouse_action(second, second_row).consumes(),
        mouse_action(first, first_row).opens() == mouse_action(second, second_row).opens(),
{
}

/// Every mouse event has exactly one outcome. It is consumed exactly if it is
/// a press while a row is selected, and it opens the menu exactly if, beyond
/// that, the button is the secondary one. What it anchors the menu to is the
/// selected row.
pub proof fn law_decision_table(event: EventButton, selected_row: Option<Widget>)
    ensures
        mouse_action(event, selected_row).consumes() <==> (event.event_type
            == EventType::ButtonPress && selected_row is Some),
        mouse_action(event, selected_row).opens() <==> (event.event_type == EventType::ButtonPress
            && selected_row is Some && event.button == SECONDARY_BUTTON),
        mouse_action(event, selected_row).consumes() ==> mouse_action(event, selected_row).anchor()
            == selected_row,
{
}

/// After a mouse event the menu is open exactly if it was open before or the
/// event opened it: no mouse event closes the menu.
pub proof fn law_mouse_event_outcome(state: AppState, event: EventButton)
    ensures
        state.mouse_event(event).menu_open() <==> (state.menu_open() || mouse_action(
            event,
            state.list_box.selected_row,
        ).opens()),
{
}

/// A press of the secondary button while a row is selected is consumed and
/// leaves the menu open, anchored to that row.
pub proof fn law_secondary_press_opens_menu(state: AppState, event: EventButton)
    requires
        event.event_type == EventType::ButtonPress,
        event.button == SECONDARY_BUTTON,
        state.list_box.selected_row is Some,
    ensures
        mouse_action(event, state.list_box.selected_row).consumes(),
        state.mouse_event(event).menu_open(),
        state.mouse_event(event).meta_context_menu.relative_to == state.list_box.selected_row,
{
}

/// A press of the primary button while a row is selected is consumed and
/// opens nothing: the menu is open afterwards exactly if it was before.
pub proof fn law_primary_press_opens_nothing(state: AppState, event: EventButton)
    requires
        event.event_type == EventType::ButtonPress,
        event.button == PRIMARY_BUTTON,
        state.list_box.selected_row is Some,
    ensures
        mouse_action(event, state.list_box.selected_row).consumes(),
        state.mouse_event(event).menu_open() == state.menu_open(),
{
}

/// While no row is selected, an event changes nothing and is not consumed,
/// whatever its kind and its button.
pub proof fn law_no_selection_no_effect(state: AppState, event: EventButton)
    requires
        state.list_box.selected_row is None,
    ensures
        !mouse_action(event, state.list_box.selected_row).consumes(),
        state.mouse_event(event) == state,
{
}

/// Closing the menu leaves it closed and touches nothing else; closing it
/// again, or closing a menu that was closed, changes nothing.
pub proof fn law_close_is_idempotent(state: AppState)
    ensures
        !state.close_menu().menu_open(),
        state.close_menu().close_menu() == state.close_menu(),
        !state.menu_open() ==> state.close_menu() == state,
        state.close_menu() == (AppState {
            meta_context_menu: state.close_menu().meta_context_menu,
            ..state
        }),
        state.close_menu().meta_context_menu.relative_to == state.meta_context_menu.relative_to,
        state.close_menu().meta_context_menu.widget == state.meta_context_menu.widget,
{
}

/// A run of a click handler leaves the menu closed, whether it was open or
/// not, and touches nothing else. This holds of the handler of each of the
/// three buttons alike, and a second run changes nothing more.
pub proof fn law_click_handler_closes_menu(state: AppState, button: SearchButton)
    ensures
        !state.handle_click(button).menu_open(),
        state.handle_click(button) == state.close_menu(),
        state.handle_click(button).handle_click(button) == state.handle_click(button),
{
}

/// Connecting a handler adds one to the count of the button it is for, and
/// nothing to the count of any other.
pub proof fn law_connect_counts(handlers: Seq<Handler>, handler: Handler, which: SearchButton)
    ensures
        count_clicked(handlers.push(handler), which) == count_clicked(handlers, which) + (if handler
            == Handler::Clicked(which) {
            1nat
        } else {
            0nat
        }),
{
    assert(handlers.push(handler).drop_last() =~= handlers);
}

/// Each wiring of the search buttons adds exactly one click handler to each of
/// the three buttons: handlers pile up over repeated wirings.
pub proof fn law_wiring_adds_one_handler_each(state: AppState, which: SearchButton)
    ensures
        state.wire_search_buttons().clicked_handlers(which) == state.clicked_handlers(which) + 1,
{
    let one = Handler::Clicked(SearchButton::One);
    let two = Handler::Clicked(SearchButton::Two);
    let three = Handler::Clicked(SearchButton::Three);
    law_connect_counts(state.handlers, one, which);
    law_connect_counts(state.handlers.push(one), two, which);
    law_connect_counts(state.handlers.push(one).push(two), three, which);
}

/// A click on a button that has a handler leaves the menu closed and touches
/// nothing else, and this holds of each of the three buttons, whatever is
/// connected to the other two.
pub proof fn law_click_closes_menu(state: AppState, which: SearchButton)
    requires
        state.clicked_handlers(which) > 0,
    ensures
        !state.click(which).menu_open(),
        state.click(which) == state.close_menu(),
{
}

/// A click on a button without a handler changes nothing.
pub proof fn law_click_without_handler(state: AppState, which: SearchButton)
    requires
        state.clicked_handlers(which) == 0,
    ensures
        state.click(which) == state,
{
}

/// Once a press was consumed, a click on any of the three buttons closes the
/// menu.
pub proof fn law_click_after_press_closes_menu(
    state: AppState,
    event: EventButton,
    which: SearchButton,
)
    requires
        mouse_action(event, state.list_box.selected_row).consumes(),
    ensures
        !state.mouse_event(event).click(which).menu_open(),
{
    let anchored = state.anchor_menu(mouse_action(event, state.list_box.selected_row).anchor());
    law_wiring_adds_one_handler_each(anchored, which);
}

} // verus!
