use popover_help::context::{build_ui, AppCtx};
use popover_help::state::Handler;
use popover_help::ui::{UiObjects, WidgetName};
use popover_help::widget::{
    Application, ApplicationWindow, Button, ListBox, PopoverMenu, SearchButton, SearchButtons,
    Widget, APPLICATION_ID,
};

fn complete_objects() -> UiObjects {
    UiObjects {
        window: Some(Widget { id: 1 }),
        meta_context_menu: Some(Widget { id: 2 }),
        meta_button_one: Some(Widget { id: 3 }),
        meta_button_two: Some(Widget { id: 4 }),
        meta_button_three: Some(Widget { id: 5 }),
        list_box: Some(Widget { id: 6 }),
    }
}

#[test]
fn application_identifier_is_fixed() {
    assert_eq!(APPLICATION_ID, "org.evanjs.popover-help");
}

#[test]
fn widget_names_carry_their_identifiers() {
    assert_eq!(WidgetName::Window.id(), "window");
    assert_eq!(WidgetName::MetaContextMenu.id(), "meta_context_menu");
    assert_eq!(WidgetName::MetaButtonOne.id(), "meta_button_one");
    assert_eq!(WidgetName::MetaButtonTwo.id(), "meta_button_two");
    assert_eq!(WidgetName::MetaButtonThree.id(), "meta_button_three");
    assert_eq!(WidgetName::ListBox.id(), "list_box");
}

#[test]
fn missing_widget_messages() {
    assert_eq!(WidgetName::Window.missing_message(), "Couldn't get window");
    assert_eq!(
        WidgetName::MetaContextMenu.missing_message(),
        "Couldn't get meta_context_menu"
    );
    assert_eq!(
        WidgetName::MetaButtonOne.missing_message(),
        "Couldn't get meta_button_one"
    );
    assert_eq!(
        WidgetName::MetaButtonTwo.missing_message(),
        "Couldn't get meta_button_two"
    );
    assert_eq!(
        WidgetName::MetaButtonThree.missing_message(),
        "Couldn't get meta_button_three"
    );
    assert_eq!(WidgetName::ListBox.missing_message(), "Couldn't get list_box");
}

#[test]
fn complete_description_misses_nothing() {
    assert_eq!(complete_objects().first_missing(), None);
}

#[test]
fn each_absent_widget_is_reported() {
    let all = complete_objects();
    assert_eq!(
        UiObjects { window: None, ..all }.first_missing(),
        Some(WidgetName::Window)
    );
    assert_eq!(
        UiObjects { meta_context_menu: None, ..all }.first_missing(),
        Some(WidgetName::MetaContextMenu)
    );
    assert_eq!(
        UiObjects { meta_button_one: None, ..all }.first_missing(),
        Some(WidgetName::MetaButtonOne)
    );
    assert_eq!(
        UiObjects { meta_button_two: None, ..all }.first_missing(),
        Some(WidgetName::MetaButtonTwo)
    );
    assert_eq!(
        UiObjects { meta_button_three: None, ..all }.first_missing(),
        Some(WidgetName::MetaButtonThree)
    );
    assert_eq!(
        UiObjects { list_box: None, ..all }.first_missing(),
        Some(WidgetName::ListBox)
    );
}

#[test]
fn first_absent_widget_wins() {
    let all = complete_objects();
    let two_gone = UiObjects { meta_button_two: None, list_box: None, ..all };
    assert_eq!(two_gone.first_missing(), Some(WidgetName::MetaButtonTwo));
    let nothing = UiObjects {
        window: None,
        meta_context_menu: None,
        meta_button_one: None,
        meta_button_two: None,
        meta_button_three: None,
        list_box: None,
    };
    assert_eq!(nothing.first_missing(), Some(WidgetName::Window));
}

#[test]
fn get_object_reads_each_name() {
    let all = complete_objects();
    assert_eq!(all.get_object(WidgetName::Window), Some(Widget { id: 1 }));
    assert_eq!(all.get_object(WidgetName::MetaContextMenu), Some(Widget { id: 2 }));
    assert_eq!(all.get_object(WidgetName::MetaButtonOne), Some(Widget { id: 3 }));
    assert_eq!(all.get_object(WidgetName::MetaButtonTwo), Some(Widget { id: 4 }));
    assert_eq!(all.get_object(WidgetName::MetaButtonThree), Some(Widget { id: 5 }));
    assert_eq!(all.get_object(WidgetName::ListBox), Some(Widget { id: 6 }));
    let gone = UiObjects { meta_button_three: None, ..all };
    assert_eq!(gone.get_object(WidgetName::MetaButtonThree), None);
}

#[test]
fn new_binds_the_widgets() {
    let application = Application { id: 42 };
    let ctx = AppCtx::new(&application, &complete_objects());
    assert_eq!(
        ctx.get_window(),
        ApplicationWindow {
            widget: Widget { id: 1 },
            application: Some(application),
            visible: false,
        }
    );
    assert_eq!(
        ctx.get_meta_context_menu(),
        PopoverMenu { widget: Widget { id: 2 }, visible: false, relative_to: None }
    );
    assert_eq!(
        ctx.get_search_buttons(),
        SearchButtons {
            button_one: Button { widget: Widget { id: 3 } },
            button_two: Button { widget: Widget { id: 4 } },
            button_three: Button { widget: Widget { id: 5 } },
        }
    );
    assert_eq!(
        ctx.get_list_box(),
        ListBox { widget: Widget { id: 6 }, selected_row: None }
    );
    assert!(ctx.get_handlers().is_empty());
}

#[test]
fn search_buttons_hand_out_their_three_buttons() {
    let buttons = SearchButtons {
        button_one: Button { widget: Widget { id: 3 } },
        button_two: Button { widget: Widget { id: 4 } },
        button_three: Button { widget: Widget { id: 5 } },
    };
    assert_eq!(buttons.get_button_one(), Button { widget: Widget { id: 3 } });
    assert_eq!(buttons.get_button_two(), Button { widget: Widget { id: 4 } });
    assert_eq!(buttons.get_button_three(), Button { widget: Widget { id: 5 } });
}

#[test]
fn build_ui_connects_the_dispatcher_and_shows_the_window() {
    let application = Application { id: 7 };
    let ctx = build_ui(&application, &complete_objects());
    assert!(ctx.get_window().visible);
    assert_eq!(ctx.get_window().application, Some(application));
    assert_eq!(ctx.get_handlers(), &vec![Handler::MouseEvents]);
    assert!(!ctx.get_meta_context_menu().visible);
    assert_eq!(ctx.get_meta_context_menu().relative_to, None);
    assert_eq!(ctx.get_list_box().selected_row, None);
}

#[test]
fn setup_meta_list_adds_one_connection() {
    let mut ctx = AppCtx::new(&Application { id: 0 }, &complete_objects());
    ctx.setup_meta_list();
    assert_eq!(ctx.get_handlers(), &vec![Handler::MouseEvents]);
}

#[test]
fn show_window_touches_only_the_window() {
    let mut ctx = AppCtx::new(&Application { id: 0 }, &complete_objects());
    let before = ctx.clone();
    ctx.show_window();
    assert!(ctx.get_window().visible);
    assert_eq!(ctx.get_window().widget, before.get_window().widget);
    assert_eq!(ctx.get_meta_context_menu(), before.get_meta_context_menu());
    assert_eq!(ctx.get_list_box(), before.get_list_box());
    assert_eq!(ctx.get_handlers(), before.get_handlers());
}

#[test]
fn clone_is_an_equal_snapshot() {
    let mut ctx = build_ui(&Application { id: 0 }, &complete_objects());
    ctx.setup_search_buttons();
    ctx.select_row(Some(Widget { id: 9 }));
    let snapshot = ctx.clone();
    assert_eq!(snapshot, ctx);
    ctx.open_meta_context_menu();
    assert_ne!(snapshot, ctx);
    assert!(!snapshot.get_meta_context_menu().visible);
}

#[test]
fn traces_name_their_button() {
    assert_eq!(SearchButton::One.trace(), "one clicked");
    assert_eq!(SearchButton::Two.trace(), "two clicked");
    assert_eq!(SearchButton::Three.trace(), "three clicked");
}
