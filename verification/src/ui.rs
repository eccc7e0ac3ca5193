//! The widgets that the interface description has to define.

use vstd::prelude::*;
use crate::widget::Widget;

verus! {

/// The names that the program looks up in the interface description, in the
/// order in which it looks them up.
#[derive(Clone, Copy, Debug, PartialEq, Eq, Structural)]
pub enum WidgetName {
    Window,
    MetaContextMenu,
    MetaButtonOne,
    MetaButtonTwo,
    MetaButtonThree,
    ListBox,
}

impl WidgetName {
    /// The place of this name in the order of lookups, from 0.
    pub open spec fn rank(self) -> int {
        match self {
            WidgetName::Window => 0,
            WidgetName::MetaContextMenu => 1,
            WidgetName::MetaButtonOne => 2,
            WidgetName::MetaButtonTwo => 3,
            WidgetName::MetaButtonThree => 4,
            WidgetName::ListBox => 5,
        }
    }

    /// The identifier that the description gives the widget.
    pub open spec fn spec_id(self) -> Seq<char> {
        match self {
            WidgetName::Window => "window"@,
            WidgetName::MetaContextMenu => "meta_context_menu"@,
            WidgetName::MetaButtonOne => "meta_button_one"@,
            WidgetName::MetaButtonTwo => "meta_button_two"@,
            WidgetName::MetaButtonThree => "meta_button_three"@,
            WidgetName::ListBox => "list_box"@,
        }
    }

    /// The identifier that the description gives the widget.
    pub fn id(&self) -> (id: &'static str)
        ensures
            id@ == self.spec_id(),
    {
        match self {
            WidgetName::Window => "window",
            WidgetName::MetaContextMenu => "meta_context_menu",
            WidgetName::MetaButtonOne => "meta_button_one",
            WidgetName::MetaButtonTwo => "meta_button_two",
            WidgetName::MetaButtonThree => "meta_button_three",
            WidgetName::ListBox => "list_box",
        }
    }

    /// What startup reports before it gives up for want of this widget.
    pub open spec fn spec_missing_message(self) -> Seq<char> {
        match self {
            WidgetName::Window => "Couldn't get window"@,
            WidgetName::MetaContextMenu => "Couldn't get meta_context_menu"@,
            WidgetName::MetaButtonOne => "Couldn't get meta_button_one"@,
            WidgetName::MetaButtonTwo => "Couldn't get meta_button_two"@,
            WidgetName::MetaButtonThree => "Couldn't get meta_button_three"@,
            WidgetName::ListBox => "Couldn't get list_box"@,
        }
    }

    /// What startup reports before it gives up for want of this widget.
    pub fn missing_message(&self) -> (message: &'static str)
        ensures
            message@ == self.spec_missing_message(),
    {
        match self {
            WidgetName::Window => "Couldn't get window",
            WidgetName::MetaContextMenu => "Couldn't get meta_context_menu",
            WidgetName::MetaButtonOne => "Couldn't get meta_button_one",
            WidgetName::MetaButtonTwo => "Couldn't get meta_button_two",
            WidgetName::MetaButtonThree => "Couldn't get meta_button_three",
            WidgetName::ListBox => "Couldn't get list_box",
        }
    }
}

/// What the lookups in a loaded interface description gave: for each name the
/// widget found under it, or `None` where the description defines no widget
/// of that name and kind.
#[derive(Clone, Copy, Debug, PartialEq, Eq, Structural)]
pub struct UiObjects {
    pub window: Option<Widget>,
    pub meta_context_menu: Option<Widget>,
    pub meta_button_one: Option<Widget>,
    pub meta_button_two: Option<Widget>,
    pub meta_button_three: Option<Widget>,
    pub list_box: Option<Widget>,
}

impl UiObjects {
    /// The widget found under `name`.
    pub open spec fn object(self, name: WidgetName) -> Option<Widget> {
        match name {
            WidgetName::Window => self.window,
            WidgetName::MetaContextMenu => self.meta_context_menu,
            WidgetName::MetaButtonOne => self.meta_button_one,
            WidgetName::MetaButtonTwo => self.meta_button_two,
            WidgetName::MetaButtonThree => self.meta_button_three,
            WidgetName::ListBox => self.list_box,
        }
    }

    /// Every name was found.
    pub open spec fn is_complete(self) -> bool {
        forall|name: WidgetName| (#[trigger] self.object(name)) is Some
    }

    /// The widget found under `name`.
    pub fn get_object(&self, name: WidgetName) -> (object: Option<Widget>)
        ensures
            object == self.object(name),
    {
        match name {
            WidgetName::Window => self.window,
            WidgetName::MetaContextMenu => self.meta_context_menu,
            WidgetName::MetaButtonOne => self.meta_button_one,
            WidgetName::MetaButtonTwo => self.meta_button_two,
            WidgetName::MetaButtonThree => self.meta_button_three,
            WidgetName::ListBox => self.list_box,
        }
    }

    /// The first name, in the order of lookups, that was not found: the one
    /// that startup fails on. `None` exactly when every name was found.
    pub fn first_missing(&self) -> (missing: Option<WidgetName>)
        ensures
            missing is None <==> self.is_complete(),
            missing matches Some(name) ==> {
                &&& self.object(name) is None
                &&& forall|earlier: WidgetName|
                    earlier.rank() < name.rank() ==> (#[trigger] self.object(earlier)) is Some
            },
    {
        if self.window.is_none() {
            assert(self.object(WidgetName::Window) is None);
            Some(WidgetName::Window)
        } else if self.meta_context_menu.is_none() {
            assert(self.object(WidgetName::MetaContextMenu) is None);
            Some(WidgetName::MetaContextMenu)
        } else if self.meta_button_one.is_none() {
            assert(self.object(WidgetName::MetaButtonOne) is None);
            Some(WidgetName::MetaButtonOne)
        } else if self.meta_button_two.is_none() {
            assert(self.object(WidgetName::MetaButtonTwo) is None);
            Some(WidgetName::MetaButtonTwo)
        } else if self.meta_button_three.is_none() {
            assert(self.object(WidgetName::MetaButtonThree) is None);
            Some(WidgetName::MetaButtonThree)
        } else if self.list_box.is_none() {
            assert(self.object(WidgetName::ListBox) is None);
            Some(WidgetName::ListBox)
        } else {
            None
        }
    }
}

} // verus!
