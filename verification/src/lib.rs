//! A model of a list box whose rows reveal a popover context menu.
//!
//! A press of the secondary mouse button on a selected row anchors the menu to
//! that row and opens it; each of the menu's three buttons closes it again.
//! The widgets themselves belong to a windowing toolkit. This crate holds what
//! the program decides about them: which names the interface description has to
//! define, what a mouse event does to the menu, and what a click handler does.
//! Every function states its effect on a plain model of the widgets, and the
//! module `laws` proves what holds of those effects taken together.

pub mod context;
pub mod dispatch;
pub mod event;
pub mod laws;
pub mod state;
pub mod ui;
pub mod widget;
