//! The tray icon: its menu, and what a click on it or on one of its menu
//! items asks for.

use crate::text::{chars_of, equals};
use vstd::prelude::*;

verus! {

/// The identifier of the menu item that opens the window.
pub const SHOW_ITEM: &'static str = "show";

/// The label of the menu item that opens the window.
pub const SHOW_LABEL: &'static str = "Open ZeroLimit";

/// The identifier of the menu item that quits.
pub const QUIT_ITEM: &'static str = "quit";

/// The label of the menu item that quits.
pub const QUIT_LABEL: &'static str = "Quit";

/// The text shown when the pointer rests on the icon.
pub const TOOLTIP: &'static str = "ZeroLimit - API Quota Manager";

/// The label of the window that the tray opens.
pub const MAIN_WINDOW: &'static str = "main";

/// What an event on the tray asks for.
#[derive(Clone, Copy, Debug, PartialEq, Eq, Structural)]
pub enum TrayAction {
    /// Show the main window and give it the focus.
    ShowWindow,
    /// Exit the application.
    Quit,
    /// Nothing.
    Ignore,
}

/// What choosing the menu item with this identifier asks for.
pub fn on_menu_event(item: &str) -> (action: TrayAction)
    ensures
        action == if item@ == SHOW_ITEM@ {
            TrayAction::ShowWindow
        } else if item@ == QUIT_ITEM@ {
            TrayAction::Quit
        } else {
            TrayAction::Ignore
        },
{
    let chars = chars_of(item);
    if equals(&chars, SHOW_ITEM) {
        TrayAction::ShowWindow
    } else if equals(&chars, QUIT_ITEM) {
        TrayAction::Quit
    } else {
        TrayAction::Ignore
    }
}

/// What a click on the icon asks for: the release of the left button shows
/// the window, any other click does nothing.
pub fn on_tray_click(left_button: bool, released: bool) -> (action: TrayAction)
    ensures
        action == if left_button && released {
            TrayAction::ShowWindow
        } else {
            TrayAction::Ignore
        },
{
    if left_button && released {
        TrayAction::ShowWindow
    } else {
        TrayAction::Ignore
    }
}

} // verus!
