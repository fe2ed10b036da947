//! Settings shared by the command handlers.

use vstd::prelude::*;

verus! {

/// Settings that every command handler of the application sees.
pub struct AppSettings {
    /// When set, a request to close the window hides it instead of quitting.
    pub run_in_background: bool,
}

/// What the window does when the user asks to close it.
#[derive(Clone, Copy, Debug, PartialEq, Eq, Structural)]
pub enum CloseAction {
    /// Hide the window and keep the application alive.
    HideWindow,
    /// Let the window close.
    Close,
}

impl AppSettings {
    /// Fresh settings: background mode is off.
    pub fn new() -> (settings: AppSettings)
        ensures
            !settings.run_in_background,
    {
        AppSettings { run_in_background: false }
    }
}

/// Reads the background-mode flag.
pub fn get_run_in_background(settings: &AppSettings) -> (enabled: bool)
    ensures
        enabled == settings.run_in_background,
{
    settings.run_in_background
}

/// Sets the background-mode flag.
pub fn set_run_in_background(settings: &mut AppSettings, enabled: bool)
    ensures
        final(settings).run_in_background == enabled,
{
    settings.run_in_background = enabled;
}

/// Decides what a close request does: with background mode on the window is
/// hidden and the close is suppressed, otherwise the window closes.
pub fn on_close_requested(settings: &AppSettings) -> (action: CloseAction)
    ensures
        action == if settings.run_in_background {
            CloseAction::HideWindow
        } else {
            CloseAction::Close
        },
{
    if settings.run_in_background {
        CloseAction::HideWindow
    } else {
        CloseAction::Close
    }
}

} // verus!
