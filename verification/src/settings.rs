//! The app's user settings and the exact decision a menu event triggers:
//! which flag flips and which side effect the UI layer must perform.

use vstd::prelude::*;

use crate::text::str_eq;

verus! {

/// The app's persisted user settings.
#[derive(Clone, Copy, Debug, PartialEq, Eq, Structural)]
pub struct Settings {
    /// Start the app at login.
    pub autostart: bool,
    /// Keep running in the background when the window closes.
    pub run_in_background: bool,
    /// Show the tray icon in the macOS menu bar; ignored on other platforms.
    pub show_in_menu_bar: bool,
}

impl Default for Settings {
    /// Fresh settings: no autostart, keep running in the background, show
    /// the menu-bar icon.
    fn default() -> (s: Self)
        ensures
            s == (Settings { autostart: false, run_in_background: true, show_in_menu_bar: true }),
    {
        Settings { autostart: false, run_in_background: true, show_in_menu_bar: true }
    }
}

/// The side effect the UI layer must perform after a menu event.
#[derive(Clone, Copy, Debug, PartialEq, Eq, Structural)]
pub enum MenuEffect {
    /// Show and focus the main window.
    ShowWindow,
    /// Show the window, then start an update check.
    CheckUpdates,
    /// Enable (true) or disable (false) launch-at-login, then persist the
    /// settings.
    ApplyAutostart(bool),
    /// Persist the settings.
    PersistSettings,
    /// Show or hide the tray icon, then persist the settings.
    SetTrayVisible(bool),
    /// Exit the process.
    Quit,
    /// Nothing: the event id is unknown.
    Ignore,
}

/// The new settings and the side effect for one menu event.
pub open spec fn spec_menu_effect(s: Settings, event_id: Seq<char>) -> (Settings, MenuEffect) {
    if event_id == "show"@ {
        (s, MenuEffect::ShowWindow)
    } else if event_id == "check-updates"@ {
        (s, MenuEffect::CheckUpdates)
    } else if event_id == "autostart"@ {
        (
            Settings { autostart: !s.autostart, ..s },
            MenuEffect::ApplyAutostart(!s.autostart),
        )
    } else if event_id == "run-in-background"@ {
        (Settings { run_in_background: !s.run_in_background, ..s }, MenuEffect::PersistSettings)
    } else if event_id == "show-in-menu-bar"@ {
        (
            Settings { show_in_menu_bar: !s.show_in_menu_bar, ..s },
            MenuEffect::SetTrayVisible(!s.show_in_menu_bar),
        )
    } else if event_id == "quit"@ {
        (s, MenuEffect::Quit)
    } else {
        (s, MenuEffect::Ignore)
    }
}

/// Apply one menu event: update the settings and say which side effect the
/// UI layer must perform.
pub fn apply_menu_event(settings: &mut Settings, event_id: &str) -> (effect: MenuEffect)
    ensures
        *final(settings) == spec_menu_effect(*old(settings), event_id@).0,
        effect == spec_menu_effect(*old(settings), event_id@).1,
{
    if str_eq(event_id, "show") {
        MenuEffect::ShowWindow
    } else if str_eq(event_id, "check-updates") {
        MenuEffect::CheckUpdates
    } else if str_eq(event_id, "autostart") {
        settings.autostart = !settings.autostart;
        MenuEffect::ApplyAutostart(settings.autostart)
    } else if str_eq(event_id, "run-in-background") {
        settings.run_in_background = !settings.run_in_background;
        MenuEffect::PersistSettings
    } else if str_eq(event_id, "show-in-menu-bar") {
        settings.show_in_menu_bar = !settings.show_in_menu_bar;
        MenuEffect::SetTrayVisible(settings.show_in_menu_bar)
    } else if str_eq(event_id, "quit") {
        MenuEffect::Quit
    } else {
        MenuEffect::Ignore
    }
}

} // verus!
