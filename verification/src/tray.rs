//! The tray icon's menu and what each tray or window event does.
//!
//! The host runtime renders the menu and delivers events; this module
//! fixes the menu's entries and maps every delivered event to the single
//! action the shell takes on it.

use crate::text::str_eq;
use vstd::prelude::*;

verus! {

/// One entry of the tray's context menu.
#[derive(Debug, PartialEq, Eq)]
pub enum TrayMenuEntry {
    /// A clickable item, identified by `id` and shown as `label`.
    Item { id: String, label: String },
    /// A native separator line.
    Separator,
}

/// An event delivered by the tray icon.
#[derive(Debug, PartialEq, Eq)]
pub enum TrayEvent {
    /// The icon itself was left-clicked.
    LeftClick,
    /// The menu item with this id was clicked.
    MenuItemClick { id: String },
    /// Any other tray event (right click, double click, hover).
    Other,
}

/// What the shell does in response to a tray event.
#[derive(Debug, Clone, Copy, PartialEq, Eq)]
pub enum TrayAction {
    /// Show the main window and give it focus.
    ShowAndFocusWindow,
    /// Hide the main window.
    HideWindow,
    /// Terminate the process.
    QuitApp,
    /// Do nothing.
    Ignore,
}

/// What the shell does when the user asks to close the main window.
#[derive(Debug, Clone, Copy, PartialEq, Eq)]
pub enum WindowCloseAction {
    /// Hide the window and keep the process running in the tray.
    HideAndKeepRunning,
    /// Let the window close.
    AllowClose,
}

/// The action bound to a menu item id: `show`, `hide` and `quit` are the
/// three ids the menu carries; anything else is ignored.
pub open spec fn spec_action_for_menu_id(id: Seq<char>) -> TrayAction {
    if id == "show"@ {
        TrayAction::ShowAndFocusWindow
    } else if id == "hide"@ {
        TrayAction::HideWindow
    } else if id == "quit"@ {
        TrayAction::QuitApp
    } else {
        TrayAction::Ignore
    }
}

/// The action taken on a tray event: a left click shows the window, a
/// menu click acts by the item's id, everything else is ignored.
pub open spec fn spec_tray_action(event: TrayEvent) -> TrayAction {
    match event {
        TrayEvent::LeftClick => TrayAction::ShowAndFocusWindow,
        TrayEvent::MenuItemClick { id } => spec_action_for_menu_id(id@),
        TrayEvent::Other => TrayAction::Ignore,
    }
}

/// Maps a menu item id to the action bound to it.
pub fn action_for_menu_id(id: &str) -> (a: TrayAction)
    ensures
        a == spec_action_for_menu_id(id@),
{
    if str_eq(id, "show") {
        TrayAction::ShowAndFocusWindow
    } else if str_eq(id, "hide") {
        TrayAction::HideWindow
    } else if str_eq(id, "quit") {
        TrayAction::QuitApp
    } else {
        TrayAction::Ignore
    }
}

/// Maps a delivered tray event to the action the shell takes on it.
pub fn tray_action(event: &TrayEvent) -> (a: TrayAction)
    ensures
        a == spec_tray_action(*event),
{
    match event {
        TrayEvent::LeftClick => TrayAction::ShowAndFocusWindow,
        TrayEvent::MenuItemClick { id } => action_for_menu_id(id.as_str()),
        TrayEvent::Other => TrayAction::Ignore,
    }
}

/// Builds the tray menu: Show, Hide, a separator, Quit — in that order.
/// Every clickable entry carries an id that the event dispatch acts on,
/// so no menu item is dead.
pub fn tray_menu() -> (menu: Vec<TrayMenuEntry>)
    ensures
        menu@.len() == 4,
        (menu@[0] matches TrayMenuEntry::Item { id, label } && id@ == "show"@ && label@
            == "Show"@),
        (menu@[1] matches TrayMenuEntry::Item { id, label } && id@ == "hide"@ && label@
            == "Hide"@),
        menu@[2] is Separator,
        (menu@[3] matches TrayMenuEntry::Item { id, label } && id@ == "quit"@ && label@
            == "Quit"@),
        forall|k: int|
            0 <= k < menu@.len() ==> ((#[trigger] menu@[k]) matches TrayMenuEntry::Item { id, .. }
                ==> spec_action_for_menu_id(id@) != TrayAction::Ignore),
{
    let mut menu: Vec<TrayMenuEntry> = Vec::new();
    menu.push(
        TrayMenuEntry::Item { id: String::from_str("show"), label: String::from_str("Show") },
    );
    menu.push(
        TrayMenuEntry::Item { id: String::from_str("hide"), label: String::from_str("Hide") },
    );
    menu.push(TrayMenuEntry::Separator);
    menu.push(
        TrayMenuEntry::Item { id: String::from_str("quit"), label: String::from_str("Quit") },
    );
    menu
}

/// Decides what a close request on the main window does. On the platform
/// that keeps a tray presence the window is hidden and the process keeps
/// running; elsewhere the window is allowed to close.
pub fn window_close_action(hide_to_tray: bool) -> (a: WindowCloseAction)
    ensures
        a == (if hide_to_tray {
            WindowCloseAction::HideAndKeepRunning
        } else {
            WindowCloseAction::AllowClose
        }),
{
    if hide_to_tray {
        WindowCloseAction::HideAndKeepRunning
    } else {
        WindowCloseAction::AllowClose
    }
}

} // verus!
