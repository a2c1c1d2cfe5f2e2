use crate::menu::menu_id_check_updates;
use crate::menu::menu_id_open_info;
use crate::menu::menu_id_toggle_devtools;
use vstd::prelude::*;
use vstd::string::StringExecFns;

verus! {

/// What a menu selection triggers: opening (or focusing) the
/// informational window, notifying the UI layer to check for updates,
/// toggling the developer-tools panel, or nothing.
#[derive(Clone, Copy, Debug, PartialEq, Eq, Structural)]
pub enum MenuEventAction {
    OpenInfoWindow,
    EmitCheckForUpdates,
    ToggleDevtools,
    Ignore,
}

/// The action that a menu identifier dispatches to.
pub open spec fn dispatch_spec(id: Seq<char>) -> MenuEventAction {
    if id == menu_id_open_info() {
        MenuEventAction::OpenInfoWindow
    } else if id == menu_id_check_updates() {
        MenuEventAction::EmitCheckForUpdates
    } else if id == menu_id_toggle_devtools() {
        MenuEventAction::ToggleDevtools
    } else {
        MenuEventAction::Ignore
    }
}

/// Matches a selected menu identifier to the action it triggers; an
/// unknown identifier triggers nothing.
pub fn dispatch_menu_event(id: &String) -> (a: MenuEventAction)
    ensures
        a == dispatch_spec(id@),
{
    if *id == String::from_str("open_hc3_info") {
        MenuEventAction::OpenInfoWindow
    } else if *id == String::from_str("check_for_updates") {
        MenuEventAction::EmitCheckForUpdates
    } else if *id == String::from_str("toggle_devtools") {
        MenuEventAction::ToggleDevtools
    } else {
        MenuEventAction::Ignore
    }
}

/// What the developer-tools toggle does to the panel of the main
/// window: nothing without a main window, otherwise close an open panel
/// or open a closed one.
#[derive(Clone, Copy, Debug, PartialEq, Eq, Structural)]
pub enum DevtoolsAction {
    OpenPanel,
    ClosePanel,
    NoMainWindow,
}

/// The developer-tools decision for a given state of the main window.
pub open spec fn devtools_toggle_spec(main_window_present: bool, panel_open: bool) -> DevtoolsAction {
    if !main_window_present {
        DevtoolsAction::NoMainWindow
    } else if panel_open {
        DevtoolsAction::ClosePanel
    } else {
        DevtoolsAction::OpenPanel
    }
}

/// Decides what the developer-tools toggle does: with no main window it
/// does nothing, otherwise it closes the panel if open and opens it if
/// closed.
pub fn devtools_toggle_action(main_window_present: bool, panel_open: bool) -> (a: DevtoolsAction)
    ensures
        a == devtools_toggle_spec(main_window_present, panel_open),
{
    if !main_window_present {
        DevtoolsAction::NoMainWindow
    } else if panel_open {
        DevtoolsAction::ClosePanel
    } else {
        DevtoolsAction::OpenPanel
    }
}

} // verus!
