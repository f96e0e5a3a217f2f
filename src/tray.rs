//! Tray menu identifiers and the decisions taken on their events.
use vstd::prelude::*;
use crate::text::str_eq;

verus! {

pub const TRAY_MENU_TOGGLE_WINDOW: &'static str = "tray_toggle_window";
pub const TRAY_MENU_RELOAD_WINDOW: &'static str = "tray_reload_window";
pub const TRAY_MENU_RESTART_BACKEND: &'static str = "tray_restart_backend";
pub const TRAY_MENU_TOGGLE_AUTO_UPDATE_CHECK: &'static str = "tray_toggle_auto_update_check";
pub const TRAY_MENU_QUIT: &'static str = "tray_quit";

#[derive(Debug, Clone, Copy, PartialEq, Eq, Structural)]
pub enum TrayMenuAction {
    ToggleWindow,
    ReloadWindow,
    RestartBackend,
    ToggleAutoUpdateCheck,
    Quit,
}

/// The action of a tray menu identifier.
pub open spec fn menu_action(id: Seq<char>) -> Option<TrayMenuAction> {
    if id == TRAY_MENU_TOGGLE_WINDOW@ {
        Some(TrayMenuAction::ToggleWindow)
    } else if id == TRAY_MENU_RELOAD_WINDOW@ {
        Some(TrayMenuAction::ReloadWindow)
    } else if id == TRAY_MENU_RESTART_BACKEND@ {
        Some(TrayMenuAction::RestartBackend)
    } else if id == TRAY_MENU_TOGGLE_AUTO_UPDATE_CHECK@ {
        Some(TrayMenuAction::ToggleAutoUpdateCheck)
    } else if id == TRAY_MENU_QUIT@ {
        Some(TrayMenuAction::Quit)
    } else {
        None
    }
}

/// Maps a tray menu identifier to its action; unknown identifiers map to none.
pub fn action_from_menu_id(menu_id: &str) -> (r: Option<TrayMenuAction>)
    ensures
        r == menu_action(menu_id@),
{
    if str_eq(menu_id, TRAY_MENU_TOGGLE_WINDOW) {
        Some(TrayMenuAction::ToggleWindow)
    } else if str_eq(menu_id, TRAY_MENU_RELOAD_WINDOW) {
        Some(TrayMenuAction::ReloadWindow)
    } else if str_eq(menu_id, TRAY_MENU_RESTART_BACKEND) {
        Some(TrayMenuAction::RestartBackend)
    } else if str_eq(menu_id, TRAY_MENU_TOGGLE_AUTO_UPDATE_CHECK) {
        Some(TrayMenuAction::ToggleAutoUpdateCheck)
    } else if str_eq(menu_id, TRAY_MENU_QUIT) {
        Some(TrayMenuAction::Quit)
    } else {
        None
    }
}

/// What a restart chosen from the tray menu does.
#[derive(Debug, Clone, Copy, PartialEq, Eq, Structural)]
pub enum TrayRestartDecision {
    IgnoreBecauseBackendActionInProgress,
    ProceedWithRestart,
}

/// A tray restart is ignored while another backend action is in flight, so
/// the menu never waits on it.
pub fn decide_tray_restart(backend_action_in_progress: bool) -> (r: TrayRestartDecision)
    ensures
        r == if backend_action_in_progress {
            TrayRestartDecision::IgnoreBecauseBackendActionInProgress
        } else {
            TrayRestartDecision::ProceedWithRestart
        },
{
    if backend_action_in_progress {
        TrayRestartDecision::IgnoreBecauseBackendActionInProgress
    } else {
        TrayRestartDecision::ProceedWithRestart
    }
}

} // verus!
