//! Decisions of the desktop shell: what the tray menu entries do.

use vstd::prelude::*;
use crate::text::str_equal;

verus! {

/// What choosing a tray menu entry does.
#[derive(Clone, Copy, Debug, PartialEq, Eq, Structural)]
pub enum MenuAction {
    /// Show and focus the diagnostics dashboard window.
    ShowDashboard,
    /// Exit the driver.
    Quit,
    /// Nothing.
    Ignore,
}

/// The action of the tray menu entry with identifier `id`.
pub open spec fn menu_action_of(id: Seq<char>) -> MenuAction {
    if id == "show"@ {
        MenuAction::ShowDashboard
    } else if id == "quit"@ {
        MenuAction::Quit
    } else {
        MenuAction::Ignore
    }
}

/// Decides what the tray menu entry `id` does.
pub fn menu_action(id: &str) -> (r: MenuAction)
    ensures
        r == menu_action_of(id@),
{
    if str_equal(id, "show") {
        MenuAction::ShowDashboard
    } else if str_equal(id, "quit") {
        MenuAction::Quit
    } else {
        MenuAction::Ignore
    }
}

} // verus!
