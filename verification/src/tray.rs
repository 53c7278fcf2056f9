//! The tray menu: what a click on one of its items asks for.

use vstd::prelude::*;

verus! {

/// What a tray menu item asks the main window to do.
#[derive(Clone, Copy, Debug, PartialEq, Eq, Structural)]
pub enum TrayAction {
    /// Show the main window.
    Show,
    /// Hide the main window.
    Hide,
    /// The item is not one of the menu's: nothing is done.
    Ignore,
}

/// The action that the menu item with the identifier `id` stands for.
pub open spec fn action_of(id: Seq<char>) -> TrayAction {
    if id == "show"@ {
        TrayAction::Show
    } else if id == "hide"@ {
        TrayAction::Hide
    } else {
        TrayAction::Ignore
    }
}

/// Whether two texts are the same.
fn same_text(left: &str, right: &str) -> (same: bool)
    ensures
        same == (left@ == right@),
{
    left.to_owned() == right.to_owned()
}

/// Computes [`action_of`] for a click on the menu item `id`.
pub fn tray_action(id: &str) -> (action: TrayAction)
    ensures
        action == action_of(id@),
{
    if same_text(id, "show") {
        TrayAction::Show
    } else if same_text(id, "hide") {
        TrayAction::Hide
    } else {
        TrayAction::Ignore
    }
}

} // verus!
