//! Entries of the tray menu.

use vstd::prelude::*;
use crate::text::str_equal;

verus! {

/// What a tray menu entry asks for.
#[derive(Debug, Clone, Copy, PartialEq, Eq, Structural)]
pub enum TrayAction {
    Show,
    Hide,
    Quit,
}

/// Identifier of the menu entry of each action.
pub open spec fn menu_id_of(action: TrayAction) -> Seq<char> {
    match action {
        TrayAction::Show => "tray_show"@,
        TrayAction::Hide => "tray_hide"@,
        TrayAction::Quit => "tray_quit"@,
    }
}

/// The action whose menu entry has identifier `id`, if any.
pub open spec fn action_of_menu_id(id: Seq<char>) -> Option<TrayAction> {
    if id == "tray_show"@ {
        Some(TrayAction::Show)
    } else if id == "tray_hide"@ {
        Some(TrayAction::Hide)
    } else if id == "tray_quit"@ {
        Some(TrayAction::Quit)
    } else {
        None
    }
}

impl TrayAction {
    /// Identifier of the menu entry.
    pub fn menu_id(self) -> (id: &'static str)
        ensures
            id@ == menu_id_of(self),
    {
        match self {
            TrayAction::Show => "tray_show",
            TrayAction::Hide => "tray_hide",
            TrayAction::Quit => "tray_quit",
        }
    }

    /// The action of the menu entry `id`; other entries ask for nothing.
    pub fn from_menu_id(id: &str) -> (a: Option<TrayAction>)
        ensures
            a == action_of_menu_id(id@),
    {
        if str_equal(id, "tray_show") {
            Some(TrayAction::Show)
        } else if str_equal(id, "tray_hide") {
            Some(TrayAction::Hide)
        } else if str_equal(id, "tray_quit") {
            Some(TrayAction::Quit)
        } else {
            None
        }
    }
}

/// Each menu entry leads back to its own action.
pub proof fn lemma_menu_id_round_trip(action: TrayAction)
    ensures
        action_of_menu_id(menu_id_of(action)) == Some(action),
{
    reveal_strlit("tray_show");
    reveal_strlit("tray_hide");
    reveal_strlit("tray_quit");
    assert("tray_hide"@[5] != "tray_show"@[5]);
    assert("tray_quit"@[5] != "tray_show"@[5]);
    assert("tray_quit"@[5] != "tray_hide"@[5]);
}

} // verus!
