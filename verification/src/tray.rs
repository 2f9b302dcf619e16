//! The actions of the tray menu.

use crate::text::same_text;
use vstd::prelude::*;

verus! {

/// What an entry of the tray menu stands for.
#[derive(Debug, Clone, Copy, PartialEq, Eq, Structural)]
pub enum MenuAction {
    /// Leave the program, after the cleanup.
    Quit,
    /// Show the settings window and give it the focus.
    Show,
    /// Create today's folder now.
    CreateNow,
    /// Show today's folder, or the base path when there is none yet.
    OpenFolder,
}

/// The identifier under which an action is entered in the menu.
pub open spec fn menu_id(action: MenuAction) -> Seq<char> {
    match action {
        MenuAction::Quit => "quit"@,
        MenuAction::Show => "show"@,
        MenuAction::CreateNow => "create_now"@,
        MenuAction::OpenFolder => "open_folder"@,
    }
}

/// The action that a menu identifier stands for, if any.
pub open spec fn menu_action(id: Seq<char>) -> Option<MenuAction> {
    if id == "quit"@ {
        Some(MenuAction::Quit)
    } else if id == "show"@ {
        Some(MenuAction::Show)
    } else if id == "create_now"@ {
        Some(MenuAction::CreateNow)
    } else if id == "open_folder"@ {
        Some(MenuAction::OpenFolder)
    } else {
        None
    }
}

impl MenuAction {
    /// The identifier under which this action is entered in the menu.
    pub fn id(&self) -> (id: &'static str)
        ensures
            id@ == menu_id(*self),
    {
        match self {
            MenuAction::Quit => "quit",
            MenuAction::Show => "show",
            MenuAction::CreateNow => "create_now",
            MenuAction::OpenFolder => "open_folder",
        }
    }

    /// The action of the menu entry with this identifier. An identifier that
    /// the menu does not hold stands for nothing.
    pub fn from_id(id: &str) -> (action: Option<MenuAction>)
        ensures
            action == menu_action(id@),
    {
        if same_text(id, "quit") {
            Some(MenuAction::Quit)
        } else if same_text(id, "show") {
            Some(MenuAction::Show)
        } else if same_text(id, "create_now") {
            Some(MenuAction::CreateNow)
        } else if same_text(id, "open_folder") {
            Some(MenuAction::OpenFolder)
        } else {
            None
        }
    }
}

/// Every action is found again under its own identifier, so no two entries
/// of the menu trigger the same action by mistake.
pub proof fn lemma_menu_id_round_trip(action: MenuAction)
    ensures
        menu_action(menu_id(action)) == Some(action),
{
    reveal_strlit("quit");
    reveal_strlit("show");
    reveal_strlit("create_now");
    reveal_strlit("open_folder");
    assert("quit"@[0] != "show"@[0]);
    assert("quit"@.len() != "create_now"@.len());
    assert("quit"@.len() != "open_folder"@.len());
    assert("show"@.len() != "create_now"@.len());
    assert("show"@.len() != "open_folder"@.len());
    assert("create_now"@.len() != "open_folder"@.len());
}

} // verus!
