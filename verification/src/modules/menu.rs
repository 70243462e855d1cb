//! What the entries of the two menus stand for.

use vstd::prelude::*;

verus! {

/// The entries of the main menu, in the order in which they are shown.
pub const MENU_OPTIONS: [&'static str; 4] = [
    "Database menu",
    "Bridge mode (MAINNET -> ECLIPSE)",
    "Warmup mode",
    "Exit",
];

/// The entries of the database menu, in the order in which they are shown.
pub const DB_MENU_OPTIONS: [&'static str; 3] = [
    "Generate a new database",
    "Append data to the existing database",
    "Back",
];

/// What an entry of the main menu asks for.
#[derive(Clone, Copy, Debug, PartialEq, Eq, Structural)]
pub enum MenuAction {
    /// The database menu is shown.
    DatabaseMenu,
    /// The bridge phase runs.
    BridgeMode,
    /// The warmup runs.
    WarmupMode,
    /// The program ends.
    Exit,
    /// There is no such entry: the menu is shown again.
    Invalid,
}

/// What an entry of the database menu asks for.
#[derive(Clone, Copy, Debug, PartialEq, Eq, Structural)]
pub enum DbMenuAction {
    /// The key lists are taken into a store that is opened anew; the main
    /// menu goes on with that store.
    Generate,
    /// The key lists are taken into the store that is open; the database
    /// menu is shown again.
    Append,
    /// The main menu is shown again.
    Back,
    /// There is no such entry: the database menu is shown again.
    Invalid,
}

/// Tells what the entry at this place of the main menu asks for.
pub fn menu_action(selection: usize) -> (action: MenuAction)
    ensures
        action == match selection {
            0 => MenuAction::DatabaseMenu,
            1 => MenuAction::BridgeMode,
            2 => MenuAction::WarmupMode,
            3 => MenuAction::Exit,
            _ => MenuAction::Invalid,
        },
{
    if selection == 0 {
        MenuAction::DatabaseMenu
    } else if selection == 1 {
        MenuAction::BridgeMode
    } else if selection == 2 {
        MenuAction::WarmupMode
    } else if selection == 3 {
        MenuAction::Exit
    } else {
        MenuAction::Invalid
    }
}

/// Tells what the entry at this place of the database menu asks for.
pub fn db_menu_action(selection: usize) -> (action: DbMenuAction)
    ensures
        action == match selection {
            0 => DbMenuAction::Generate,
            1 => DbMenuAction::Append,
            2 => DbMenuAction::Back,
            _ => DbMenuAction::Invalid,
        },
{
    if selection == 0 {
        DbMenuAction::Generate
    } else if selection == 1 {
        DbMenuAction::Append
    } else if selection == 2 {
        DbMenuAction::Back
    } else {
        DbMenuAction::Invalid
    }
}

} // verus!
