//! The system tray menu's items.

use vstd::prelude::*;

verus! {

/// Identifier of the show/hide item.
pub const MENU_ID_SHOW_HIDE: &'static str = "show-hide";

/// Identifier of the application-settings item.
pub const MENU_ID_APP_SETTINGS: &'static str = "app-settings";

/// Identifier of the quit item.
pub const MENU_ID_QUIT: &'static str = "quit";

/// The tray menu's items as `(identifier, label)`, in menu order.
pub fn menu_item_defs() -> (r: Vec<(&'static str, &'static str)>)
    ensures
        r@.len() == 3,
        r@[0].0@ == "show-hide"@ && r@[0].1@ == "Show/Hide"@,
        r@[1].0@ == "app-settings"@ && r@[1].1@ == "App Settings"@,
        r@[2].0@ == "quit"@ && r@[2].1@ == "Exit"@,
{
    let mut v: Vec<(&'static str, &'static str)> = Vec::new();
    v.push(("show-hide", "Show/Hide"));
    v.push(("app-settings", "App Settings"));
    v.push(("quit", "Exit"));
    v
}

} // verus!
