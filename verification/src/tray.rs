//! The system tray menu: its items and what choosing one does.
//!
//! Building the tray and acting on the window are done by the caller.
use vstd::prelude::*;
use crate::text::{str_eq, strings_view};

verus! {

/// The tooltip of the tray icon.
pub const TRAY_TOOLTIP: &'static str = "ARK Server Manager";

/// The tray menu items, in order: their ids and labels.
pub open spec fn tray_items() -> Seq<(Seq<char>, Seq<char>)> {
    seq![
        ("show"@, "Show Window"@),
        ("start_stop"@, "Start Server"@),
        ("quit"@, "Exit"@),
    ]
}

/// The tray menu items (see [`tray_items`]).
pub fn tray_menu_items() -> (v: Vec<(String, String)>)
    ensures
        v@.map_values(|p: (String, String)| (p.0@, p.1@)) == tray_items(),
{
    let v = vec![
        (String::from_str("show"), String::from_str("Show Window")),
        (String::from_str("start_stop"), String::from_str("Start Server")),
        (String::from_str("quit"), String::from_str("Exit")),
    ];
    assert(v@.map_values(|p: (String, String)| (p.0@, p.1@)) =~= tray_items());
    v
}

/// What choosing a tray menu item does.
#[derive(Clone, Copy, Debug, PartialEq, Eq, Structural)]
pub enum TrayAction {
    /// Show, unminimize and focus the main window.
    ShowWindow,
    /// Ask the interface to start or stop the server (`tray-start-stop`).
    ToggleServer,
    /// Quit the application.
    Quit,
    /// Nothing.
    Ignore,
}

/// The action of a tray menu item by its id: `show`, `start_stop` and
/// `quit` have theirs; any other id does nothing.
pub fn tray_menu_action(id: &str) -> (a: TrayAction)
    ensures
        id@ == "show"@ ==> a == TrayAction::ShowWindow,
        id@ == "start_stop"@ ==> a == TrayAction::ToggleServer,
        id@ == "quit"@ ==> a == TrayAction::Quit,
        (id@ != "show"@ && id@ != "start_stop"@ && id@ != "quit"@) ==> a == TrayAction::Ignore,
{
    proof {
        reveal_strlit("show");
        reveal_strlit("start_stop");
        reveal_strlit("quit");
        assert("start_stop"@.len() != "show"@.len());
        assert("quit"@[0] != "show"@[0]);
        assert("quit"@.len() != "start_stop"@.len());
    }
    if str_eq(id, "show") {
        TrayAction::ShowWindow
    } else if str_eq(id, "start_stop") {
        TrayAction::ToggleServer
    } else if str_eq(id, "quit") {
        TrayAction::Quit
    } else {
        TrayAction::Ignore
    }
}

/// What a click on the tray icon does: a left-button release shows the
/// window; any other click does nothing.
pub fn tray_click_action(left_button: bool, released: bool) -> (a: TrayAction)
    ensures
        (left_button && released) ==> a == TrayAction::ShowWindow,
        !(left_button && released) ==> a == TrayAction::Ignore,
{
    if left_button && released {
        TrayAction::ShowWindow
    } else {
        TrayAction::Ignore
    }
}

} // verus!
