//! The tray menu: its two entries and the mapping from the entry identifier
//! that an event carries to a closed set of actions.
//!
//! The menu is fixed at build time: a "show" entry that reopens the window
//! and a "quit" entry that ends the process.  Events arrive keyed by a string
//! identifier; [`classify_menu_id`] turns that string into a [`MenuAction`]
//! once, at the boundary, and everything after it matches exhaustively.

use vstd::prelude::*;

verus! {

/// What a tray-menu event asks for.  Identifiers outside the menu's fixed set
/// map to [`MenuAction::Unknown`], which later dispatch ignores, so the menu
/// can grow without breaking old dispatch sites.
#[derive(Clone, Copy, Debug, PartialEq, Eq, Structural)]
pub enum MenuAction {
    /// The "show" entry: make the window visible and focus it.
    Show,
    /// The "quit" entry: end the host process.
    Quit,
    /// Any other identifier: ignored.
    Unknown,
}

/// The action a menu identifier denotes.
pub open spec fn classify_spec(id: Seq<char>) -> MenuAction {
    if id == "quit"@ {
        MenuAction::Quit
    } else if id == "show"@ {
        MenuAction::Show
    } else {
        MenuAction::Unknown
    }
}

/// Maps a menu event's string identifier to its action: exactly "quit" and
/// "show" are recognised, everything else is [`MenuAction::Unknown`].
pub fn classify_menu_id(id: &str) -> (action: MenuAction)
    ensures
        action == classify_spec(id@),
{
    proof {
        reveal_strlit("quit");
        reveal_strlit("show");
    }
    let n = id.unicode_len();
    if n != 4 {
        return MenuAction::Unknown;
    }
    let c0 = id.get_char(0);
    let c1 = id.get_char(1);
    let c2 = id.get_char(2);
    let c3 = id.get_char(3);
    if c0 == 'q' && c1 == 'u' && c2 == 'i' && c3 == 't' {
        proof {
            assert(id@ =~= "quit"@);
        }
        MenuAction::Quit
    } else if c0 == 's' && c1 == 'h' && c2 == 'o' && c3 == 'w' {
        proof {
            assert(id@ =~= "show"@);
        }
        MenuAction::Show
    } else {
        MenuAction::Unknown
    }
}

/// One entry of the tray menu: a stable identifier the dispatch is keyed by,
/// and the label the platform displays.
pub struct MenuEntry {
    pub id: String,
    pub label: String,
}

/// The fixed content of the tray menu, in display order.
pub open spec fn menu_spec() -> Seq<(Seq<char>, Seq<char>)> {
    seq![("show"@, "Open Invoices"@), ("quit"@, "Quit Invoices"@)]
}

/// Builds the tray menu's two entries: "show" first, "quit" second, with
/// their display labels.
pub fn tray_menu_entries() -> (entries: Vec<MenuEntry>)
    ensures
        entries@.len() == menu_spec().len(),
        forall|i: int|
            0 <= i < entries@.len() ==> (#[trigger] entries@[i]).id@ == menu_spec()[i].0
                && entries@[i].label@ == menu_spec()[i].1,
{
    let show = MenuEntry { id: "show".to_owned(), label: "Open Invoices".to_owned() };
    let quit = MenuEntry { id: "quit".to_owned(), label: "Quit Invoices".to_owned() };
    let mut entries: Vec<MenuEntry> = Vec::new();
    entries.push(show);
    entries.push(quit);
    entries
}

/// The tooltip shown on the tray icon.
pub fn tray_tooltip() -> (tip: &'static str)
    ensures
        tip@ == "Invoices – Kontrolní hlášení DPH"@,
{
    "Invoices – Kontrolní hlášení DPH"
}

} // verus!
