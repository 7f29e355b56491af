//! The tray icon's menu: its two entries and where a click on one leads.

use crate::text::same_text;
use vstd::prelude::*;

verus! {

/// The identifier of the entry that toggles the main window.
pub const TOGGLE_ID: &'static str = "toggle";

/// The identifier of the entry that ends the application.
pub const QUIT_ID: &'static str = "quit";

/// The text of the entry that toggles the main window.
pub const TOGGLE_LABEL: &'static str = "显示/隐藏";

/// The text of the entry that ends the application.
pub const QUIT_LABEL: &'static str = "退出";

/// The exit code with which the quit entry ends the process.
pub const QUIT_EXIT_CODE: i32 = 0;

/// Whether the tray icon is drawn as a template image.
pub const ICON_AS_TEMPLATE: bool = true;

/// Whether a left click on the tray icon opens the menu.
pub const MENU_ON_LEFT_CLICK: bool = true;

/// One entry of the tray menu.
#[derive(Clone, Copy, Debug, PartialEq, Eq)]
pub struct MenuEntry {
    pub id: &'static str,
    pub label: &'static str,
    pub enabled: bool,
}

/// A menu entry as plain values.
pub struct MenuEntryView {
    pub id: Seq<char>,
    pub label: Seq<char>,
    pub enabled: bool,
}

impl View for MenuEntry {
    type V = MenuEntryView;

    open spec fn view(&self) -> MenuEntryView {
        MenuEntryView { id: self.id@, label: self.label@, enabled: self.enabled }
    }
}

/// What a click on a menu entry leads to.
#[derive(Clone, Copy, Debug, PartialEq, Eq, Structural)]
pub enum MenuAction {
    /// Toggle the main window in a task of its own, and drop its result.
    Toggle,
    /// End the process at once with this exit code.
    Quit { code: i32 },
    /// The identifier is not one of the menu's: note it and do nothing.
    Ignore,
}

/// The menu, top to bottom: the toggle entry, then the quit entry, both
/// enabled.
pub open spec fn menu() -> Seq<MenuEntryView> {
    seq![
        MenuEntryView { id: TOGGLE_ID@, label: TOGGLE_LABEL@, enabled: true },
        MenuEntryView { id: QUIT_ID@, label: QUIT_LABEL@, enabled: true },
    ]
}

/// Where a click on the entry with identifier `id` leads.
pub open spec fn routed(id: Seq<char>) -> MenuAction {
    if id == QUIT_ID@ {
        MenuAction::Quit { code: QUIT_EXIT_CODE }
    } else if id == TOGGLE_ID@ {
        MenuAction::Toggle
    } else {
        MenuAction::Ignore
    }
}

/// The entries of the tray menu, top to bottom.
pub fn tray_menu() -> (entries: Vec<MenuEntry>)
    ensures
        entries@.map_values(|e: MenuEntry| e@) == menu(),
{
    let mut entries: Vec<MenuEntry> = Vec::new();
    entries.push(MenuEntry { id: TOGGLE_ID, label: TOGGLE_LABEL, enabled: true });
    entries.push(MenuEntry { id: QUIT_ID, label: QUIT_LABEL, enabled: true });
    assert(entries@.map_values(|e: MenuEntry| e@) =~= menu());
    entries
}

/// Routes a click on the menu entry with identifier `id`.
pub fn route_menu_event(id: &str) -> (action: MenuAction)
    ensures
        action == routed(id@),
{
    if same_text(id, QUIT_ID) {
        MenuAction::Quit { code: QUIT_EXIT_CODE }
    } else if same_text(id, TOGGLE_ID) {
        MenuAction::Toggle
    } else {
        MenuAction::Ignore
    }
}

/// Every entry of the menu leads somewhere: the first toggles the window,
/// the second ends the process with exit code 0, and no entry is ignored.
pub proof fn law_menu_entries_are_routed()
    ensures
        menu().len() == 2,
        routed(menu()[0].id) == MenuAction::Toggle,
        routed(menu()[1].id) == (MenuAction::Quit { code: 0 }),
        forall|i: int| 0 <= i < menu().len() ==> routed(#[trigger] menu()[i].id) != MenuAction::Ignore,
{
    reveal_strlit("toggle");
    reveal_strlit("quit");
    assert(TOGGLE_ID@.len() == 6);
    assert(QUIT_ID@.len() == 4);
}

} // verus!
