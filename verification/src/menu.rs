//! The context menu of the status-area icon: its entries, the identifiers
//! that selection events carry, and the order in which the entries appear.

use vstd::prelude::*;

verus! {

/// An entry of the status-area menu.
#[derive(Clone, Copy, PartialEq, Eq, Debug, Structural)]
pub enum MenuEntry {
    /// Shows and focuses the main window.
    Show,
    /// Hides the main window.
    Hide,
    /// A separator line; it cannot be selected and has no identifier.
    Separator,
    /// Terminates the process.
    Quit,
}

/// Whether two strings hold the same text.
pub fn same_text(a: &str, b: &str) -> (same: bool)
    ensures
        same == (a@ == b@),
{
    let left = a.to_owned();
    let right = b.to_owned();
    left == right
}

/// The entries top to bottom: Show, Hide, a separator, Quit.
pub open spec fn layout() -> Seq<MenuEntry> {
    seq![MenuEntry::Show, MenuEntry::Hide, MenuEntry::Separator, MenuEntry::Quit]
}

/// The order in which the platform is asked to create the entries: the three
/// selectable ones first, the separator last.
pub open spec fn creation_order() -> Seq<MenuEntry> {
    seq![MenuEntry::Show, MenuEntry::Hide, MenuEntry::Quit, MenuEntry::Separator]
}

/// The entry that a selection event with identifier `id` refers to, if any.
pub open spec fn entry_with_id(id: Seq<char>) -> Option<MenuEntry> {
    if id == "tray_show"@ {
        Some(MenuEntry::Show)
    } else if id == "tray_hide"@ {
        Some(MenuEntry::Hide)
    } else if id == "tray_quit"@ {
        Some(MenuEntry::Quit)
    } else {
        None
    }
}

impl MenuEntry {
    /// The identifier under which the entry is registered with the platform.
    pub open spec fn spec_id(self) -> Option<Seq<char>> {
        match self {
            MenuEntry::Show => Some("tray_show"@),
            MenuEntry::Hide => Some("tray_hide"@),
            MenuEntry::Quit => Some("tray_quit"@),
            MenuEntry::Separator => None,
        }
    }

    /// The text that the entry displays.
    pub open spec fn spec_label(self) -> Option<Seq<char>> {
        match self {
            MenuEntry::Show => Some("Show App"@),
            MenuEntry::Hide => Some("Hide App"@),
            MenuEntry::Quit => Some("Quit"@),
            MenuEntry::Separator => None,
        }
    }

    /// Whether the entry can be selected, that is, whether it is an item
    /// with an identifier and a label rather than a separator.
    pub open spec fn selectable(self) -> bool {
        self != MenuEntry::Separator
    }

    /// The identifier of a selectable entry, `None` for the separator.
    pub fn id(self) -> (id: Option<&'static str>)
        ensures
            match id {
                Some(text) => self.spec_id() == Some(text@),
                None => self.spec_id() is None,
            },
    {
        match self {
            MenuEntry::Show => Some("tray_show"),
            MenuEntry::Hide => Some("tray_hide"),
            MenuEntry::Quit => Some("tray_quit"),
            MenuEntry::Separator => None,
        }
    }

    /// The label of a selectable entry, `None` for the separator.
    pub fn label(self) -> (label: Option<&'static str>)
        ensures
            match label {
                Some(text) => self.spec_label() == Some(text@),
                None => self.spec_label() is None,
            },
    {
        match self {
            MenuEntry::Show => Some("Show App"),
            MenuEntry::Hide => Some("Hide App"),
            MenuEntry::Quit => Some("Quit"),
            MenuEntry::Separator => None,
        }
    }

    /// Whether the entry is created enabled. Every selectable entry is.
    pub fn enabled(self) -> (enabled: bool)
        ensures
            enabled == self.selectable(),
    {
        match self {
            MenuEntry::Separator => false,
            _ => true,
        }
    }

    /// The entry registered under `id`; `None` for any other identifier.
    pub fn from_id(id: &str) -> (entry: Option<MenuEntry>)
        ensures
            entry == entry_with_id(id@),
    {
        if same_text(id, "tray_show") {
            Some(MenuEntry::Show)
        } else if same_text(id, "tray_hide") {
            Some(MenuEntry::Hide)
        } else if same_text(id, "tray_quit") {
            Some(MenuEntry::Quit)
        } else {
            None
        }
    }
}

/// The entries of the menu in the order in which they appear.
pub fn menu_layout() -> (entries: Vec<MenuEntry>)
    ensures
        entries@ == layout(),
{
    vec![MenuEntry::Show, MenuEntry::Hide, MenuEntry::Separator, MenuEntry::Quit]
}

/// The three identifiers differ from each other.
pub proof fn lemma_ids_distinct()
    ensures
        "tray_show"@ != "tray_hide"@,
        "tray_show"@ != "tray_quit"@,
        "tray_hide"@ != "tray_quit"@,
{
    reveal_strlit("tray_show");
    reveal_strlit("tray_hide");
    reveal_strlit("tray_quit");
    assert("tray_show"@[5] == 's');
    assert("tray_hide"@[5] == 'h');
    assert("tray_quit"@[5] == 'q');
}

/// Identifiers are stable routing keys: looking up the identifier of a
/// selectable entry gives that entry back, and an identifier that is found
/// is the identifier of the entry found. The separator is never found.
pub proof fn lemma_id_round_trip(entry: MenuEntry, id: Seq<char>)
    ensures
        entry.selectable() ==> entry.spec_id() is Some && entry_with_id(entry.spec_id().unwrap())
            == Some(entry),
        entry_with_id(id) == Some(entry) <==> entry.spec_id() == Some(id),
        entry_with_id(id) != Some(MenuEntry::Separator),
{
    lemma_ids_distinct();
}

/// The layout holds every entry exactly once, and so does the creation
/// order: the two differ only in where the separator stands.
pub proof fn lemma_layout_complete(entry: MenuEntry)
    ensures
        layout().len() == 4,
        creation_order().len() == 4,
        exists|i: int| 0 <= i < 4 && #[trigger] layout()[i] == entry,
        exists|i: int| 0 <= i < 4 && #[trigger] creation_order()[i] == entry,
        layout().no_duplicates(),
        creation_order().no_duplicates(),
{
    match entry {
        MenuEntry::Show => {
            assert(layout()[0] == entry);
            assert(creation_order()[0] == entry);
        },
        MenuEntry::Hide => {
            assert(layout()[1] == entry);
            assert(creation_order()[1] == entry);
        },
        MenuEntry::Separator => {
            assert(layout()[2] == entry);
            assert(creation_order()[3] == entry);
        },
        MenuEntry::Quit => {
            assert(layout()[3] == entry);
            assert(creation_order()[2] == entry);
        },
    }
}

} // verus!
