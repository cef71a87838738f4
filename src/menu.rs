//! The menu bar: a forest of entries, and the builder that adds a Settings
//! entry to the platform's default menu without dropping any of its entries.
use vstd::prelude::*;

use crate::MENU_OPEN_SETTINGS_ID;

verus! {

/// Label of the Settings menu item.
pub const SETTINGS_LABEL: &'static str = "Settings…";

/// Accelerator of the Settings menu item: the platform's "preferences" key.
pub const SETTINGS_ACCELERATOR: &'static str = "CmdOrCtrl+,";

/// Label of the submenu that receives the Settings item.
pub const FILE_MENU_LABEL: &'static str = "File";

/// Identifier of a File submenu that the builder creates itself.
pub const FILE_MENU_ID: &'static str = "file";

/// The platform the menu is built for: only macOS puts Quit in its application menu.
#[derive(Clone, Copy, PartialEq, Eq, Structural)]
pub enum Platform {
    MacOs,
    Other,
}

/// A plain menu item.
pub struct MenuItem {
    pub id: String,
    pub label: String,
    pub enabled: bool,
    pub accelerator: Option<String>,
}

/// A submenu with its children, in display order.
pub struct Submenu {
    pub id: String,
    pub label: String,
    pub enabled: bool,
    pub items: Vec<MenuEntry>,
}

/// One entry of a menu.
pub enum MenuEntry {
    Item(MenuItem),
    Separator,
    CloseWindow,
    Quit,
    /// Any other item that the platform provides, by its label.
    Native(String),
    Submenu(Submenu),
}

/// `e` is a submenu labelled exactly "File".
pub open spec fn is_file_submenu(e: MenuEntry) -> bool {
    &&& e is Submenu
    &&& e->Submenu_0.label@ == FILE_MENU_LABEL@
}

/// `i` is the position of the first File submenu among `entries`.
pub open spec fn is_first_file_submenu(entries: Seq<MenuEntry>, i: int) -> bool {
    &&& 0 <= i < entries.len()
    &&& is_file_submenu(entries[i])
    &&& forall|j: int| 0 <= j < i ==> !is_file_submenu(#[trigger] entries[j])
}

/// Some top-level entry is a File submenu.
pub open spec fn has_file_submenu(entries: Seq<MenuEntry>) -> bool {
    exists|i: int| 0 <= i < entries.len() && is_file_submenu(#[trigger] entries[i])
}

/// `e` is the Settings item: its identifier, label and accelerator, enabled.
pub open spec fn is_settings_item(e: MenuEntry) -> bool {
    &&& e is Item
    &&& e->Item_0.id@ == MENU_OPEN_SETTINGS_ID@
    &&& e->Item_0.label@ == SETTINGS_LABEL@
    &&& e->Item_0.enabled
    &&& e->Item_0.accelerator is Some
    &&& e->Item_0.accelerator->Some_0@ == SETTINGS_ACCELERATOR@
}

/// `after` is the submenu `before` with Settings and a separator put at its head.
pub open spec fn is_injected(before: Submenu, after: Submenu) -> bool {
    &&& after.id == before.id
    &&& after.label == before.label
    &&& after.enabled == before.enabled
    &&& after.items@.len() == before.items@.len() + 2
    &&& is_settings_item(after.items@[0])
    &&& after.items@[1] is Separator
    &&& after.items@.subrange(2, after.items@.len() as int) == before.items@
}

/// `e` is the File submenu that the builder creates when the platform has none:
/// Settings, a separator, Close Window, and Quit except on macOS.
pub open spec fn is_synthesized_file_menu(e: MenuEntry, platform: Platform) -> bool {
    &&& e is Submenu
    &&& e->Submenu_0.id@ == FILE_MENU_ID@
    &&& e->Submenu_0.label@ == FILE_MENU_LABEL@
    &&& e->Submenu_0.enabled
    &&& e->Submenu_0.items@.len() == if platform == Platform::MacOs { 3int } else { 4int }
    &&& is_settings_item(e->Submenu_0.items@[0])
    &&& e->Submenu_0.items@[1] is Separator
    &&& e->Submenu_0.items@[2] is CloseWindow
    &&& platform != Platform::MacOs ==> e->Submenu_0.items@[3] is Quit
}

/// `built` is the default menu `default` with the Settings entry added.
pub open spec fn is_built_menu(default: Seq<MenuEntry>, built: Seq<MenuEntry>, platform: Platform) -> bool {
    if has_file_submenu(default) {
        exists|i: int|
            #![trigger is_first_file_submenu(default, i)]
            is_first_file_submenu(default, i) && built.len() == default.len()
                && (forall|j: int| 0 <= j < default.len() && j != i ==> built[j] == default[j])
                && built[i] is Submenu
                && is_injected(default[i]->Submenu_0, built[i]->Submenu_0)
    } else {
        &&& built.len() == default.len() + 1
        &&& is_synthesized_file_menu(built[0], platform)
        &&& built.subrange(1, built.len() as int) == default
    }
}

/// Builds the Settings item: identifier "open_settings", enabled, with the
/// preferences accelerator.
pub fn settings_item() -> (r: MenuEntry)
    ensures
        is_settings_item(r),
{
    MenuEntry::Item(
        MenuItem {
            id: MENU_OPEN_SETTINGS_ID.to_owned(),
            label: SETTINGS_LABEL.to_owned(),
            enabled: true,
            accelerator: Some(SETTINGS_ACCELERATOR.to_owned()),
        },
    )
}

/// Tells whether `e` is a submenu labelled exactly "File".
pub fn entry_is_file_submenu(e: &MenuEntry) -> (r: bool)
    ensures
        r == is_file_submenu(*e),
{
    match e {
        MenuEntry::Submenu(s) => s.label == FILE_MENU_LABEL.to_owned(),
        _ => false,
    }
}

/// Position of the first top-level File submenu, scanning in menu order.
pub fn find_file_submenu(entries: &Vec<MenuEntry>) -> (r: Option<usize>)
    ensures
        r is None <==> !has_file_submenu(entries@),
        r matches Some(i) ==> is_first_file_submenu(entries@, i as int),
{
    let mut i: usize = 0;
    while i < entries.len()
        invariant
            i <= entries@.len(),
            forall|j: int| 0 <= j < i ==> !is_file_submenu(#[trigger] entries@[j]),
        decreases entries@.len() - i,
    {
        if entry_is_file_submenu(&entries[i]) {
            return Some(i);
        }
        i = i + 1;
    }
    None
}

/// Builds the File submenu for a platform whose default menu has none.
pub fn synthesized_file_menu(platform: Platform) -> (r: MenuEntry)
    ensures
        is_synthesized_file_menu(r, platform),
{
    let mut items: Vec<MenuEntry> = Vec::new();
    items.push(settings_item());
    items.push(MenuEntry::Separator);
    items.push(MenuEntry::CloseWindow);
    if platform != Platform::MacOs {
        items.push(MenuEntry::Quit);
    }
    MenuEntry::Submenu(
        Submenu {
            id: FILE_MENU_ID.to_owned(),
            label: FILE_MENU_LABEL.to_owned(),
            enabled: true,
            items,
        },
    )
}

/// Adds the Settings entry to the platform's default menu: at the head of the
/// first File submenu, followed by a separator; or, where there is no File
/// submenu, in a new File submenu put first. No default entry is removed or
/// moved.
pub fn build_menu(default: Vec<MenuEntry>, platform: Platform) -> (r: Vec<MenuEntry>)
    ensures
        is_built_menu(default@, r@, platform),
{
    let mut menu = default;
    match find_file_submenu(&menu) {
        Some(i) => {
            let ghost before = menu@;
            let entry = menu.remove(i);
            match entry {
                MenuEntry::Submenu(mut file) => {
                    let ghost old_file = file;
                    file.items.insert(0, MenuEntry::Separator);
                    file.items.insert(0, settings_item());
                    assert(file.items@.subrange(2, file.items@.len() as int) =~= old_file.items@);
                    menu.insert(i, MenuEntry::Submenu(file));
                    assert(is_first_file_submenu(before, i as int));
                },
                // The entry found is a submenu; any other is put back as it was.
                _ => {
                    menu.insert(i, entry);
                },
            }
        },
        None => {
            menu.insert(0, synthesized_file_menu(platform));
            assert(menu@.subrange(1, menu@.len() as int) =~= default@);
        },
    }
    menu
}

} // verus!
