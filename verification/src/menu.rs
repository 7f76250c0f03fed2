//! The menu bar as a value: an ordered tree of entries that is built once and
//! handed to the host, which installs it.

use vstd::prelude::*;

verus! {

/// An item whose behaviour the host platform supplies.
#[derive(Debug, PartialEq, Eq)]
pub enum NativeItem {
    /// The "about" panel, shown under the given application name.
    About { app_name: String },
    Hide,
    HideOthers,
    ShowAll,
    Quit,
    Undo,
    Redo,
    Cut,
    Copy,
    Paste,
    EnterFullScreen,
}

/// One entry of a menu.
#[derive(Debug, PartialEq, Eq)]
pub enum MenuEntry {
    /// An item of the application's own, known to event handlers by `id`.
    Action { id: String, label: String },
    /// An item predefined by the platform.
    Native(NativeItem),
    /// A dividing line.
    Separator,
    /// A nested menu shown under `label`.
    Submenu { label: String, menu: MenuSpec },
}

/// A menu: its entries from first to last.
#[derive(Debug, PartialEq, Eq)]
pub struct MenuSpec {
    pub entries: Vec<MenuEntry>,
}

/// What a `NativeItem` stands for.
pub ghost enum NativeItemView {
    About { app_name: Seq<char> },
    Hide,
    HideOthers,
    ShowAll,
    Quit,
    Undo,
    Redo,
    Cut,
    Copy,
    Paste,
    EnterFullScreen,
}

/// What a `MenuEntry` stands for.
pub ghost enum MenuEntryView {
    Action { id: Seq<char>, label: Seq<char> },
    Native(NativeItemView),
    Separator,
    Submenu { label: Seq<char>, menu: MenuView },
}

/// What a `MenuSpec` stands for: the tree itself, free of how it is stored.
pub ghost struct MenuView {
    pub entries: Seq<MenuEntryView>,
}

impl View for NativeItem {
    type V = NativeItemView;

    open spec fn view(&self) -> NativeItemView {
        match self {
            NativeItem::About { app_name } => NativeItemView::About { app_name: app_name@ },
            NativeItem::Hide => NativeItemView::Hide,
            NativeItem::HideOthers => NativeItemView::HideOthers,
            NativeItem::ShowAll => NativeItemView::ShowAll,
            NativeItem::Quit => NativeItemView::Quit,
            NativeItem::Undo => NativeItemView::Undo,
            NativeItem::Redo => NativeItemView::Redo,
            NativeItem::Cut => NativeItemView::Cut,
            NativeItem::Copy => NativeItemView::Copy,
            NativeItem::Paste => NativeItemView::Paste,
            NativeItem::EnterFullScreen => NativeItemView::EnterFullScreen,
        }
    }
}

/// The tree that `menu` stands for.
pub open spec fn menu_view(menu: MenuSpec) -> MenuView
    decreases menu,
{
    MenuView {
        entries: Seq::new(
            menu.entries.len() as nat,
            // No index outside the menu is ever asked for; the test is there
            // so that `entry_view` is only applied to an entry of `menu`,
            // which is what makes the definition well-founded.
            |i: int|
                if 0 <= i < menu.entries.len() {
                    entry_view(menu.entries[i])
                } else {
                    MenuEntryView::Separator
                },
        ),
    }
}

/// The entry that `entry` stands for.
pub open spec fn entry_view(entry: MenuEntry) -> MenuEntryView
    decreases entry,
{
    match entry {
        MenuEntry::Action { id, label } => MenuEntryView::Action { id: id@, label: label@ },
        MenuEntry::Native(item) => MenuEntryView::Native(item@),
        MenuEntry::Separator => MenuEntryView::Separator,
        MenuEntry::Submenu { label, menu } => MenuEntryView::Submenu {
            label: label@,
            menu: menu_view(menu),
        },
    }
}

impl View for MenuEntry {
    type V = MenuEntryView;

    open spec fn view(&self) -> MenuEntryView {
        entry_view(*self)
    }
}

impl View for MenuSpec {
    type V = MenuView;

    open spec fn view(&self) -> MenuView {
        menu_view(*self)
    }
}

impl MenuSpec {
    /// A menu without entries.
    pub fn new() -> (menu: MenuSpec)
        ensures
            menu@.entries == Seq::<MenuEntryView>::empty(),
    {
        MenuSpec { entries: Vec::new() }
    }

    /// The menu with `entry` added after the entries it already has.
    pub fn add_entry(self, entry: MenuEntry) -> (menu: MenuSpec)
        ensures
            menu@.entries == self@.entries.push(entry@),
    {
        let mut entries = self.entries;
        entries.push(entry);
        let menu = MenuSpec { entries };
        assert(menu@.entries =~= self@.entries.push(entry@));
        menu
    }

    /// The menu with an item of the application's own added at the end.
    pub fn add_action(self, id: &str, label: &str) -> (menu: MenuSpec)
        ensures
            menu@.entries == self@.entries.push(
                MenuEntryView::Action { id: id@, label: label@ },
            ),
    {
        self.add_entry(MenuEntry::Action { id: id.to_owned(), label: label.to_owned() })
    }

    /// The menu with a platform item added at the end.
    pub fn add_native_item(self, item: NativeItem) -> (menu: MenuSpec)
        ensures
            menu@.entries == self@.entries.push(MenuEntryView::Native(item@)),
    {
        self.add_entry(MenuEntry::Native(item))
    }

    /// The menu with a dividing line added at the end.
    pub fn add_separator(self) -> (menu: MenuSpec)
        ensures
            menu@.entries == self@.entries.push(MenuEntryView::Separator),
    {
        self.add_entry(MenuEntry::Separator)
    }

    /// The menu with `inner` added at the end as a submenu shown under `label`.
    pub fn add_submenu(self, label: &str, inner: MenuSpec) -> (menu: MenuSpec)
        ensures
            menu@.entries == self@.entries.push(
                MenuEntryView::Submenu { label: label@, menu: inner@ },
            ),
    {
        self.add_entry(MenuEntry::Submenu { label: label.to_owned(), menu: inner })
    }
}

/// The name under which the application presents itself.
pub open spec fn app_name() -> Seq<char> {
    "Discourse"@
}

/// The application's own submenu: about, then what hides and shows windows,
/// then quit.
pub open spec fn app_submenu() -> MenuView {
    MenuView {
        entries: seq![
            MenuEntryView::Native(NativeItemView::About { app_name: app_name() }),
            MenuEntryView::Separator,
            MenuEntryView::Native(NativeItemView::Hide),
            MenuEntryView::Native(NativeItemView::HideOthers),
            MenuEntryView::Native(NativeItemView::ShowAll),
            MenuEntryView::Separator,
            MenuEntryView::Native(NativeItemView::Quit),
        ],
    }
}

/// The editing submenu: undo and redo, then the clipboard.
pub open spec fn edit_submenu() -> MenuView {
    MenuView {
        entries: seq![
            MenuEntryView::Native(NativeItemView::Undo),
            MenuEntryView::Native(NativeItemView::Redo),
            MenuEntryView::Separator,
            MenuEntryView::Native(NativeItemView::Cut),
            MenuEntryView::Native(NativeItemView::Copy),
            MenuEntryView::Native(NativeItemView::Paste),
        ],
    }
}

/// The whole menu bar: the two submenus, then the items that stand beside
/// them.
pub open spec fn menu_bar() -> MenuView {
    MenuView {
        entries: seq![
            MenuEntryView::Submenu { label: "Discourse"@, menu: app_submenu() },
            MenuEntryView::Submenu { label: "Edit"@, menu: edit_submenu() },
            MenuEntryView::Native(NativeItemView::EnterFullScreen),
            MenuEntryView::Separator,
            MenuEntryView::Native(NativeItemView::Quit),
        ],
    }
}

/// Builds the menu bar. It takes nothing and reads nothing, so every call
/// gives the same tree.
pub fn get() -> (menu: MenuSpec)
    ensures
        menu@ == menu_bar(),
{
    let app = MenuSpec::new()
        .add_native_item(NativeItem::About { app_name: "Discourse".to_owned() })
        .add_separator()
        .add_native_item(NativeItem::Hide)
        .add_native_item(NativeItem::HideOthers)
        .add_native_item(NativeItem::ShowAll)
        .add_separator()
        .add_native_item(NativeItem::Quit);
    assert(app@.entries =~= app_submenu().entries);
    let edit = MenuSpec::new()
        .add_native_item(NativeItem::Undo)
        .add_native_item(NativeItem::Redo)
        .add_separator()
        .add_native_item(NativeItem::Cut)
        .add_native_item(NativeItem::Copy)
        .add_native_item(NativeItem::Paste);
    assert(edit@.entries =~= edit_submenu().entries);
    let menu = MenuSpec::new()
        .add_submenu("Discourse", app)
        .add_submenu("Edit", edit)
        .add_native_item(NativeItem::EnterFullScreen)
        .add_separator()
        .add_native_item(NativeItem::Quit);
    assert(menu@.entries =~= menu_bar().entries);
    menu
}

/// Two menus that were each built by `get` stand for the same tree: the menu
/// bar depends on nothing that could differ between one call and the next.
pub proof fn lemma_get_is_deterministic(first: MenuSpec, second: MenuSpec)
    requires
        first@ == menu_bar(),
        second@ == menu_bar(),
    ensures
        first@ == second@,
{
}

} // verus!
