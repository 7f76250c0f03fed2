use desktop_shell::menu::{get, MenuEntry, MenuSpec, NativeItem};

fn native(item: NativeItem) -> MenuEntry {
    MenuEntry::Native(item)
}

fn submenu_of<'a>(menu: &'a MenuSpec, index: usize, label: &str) -> &'a MenuSpec {
    match &menu.entries[index] {
        MenuEntry::Submenu { label: found, menu } => {
            assert_eq!(found, label);
            menu
        }
        other => panic!("entry {} is {:?}, not a submenu", index, other),
    }
}

#[test]
fn building_twice_gives_the_same_tree() {
    assert_eq!(get(), get());
}

#[test]
fn menu_bar_has_five_entries() {
    assert_eq!(get().entries.len(), 5);
}

#[test]
fn menu_bar_starts_with_the_two_submenus() {
    let menu = get();
    submenu_of(&menu, 0, "Discourse");
    submenu_of(&menu, 1, "Edit");
}

#[test]
fn application_submenu_holds_its_seven_entries_in_order() {
    let menu = get();
    let app = submenu_of(&menu, 0, "Discourse");
    assert_eq!(
        app.entries,
        vec![
            native(NativeItem::About { app_name: String::from("Discourse") }),
            MenuEntry::Separator,
            native(NativeItem::Hide),
            native(NativeItem::HideOthers),
            native(NativeItem::ShowAll),
            MenuEntry::Separator,
            native(NativeItem::Quit),
        ]
    );
}

#[test]
fn about_entry_carries_the_application_name() {
    let menu = get();
    let app = submenu_of(&menu, 0, "Discourse");
    assert_eq!(
        app.entries[0],
        native(NativeItem::About { app_name: String::from("Discourse") })
    );
    assert_ne!(app.entries[0], native(NativeItem::About { app_name: String::new() }));
}

#[test]
fn edit_submenu_holds_its_six_entries_in_order() {
    let menu = get();
    let edit = submenu_of(&menu, 1, "Edit");
    assert_eq!(
        edit.entries,
        vec![
            native(NativeItem::Undo),
            native(NativeItem::Redo),
            MenuEntry::Separator,
            native(NativeItem::Cut),
            native(NativeItem::Copy),
            native(NativeItem::Paste),
        ]
    );
}

#[test]
fn three_entries_follow_the_submenus() {
    let menu = get();
    assert_eq!(
        menu.entries[2..],
        [native(NativeItem::EnterFullScreen), MenuEntry::Separator, native(NativeItem::Quit)]
    );
}

#[test]
fn menu_bar_holds_no_item_of_its_own() {
    fn has_action(menu: &MenuSpec) -> bool {
        menu.entries.iter().any(|entry| match entry {
            MenuEntry::Action { .. } => true,
            MenuEntry::Submenu { menu, .. } => has_action(menu),
            _ => false,
        })
    }
    assert!(!has_action(&get()));
}

#[test]
fn new_menu_is_empty() {
    assert!(MenuSpec::new().entries.is_empty());
}

#[test]
fn add_entry_appends_at_the_end() {
    let menu = MenuSpec::new().add_entry(MenuEntry::Separator).add_entry(native(NativeItem::Cut));
    assert_eq!(menu.entries, vec![MenuEntry::Separator, native(NativeItem::Cut)]);
}

#[test]
fn add_action_keeps_id_and_label_apart() {
    let menu = MenuSpec::new().add_action("open", "Open…");
    assert_eq!(
        menu.entries,
        vec![MenuEntry::Action { id: String::from("open"), label: String::from("Open…") }]
    );
}

#[test]
fn add_native_item_appends_the_item() {
    let menu = MenuSpec::new().add_native_item(NativeItem::Paste).add_native_item(NativeItem::Undo);
    assert_eq!(menu.entries, vec![native(NativeItem::Paste), native(NativeItem::Undo)]);
}

#[test]
fn add_separator_appends_a_separator() {
    let menu = MenuSpec::new().add_native_item(NativeItem::Hide).add_separator();
    assert_eq!(menu.entries, vec![native(NativeItem::Hide), MenuEntry::Separator]);
}

#[test]
fn add_submenu_nests_the_inner_menu() {
    let inner = MenuSpec::new().add_native_item(NativeItem::Copy);
    let menu = MenuSpec::new().add_separator().add_submenu("More", inner);
    assert_eq!(
        menu.entries,
        vec![
            MenuEntry::Separator,
            MenuEntry::Submenu {
                label: String::from("More"),
                menu: MenuSpec { entries: vec![native(NativeItem::Copy)] },
            },
        ]
    );
}

#[test]
fn menus_that_differ_in_order_are_different() {
    let one = MenuSpec::new().add_native_item(NativeItem::Cut).add_native_item(NativeItem::Copy);
    let other = MenuSpec::new().add_native_item(NativeItem::Copy).add_native_item(NativeItem::Cut);
    assert_ne!(one, other);
}
