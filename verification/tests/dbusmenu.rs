use std::collections::{HashSet, VecDeque};

use ashpd::dbusmenu::{DBusMenu, DBusMenuItem, DBusMenuLayoutItem, MenuType, MenuValue, Properties};

fn layout_ids(root: &DBusMenuLayoutItem) -> Vec<i32> {
    let mut ids = Vec::new();
    let mut queue: VecDeque<&DBusMenuLayoutItem> = VecDeque::new();
    queue.push_back(root);
    while let Some(item) = queue.pop_front() {
        ids.push(item.id());
        for child in item.children() {
            queue.push_back(child);
        }
    }
    ids
}

#[test]
fn test_dbusmenu_unique_ids() {
    let menu: DBusMenu<u32> = DBusMenu::new()
        .submenu(DBusMenuItem::new().children(vec![DBusMenuItem::new(), DBusMenuItem::new()]))
        .submenu(DBusMenuItem::new());
    let layout = menu.layout(0, -1, &Vec::new());
    let mut set: HashSet<i32> = HashSet::new();
    for id in layout_ids(&layout) {
        assert!(set.insert(id));
    }
    // Every item of the menu has its own number: the root, the two items
    // under it and the two sub-items of the first one.
    let all: Vec<i32> = (0..5).collect();
    let groups = menu.group_properties(&all, &Vec::new());
    let numbers: HashSet<i32> = groups.iter().map(|(id, _)| *id).collect();
    assert_eq!(numbers.len(), 5);
}

#[test]
fn test_dbus_user_id() {
    let menu: DBusMenu<u32> = DBusMenu::new()
        .submenu(
            DBusMenuItem::new().id("id1").label("Test1").children(vec![
                DBusMenuItem::new().id("id10").label("Test-1"),
                DBusMenuItem::new().id("id20").label("Test-2"),
            ]),
        )
        .submenu(DBusMenuItem::new().id("id2").label("Test2"));
    assert!(menu.find_by_user_id("id1").is_some());
    assert!(menu.find_by_user_id("id2").is_some());
    assert!(menu.find_by_user_id("id10").is_some());
    assert!(menu.find_by_user_id("id20").is_some());
    assert!(menu.find_by_user_id("id21").is_none());
}

#[test]
fn dbusmenu_numbers_items_depth_first() {
    let menu: DBusMenu<u32> = DBusMenu::new()
        .submenu(
            DBusMenuItem::new()
                .id("id1")
                .children(vec![DBusMenuItem::new().id("id10"), DBusMenuItem::new().id("id20")]),
        )
        .submenu(DBusMenuItem::new().id("id2"));
    assert_eq!(menu.find_by_user_id("id1"), Some(1));
    assert_eq!(menu.find_by_user_id("id10"), Some(2));
    assert_eq!(menu.find_by_user_id("id20"), Some(3));
    assert_eq!(menu.find_by_user_id("id2"), Some(4));
}

#[test]
fn dbusmenu_root_layout_lists_its_children() {
    let menu: DBusMenu<u32> = DBusMenu::new()
        .submenu(DBusMenuItem::new().label("One"))
        .submenu(DBusMenuItem::new().label("Two"));
    let layout = menu.layout(0, -1, &Vec::new());
    assert_eq!(layout.id(), 0);
    let ids: Vec<i32> = layout.children().iter().map(|c| c.id()).collect();
    assert_eq!(ids, vec![1, 2]);
    assert_eq!(
        layout.properties().get("children-display"),
        Some(&MenuValue::Str("submenu".to_string()))
    );
    assert_eq!(
        layout.children()[0].properties().get("label"),
        Some(&MenuValue::Str("One".to_string()))
    );
    // A depth of 0 shows no children.
    let shallow = menu.layout(0, 0, &Vec::new());
    assert!(shallow.children().is_empty());
}

#[test]
fn dbusmenu_clicked_event_finds_action() {
    let menu: DBusMenu<u32> = DBusMenu::new().submenu(DBusMenuItem::new().on_click(7));
    assert_eq!(menu.event_action(1, "clicked"), Some(&7));
    assert_eq!(menu.event_action(1, "hovered"), None);
    assert_eq!(menu.event_action(0, "clicked"), None);
    assert!(!menu.about_to_show(1));
}

#[test]
fn dbusmenu_take_properties_empties_item() {
    let mut menu: DBusMenu<u32> = DBusMenu::new()
        .submenu(DBusMenuItem::new().label("One").menu_type(MenuType::Separator));
    let taken = menu.take_properties(1).unwrap();
    assert_eq!(taken.0, 1);
    let mut names = taken.1.clone();
    names.sort();
    assert_eq!(names, vec!["label".to_string(), "type".to_string()]);
    assert!(menu.take_properties(1).is_none());
}

#[test]
fn properties_insert_replaces_and_remove_deletes() {
    let mut p = Properties::new();
    assert!(p.is_empty());
    p.insert("label", MenuValue::Str("a".to_string()));
    p.insert("label", MenuValue::Str("b".to_string()));
    p.insert("enabled", MenuValue::Bool(false));
    assert_eq!(p.len(), 2);
    assert_eq!(p.get("label"), Some(&MenuValue::Str("b".to_string())));
    p.remove("label");
    assert!(!p.contains("label"));
    assert_eq!(p.len(), 1);
    let only = p.filtered(&vec!["enabled".to_string(), "missing".to_string()]);
    assert_eq!(only.len(), 1);
    assert_eq!(only.get("enabled"), Some(&MenuValue::Bool(false)));
}
