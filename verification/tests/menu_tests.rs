use xarph_sdk::context_menu::{
    build_desktop_context_menu, build_file_menu, build_trash_menu, menu_for_object, menu_has_action, MenuItem,
};
use xarph_sdk::desktop_object::{new_recent, new_trash, new_workspace_object};

#[test]
fn test_file_menu_has_open() {
    let menu = build_file_menu("test.txt");
    assert!(menu.iter().any(|m| matches!(m, MenuItem::Action { id, .. } if id == "open")));
}

#[test]
fn test_desktop_menu_has_new_folder() {
    let menu = build_desktop_context_menu();
    let has = menu.iter().any(|m| match m {
        MenuItem::Submenu { items, .. } => items.iter().any(|i| matches!(i, MenuItem::Action { id, .. } if id == "new_folder")),
        MenuItem::Action { id, .. } => id == "new_folder",
        _ => false,
    });
    assert!(has);
}

#[test]
fn file_menu_starts_with_the_name() {
    let menu = build_file_menu("notes.md");
    assert!(matches!(&menu[0], MenuItem::Info { label } if label == "notes.md"));
    assert!(menu_has_action(&menu, "open"));
    assert!(!menu_has_action(&menu, "empty_trash"));
}

#[test]
fn menu_for_object_follows_the_kind() {
    let recent = new_recent("a.txt", "/tmp/a.txt", 5, 0, 0);
    let m = menu_for_object(&recent);
    assert!(menu_has_action(&m, "open"));
    assert!(matches!(&m[0], MenuItem::Info { label } if label == "a.txt"));

    let ws = new_workspace_object("Work", 2, 0, 0);
    let m = menu_for_object(&ws);
    assert_eq!(m.len(), 5);
    assert!(menu_has_action(&m, "switch_to"));
    assert!(menu_has_action(&m, "configure"));

    let trash = new_trash("Trash", 0, 0, 0);
    assert_eq!(menu_for_object(&trash).len(), build_trash_menu().len());
}
