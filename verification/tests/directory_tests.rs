use xarph_sdk::app_registry::{AppRegistry, DesktopEntryInfo};
use xarph_sdk::config::{config_dir_in, config_path_in, ThemeManager};
use xarph_sdk::context_menu::{build_folder_menu, MenuItem};
use xarph_sdk::desktop_registry::DesktopRegistry;
use xarph_sdk::file_browser::FileBrowser;
use xarph_sdk::notification_service::NotificationService;
use xarph_sdk::settings_model::SettingsModel;
use xarph_sdk::wallpaper_engine::WallpaperEngine;

fn some(s: &str) -> Option<String> {
    Some(s.to_string())
}

#[test]
fn configuration_paths_follow_the_configuration_directory() {
    assert_eq!(config_path_in(some("/home/u/.config")), "/home/u/.config/xarph/xarph.toml");
    assert_eq!(config_path_in(None), "~/.config/xarph/xarph.toml");
    assert_eq!(config_dir_in(some("/etc/cfg/")), "/etc/cfg/xarph/conf");
    assert_eq!(config_dir_in(None), "~/.config/xarph/conf");
    assert_eq!(DesktopRegistry::default_path_in(some("/c")), "/c/xarph/desktop/objects.json");
    assert_eq!(DesktopRegistry::default_path_in(None), "~/.config/xarph/desktop/objects.json");
    assert_eq!(WallpaperEngine::favorites_path_in(some("/c")), "/c/xarph/desktop/wallpaper_favorites.json");
    assert_eq!(WallpaperEngine::favorites_path_in(None), "~/.config/xarph/desktop/wallpaper_favorites.json");
}

#[test]
fn data_paths_follow_the_data_directories() {
    assert_eq!(ThemeManager::new_in(some("/d")).theme_dir(), "/d/xarph/themes");
    assert_eq!(ThemeManager::new_in(None).theme_dir(), "~/.local/share/xarph/themes");
    assert_eq!(NotificationService::notifications_dir_in(some("/l")), "/l/xarph/notifications");
    assert_eq!(NotificationService::notifications_dir_in(None), "~/.local/share/xarph/notifications");
}

#[test]
fn search_directories_follow_the_user_directories() {
    let dirs = WallpaperEngine::wallpaper_dirs_in(some("/h"), some("/d"), some("/c"));
    assert_eq!(
        dirs,
        vec![
            "/usr/share/backgrounds",
            "/usr/share/wallpapers",
            "/h/Pictures/Wallpapers",
            "/h/Pictures/Backgrounds",
            "/d/wallpapers",
            "/c/xarph/wallpapers",
            "/h/.local/share/backgrounds",
        ]
    );
    let unknown = WallpaperEngine::wallpaper_dirs_in(None, None, None);
    assert_eq!(unknown[2], "Pictures/Wallpapers");
    assert_eq!(unknown[5], "xarph/wallpapers");
    assert_eq!(SettingsModel::theme_dirs_in(some("/h"), some("/d")), vec!["/usr/share/themes", "/h/.themes", "/d/themes"]);
    assert_eq!(SettingsModel::theme_dirs_in(None, None), vec!["/usr/share/themes", ".themes", "themes"]);
}

#[test]
fn going_home_shows_the_home_directory() {
    let mut b = FileBrowser::new();
    b.go_home_to(some("/home/u"));
    assert_eq!(b.current_path, "/home/u");
    assert!(b.can_go_up);
    b.go_home_to(None);
    assert_eq!(b.current_path, "~");
}

#[test]
fn adding_then_removing_a_new_favourite_restores_the_list() {
    let before = vec!["/w/a.png".to_string(), "/w/b.png".to_string()];
    let mut favs = before.clone();
    assert!(WallpaperEngine::add_favorite(&mut favs, "/w/c.png"));
    assert_eq!(favs.len(), 3);
    WallpaperEngine::remove_favorite(&mut favs, "/w/c.png");
    assert_eq!(favs, before);
}

#[test]
fn categories_come_in_strictly_increasing_order() {
    let entry = |id: &str, cats: &[&str]| DesktopEntryInfo {
        id: id.to_string(),
        name: Some(id.to_string()),
        icon: None,
        exec_line: None,
        categories: Some(cats.iter().map(|c| c.to_string()).collect()),
        comment: None,
        has_try_exec: false,
        no_display: false,
    };
    let mut registry = AppRegistry::new();
    registry.refresh_from(vec![entry("a", &["Utility", "System"]), entry("b", &["System", "Audio", "Utility"])]);
    let cats = registry.categories();
    assert_eq!(cats, vec!["Audio", "System", "Utility"]);
    for w in cats.windows(2) {
        assert!(w[0] < w[1]);
    }
}

#[test]
fn the_folder_menu_has_its_shape() {
    let menu = build_folder_menu("Docs");
    assert!(matches!(&menu[0], MenuItem::Info { label } if label == "Docs"));
    assert!(matches!(menu[1], MenuItem::Separator));
    assert!(!matches!(menu[menu.len() - 1], MenuItem::Separator));
    for w in menu.windows(2) {
        assert!(!(matches!(w[0], MenuItem::Separator) && matches!(w[1], MenuItem::Separator)));
    }
    let mut ids = Vec::new();
    for item in &menu {
        if let MenuItem::Action { id, icon, shortcut, enabled, .. } = item {
            assert!(*enabled && icon.is_some() && shortcut.is_none());
            ids.push(id.as_str());
        }
    }
    assert_eq!(ids, vec!["open", "open_in_terminal", "copy", "cut", "rename", "delete", "properties"]);
}
