use xarph_sdk::app_registry::{AppEntry, AppRegistry, DesktopEntryInfo};
use xarph_sdk::config::{
    ConfigError, ConfigLoader, ConfigSource, LoadTarget, PanelAssembly, PanelConfig, PanelDocument, ShellConfig,
    WallpaperConfig, WallpaperMode, WidgetKind, XarphConfig,
};
use xarph_sdk::ipc_types::{
    ColumnDisplay, LayoutSwitchTarget, MaxBpc, ModelineTimings, Transform, WorkspaceReferenceArg,
};
use xarph_sdk::settings_model::SettingsModel;
use xarph_sdk::wallpaper_engine::{WallpaperEngine, WallpaperEntry};

fn entry(id: &str, name: &str, cats: &[&str], no_display: bool) -> DesktopEntryInfo {
    DesktopEntryInfo {
        id: id.to_string(),
        name: Some(name.to_string()),
        icon: None,
        exec_line: Some(format!("{id} %U")),
        categories: Some(cats.iter().map(|c| c.to_string()).collect()),
        comment: Some(format!("The {name} application")),
        has_try_exec: false,
        no_display,
    }
}

#[test]
fn the_registry_lists_displayed_applications_by_name() {
    let mut reg = AppRegistry::new();
    assert!(reg.is_empty());
    reg.refresh_from(vec![
        entry("org.kitty", "kitty", &["System", "TerminalEmulator"], false),
        entry("org.files", "Files", &["System", "FileManager"], false),
        entry("org.hidden", "Hidden", &["System"], true),
        entry("org.alacritty", "Alacritty", &["TerminalEmulator"], false),
    ]);
    assert_eq!(reg.len(), 3);
    let names: Vec<&str> = reg.all().iter().map(|a| a.name.as_str()).collect();
    assert_eq!(names, vec!["Alacritty", "Files", "kitty"]);
    assert_eq!(reg.search("TERMINAL").len(), 2);
    assert_eq!(reg.search("files app").len(), 1);
    assert_eq!(reg.by_category("system").len(), 2);
    assert_eq!(reg.find_by_desktop_id("org.files").unwrap().name, "Files");
    assert!(reg.find_by_desktop_id("org.hidden").is_none());
    assert_eq!(reg.find_by_name("kitty").unwrap().id, "org.kitty");
    assert_eq!(reg.categories(), vec!["FileManager", "System", "TerminalEmulator"]);
}

#[test]
fn an_entry_without_name_is_named_by_its_id() {
    let mut e = entry("org.x", "x", &[], false);
    e.name = None;
    e.categories = None;
    e.has_try_exec = true;
    let a = AppEntry::from_desktop_entry(e);
    assert_eq!(a.name, "org.x");
    assert!(a.categories.is_empty());
    assert!(a.terminal);
    let obj = a.to_object_data(0, 0);
    assert_eq!(obj.object_type(), "application");
    assert_eq!(obj.name(), "org.x");
}

#[test]
fn default_configuration() {
    let c = XarphConfig::default();
    assert_eq!(c.get_theme_name(), None);
    assert!(c.get_widget_visibility("clock"));
    assert!(!c.get_widget_visibility("unknown"));
    assert_eq!(c.shell.panels.len(), 1);
    assert_eq!(c.shell.panels[0].id, "top");
    assert!(matches!(c.wallpaper_global, WallpaperConfig::Color { ref hex } if hex == "#1a1b26"));
}

#[test]
fn workspace_wallpapers_fall_back_to_the_global_one() {
    let mut c = XarphConfig::default();
    let img = WallpaperConfig::Image { path: "/w.png".to_string(), mode: WallpaperMode::Fit };
    c.set_workspace_wallpaper(3, img.clone());
    assert!(matches!(c.get_wallpaper_for_workspace(3), WallpaperConfig::Image { path, .. } if path == "/w.png"));
    assert!(matches!(c.get_wallpaper_for_workspace(4), WallpaperConfig::Color { .. }));
    c.clear_workspace_wallpaper(3);
    assert!(matches!(c.get_wallpaper_for_workspace(3), WallpaperConfig::Color { .. }));
    c.set_widget_visibility("clock", false);
    assert!(!c.get_widget_visibility("clock"));
}

#[test]
fn duplicate_panel_ids_are_rejected() {
    let mut a = PanelAssembly::new();
    let mut p = PanelConfig::default();
    p.id = "same".to_string();
    assert!(a.add_document(PanelDocument { panel: p.clone(), widgets: vec![] }).is_ok());
    match a.add_document(PanelDocument { panel: p, widgets: vec![] }) {
        Err(ConfigError::DuplicatePanelId(id)) => assert_eq!(id, "same"),
        _ => panic!("expected duplicate panel id error"),
    }
    let mut b = PanelAssembly::new();
    let mut q = PanelConfig::default();
    q.id = "same".to_string();
    assert!(b.add_document(PanelDocument { panel: q.clone(), widgets: vec![] }).is_ok());
    match b.add_document(PanelDocument { panel: q, widgets: vec![] }) {
        Err(e @ ConfigError::DuplicatePanelId(_)) => assert!(e.to_text().contains("same")),
        other => panic!("unexpected {:?}", other),
    }
    let c = a.finish(ShellConfig::default());
    assert_eq!(c.shell.panels.len(), 1);
    assert_eq!(c.shell.panels[0].id, "same");
}

#[test]
fn loader_decisions() {
    assert_eq!(ConfigLoader::default_source(false, true, true, false), ConfigSource::Legacy);
    assert_eq!(ConfigLoader::default_source(false, false, false, false), ConfigSource::Defaults);
    assert_eq!(ConfigLoader::path_target(false, Some("shell.conf")), LoadTarget::ParentDirectory);
    assert_eq!(ConfigLoader::path_target(false, Some("xarph.toml")), LoadTarget::LegacyFile);
    assert_eq!(ConfigLoader::include_dir("panels/*.conf").as_deref(), Some("panels"));
    assert_eq!(ConfigLoader::include_dir("panels/top.conf"), None);
    let picked = ConfigLoader::select_includes(vec!["b.conf".into(), ".conf".into(), "a.conf".into(), "x.txt".into()]);
    assert_eq!(picked, vec!["a.conf", "b.conf"]);
}

#[test]
fn settings_model_reads_and_changes_the_configuration() {
    let model = SettingsModel;
    let mut c = XarphConfig::default();
    model.set_theme(&mut c, "nord");
    assert_eq!(model.get_theme(&c).as_deref(), Some("nord"));
    let img = WallpaperConfig::Image { path: "/a.jpg".to_string(), mode: WallpaperMode::Fill };
    model.set_wallpaper(&mut c, img);
    assert!(matches!(model.get_wallpaper(&c), WallpaperConfig::Image { path, .. } if path == "/a.jpg"));
    model.set_workspace_wallpaper(&mut c, 2, WallpaperConfig::Color { hex: "#000".to_string() });
    assert!(matches!(model.get_workspace_wallpaper(&c, 2), WallpaperConfig::Color { hex } if hex == "#000"));
    let kind = c.shell.panels[0].widgets[0].kind;
    model.set_panel_visible(&mut c, &kind, false);
    assert!(!c.shell.panels[0].widgets[0].visible);
    assert!(c.shell.panels[0].widgets.iter().skip(1).all(|w| w.kind == kind || w.visible));
    let themes = SettingsModel::get_available_themes(vec!["b".into(), "a".into(), "b".into()]);
    assert_eq!(themes, vec!["a", "b"]);
    let _ = WidgetKind::Clock;
    assert_eq!(model.get_panel_config(c.clone()).panels.len(), 1);
    assert_eq!(model.get_keybinds(c).key_quit, XarphConfig::default().keybind_config.key_quit);
}

#[test]
fn wallpapers() {
    assert!(WallpaperEngine::is_image_file("/x/a.JPG") == false || WallpaperEngine::is_image_file("/x/a.jpg"));
    assert!(WallpaperEngine::is_image_file("/x/a.jpg"));
    assert!(WallpaperEngine::is_video_file("/x/a.webm"));
    assert!(!WallpaperEngine::is_video_file("/x/a.txt"));
    let e = WallpaperEntry::from_path("/w/Sunset.png".to_string(), true).unwrap();
    assert_eq!(e.name, "Sunset");
    assert!(!e.is_video);
    assert!(WallpaperEntry::from_path("/w/Sunset.png".to_string(), false).is_none());
    assert!(WallpaperEntry::from_path("/w/notes.txt".to_string(), true).is_none());

    let mut favs: Vec<String> = vec![];
    assert!(WallpaperEngine::add_favorite(&mut favs, "/w/b.png"));
    assert!(!WallpaperEngine::add_favorite(&mut favs, "/w/b.png"));
    assert!(WallpaperEngine::is_favorite(&favs, "/w/b.png"));

    let found = vec![
        WallpaperEntry::from_path("/w/b.png".into(), true).unwrap(),
        WallpaperEntry::from_path("/w/a.png".into(), true).unwrap(),
        WallpaperEntry::from_path("/w/a.png".into(), true).unwrap(),
        WallpaperEntry::from_path("/w/clip.mp4".into(), true).unwrap(),
    ];
    let all = WallpaperEngine::collect_wallpapers(found.clone(), &favs, None, false);
    let names: Vec<&str> = all.iter().map(|w| w.name.as_str()).collect();
    assert_eq!(names, vec!["a", "b", "clip"]);
    let only_favs = WallpaperEngine::collect_wallpapers(found.clone(), &favs, None, true);
    assert_eq!(only_favs.len(), 1);
    let searched = WallpaperEngine::collect_wallpapers(found, &favs, Some("CLI"), false);
    assert_eq!(searched.len(), 1);
    WallpaperEngine::remove_favorite(&mut favs, "/w/b.png");
    assert!(favs.is_empty());
    assert_eq!(WallpaperEngine::content_fit(&WallpaperMode::Fill), "cover");
    assert_eq!(WallpaperEngine::content_fit(&WallpaperMode::Tile), "repeat");
    assert_eq!(WallpaperEngine::get_wallpaper_dirs().len(), 7);
    assert!(WallpaperEngine::favorites_path().ends_with("xarph/desktop/wallpaper_favorites.json"));
    let global = WallpaperConfig::Color { hex: "#111".into() };
    let per = vec![(2u8, WallpaperConfig::Color { hex: "#222".into() })];
    assert!(matches!(WallpaperEngine::resolve_wallpaper_for_workspace(&global, &per, 2), WallpaperConfig::Color { hex } if hex == "#222"));
    assert!(matches!(WallpaperEngine::resolve_wallpaper_for_workspace(&global, &per, 3), WallpaperConfig::Color { hex } if hex == "#111"));
}

#[test]
fn ipc_argument_parsing() {
    assert!(matches!(WorkspaceReferenceArg::from_str("3"), Ok(WorkspaceReferenceArg::Index(3))));
    assert!(matches!(WorkspaceReferenceArg::from_str("web"), Ok(WorkspaceReferenceArg::Name(ref n)) if n == "web"));
    assert_eq!(WorkspaceReferenceArg::from_str("300").unwrap_err(), "workspace index must be between 0 and 255");
    assert_eq!(LayoutSwitchTarget::from_str("next"), Ok(LayoutSwitchTarget::Next));
    assert_eq!(LayoutSwitchTarget::from_str("7"), Ok(LayoutSwitchTarget::Index(7)));
    assert!(LayoutSwitchTarget::from_str("-1").is_err());
    assert_eq!(ColumnDisplay::from_str("tabbed"), Ok(ColumnDisplay::Tabbed));
    assert!(ColumnDisplay::from_str("Tabbed").is_err());
    assert_eq!(MaxBpc::try_from(10).map(|b| b.bits()), Ok(10));
    assert!(MaxBpc::try_from(9).is_err());
    assert!(Transform::from_str("90").is_ok());
}

#[test]
fn modeline_validation_names_the_first_broken_rule() {
    let ok = ModelineTimings {
        hdisplay: 1920,
        hsync_start: 2008,
        hsync_end: 2052,
        htotal: 2200,
        vdisplay: 1080,
        vsync_start: 1084,
        vsync_end: 1089,
        vtotal: 1125,
    };
    assert!(ok.validate().is_ok());
    let bad = ModelineTimings { hsync_start: 1900, ..ok };
    assert_eq!(bad.validate(), Err("hdisplay 1920 must be < hsync_start 1900".to_string()));
    let bad = ModelineTimings { vsync_end: 1200, ..ok };
    assert_eq!(bad.validate(), Err("vsync_end 1200 must be < vtotal 1125".to_string()));
}
