use xarph_sdk::config::{ThemeManager, ThemeVariant, XarphConfig, DEFAULT_FONT_SIZE_BITS};
use xarph_sdk::ipc_types::{
    fixed_size_value, is_automatic, read_change, read_mode, ChangeKind, Mode, Output, Window, WindowLayout,
};
use xarph_sdk::manager::commands::{Cli, Commands};
use xarph_sdk::manager::install::{asks_confirmation, check_platform, steps, InstallStep};
use xarph_sdk::manager::paths::UserDirs;
use xarph_sdk::manager::repair;
use xarph_sdk::manager::session;
use xarph_sdk::manager::status::StatusReport;
use xarph_sdk::manager::uninstall::{self, UninstallStep};
use xarph_sdk::notification_service::{Notification, NotificationService, NotificationUrgency};

fn dirs() -> UserDirs {
    UserDirs {
        config: Some("/home/u/.config".to_string()),
        data: Some("/home/u/.local/share".to_string()),
        cache: Some("/home/u/.cache".to_string()),
        executable: None,
        home: Some("/home/u".to_string()),
    }
}

fn cli(command: Commands, dry_run: bool, system_wide: bool) -> Cli {
    Cli { command, yes: false, dry_run, verbose: false, system_wide }
}

#[test]
fn the_default_theme_is_dark_roboto_with_papirus_icons() {
    let tm = ThemeManager::new();
    let t = tm.create_default_theme();
    assert_eq!(t.name, "default");
    assert_eq!(t.author, "Xarph Team");
    assert_eq!(t.config.variant, ThemeVariant::Dark);
    let fonts = t.config.fonts.as_ref().unwrap();
    assert_eq!(f32::from_bits(fonts.size_bits), 14.0);
    assert_eq!(f32::from_bits(fonts.bold_size_bits), 16.0);
    assert_eq!(fonts.size_bits, DEFAULT_FONT_SIZE_BITS);
    assert_eq!(t.config.colors.as_ref().unwrap().primary, "#6200ee");
    assert_eq!(t.config.icons.as_ref().unwrap().theme, "Papirus");
    assert_eq!(t.metadata.tags, vec!["default".to_string(), "dark".to_string()]);
}

#[test]
fn a_theme_is_found_by_name_and_applied_when_current() {
    let mut tm = ThemeManager::new();
    assert!(tm.get_theme_names().is_empty());
    assert!(tm.theme_dir().ends_with("xarph/themes"));
    let t = tm.create_default_theme();
    assert!(tm.theme_path(&t).ends_with("xarph/themes/default.toml"));
    tm.insert_theme(t);
    let mut other = tm.create_default_theme();
    other.name = "nord".to_string();
    other.config.variant = ThemeVariant::Light;
    tm.insert_theme(other);
    assert_eq!(tm.get_theme_names(), vec!["default".to_string(), "nord".to_string()]);
    assert!(tm.get_current_theme().is_none());

    let mut config = XarphConfig::default();
    tm.apply_theme(&mut config);
    assert_eq!(config.theme, None);

    assert!(!tm.set_current_theme("missing"));
    assert!(tm.get_current_theme().is_none());
    assert!(tm.set_current_theme("nord"));
    assert_eq!(tm.get_current_theme().unwrap().name, "nord");
    tm.apply_theme(&mut config);
    assert_eq!(config.theme.as_deref(), Some("nord"));
    assert_eq!(config.theme_config.as_ref().unwrap().variant, ThemeVariant::Light);
}

#[test]
fn inserting_a_theme_of_a_known_name_replaces_it() {
    let mut tm = ThemeManager::new();
    let t = tm.create_default_theme();
    tm.insert_theme(t);
    let mut again = tm.create_default_theme();
    again.description = "changed".to_string();
    tm.insert_theme(again);
    assert_eq!(tm.get_theme_names(), vec!["default".to_string()]);
    assert_eq!(tm.get_theme("default").unwrap().description, "changed");
    assert!(tm.get_theme("nord").is_none());
}

fn window(title: Option<&str>, app_id: Option<&str>) -> Window {
    Window {
        id: 7,
        title: title.map(|s| s.to_string()),
        app_id: app_id.map(|s| s.to_string()),
        pid: Some(100),
        workspace_id: Some(1),
        is_focused: false,
        is_floating: false,
        is_urgent: false,
        layout: WindowLayout {
            pos_in_scrolling_layout: None,
            tile_size_bits: (0, 0),
            window_size: (800, 600),
            tile_pos_in_workspace_view_bits: None,
            window_offset_in_tile_bits: (0, 0),
        },
        focus_timestamp: None,
    }
}

#[test]
fn a_window_is_named_by_its_app_id_and_labelled_by_its_title() {
    let w = window(Some("Editor"), Some("org.editor"));
    assert_eq!(w.display_name(), "org.editor");
    assert_eq!(w.label(), "Editor");
    assert!(!w.is_on_output("DP-1"));
    let w = window(Some("Editor"), None);
    assert_eq!(w.display_name(), "Editor");
    let w = window(None, Some("org.editor"));
    assert_eq!(w.label(), "org.editor");
    let w = window(None, None);
    assert_eq!(w.display_name(), "(unnamed)");
    assert_eq!(w.label(), "(unnamed)");
}

fn output(make: &str, model: &str, current: Option<usize>) -> Output {
    Output {
        name: "DP-1".to_string(),
        make: make.to_string(),
        model: model.to_string(),
        serial: None,
        physical_size: None,
        modes: vec![
            Mode { width: 1920, height: 1080, refresh_rate: 60000, is_preferred: true },
            Mode { width: 1280, height: 720, refresh_rate: 60000, is_preferred: false },
        ],
        current_mode: current,
        is_custom_mode: false,
        vrr_supported: false,
        vrr_enabled: false,
        logical: None,
        max_bpc: None,
    }
}

#[test]
fn an_output_shows_its_make_and_model_when_known() {
    let o = output("Dell", "U2720Q", Some(1));
    assert_eq!(o.current_mode().unwrap().width, 1280);
    assert_eq!(o.display_string(), "DP-1 (Dell U2720Q)");
    assert_eq!(output("Dell", "U2720Q", Some(0)).display_string(), "DP-1 (Dell U2720Q)");
    assert_eq!(output("Dell", "", Some(0)).display_string(), "DP-1 (Dell)");
    assert_eq!(output("", "U2720Q", Some(0)).display_string(), "DP-1 (U2720Q)");
    let o = output("", "", Some(5));
    assert!(o.current_mode().is_none());
    assert_eq!(o.display_string(), "DP-1");
    assert!(output("", "", None).current_mode().is_none());
}

fn report() -> StatusReport {
    StatusReport {
        daemon_running: true,
        service_file_exists: true,
        session_file_exists: false,
        hypr_config_exists: true,
        shell_config_exists: true,
        shell_config_valid: false,
        config_dir_exists: true,
        data_dir_exists: false,
        cache_dir_exists: true,
    }
}

#[test]
fn the_status_report_as_text() {
    let text = report().to_text("/c", "/d", "/k");
    let expected = [
        "x4-shell Status Report\n",
        "=========================\n",
        "Daemon running: true\n",
        "Service file exists: true\n",
        "Session file exists: false\n",
        "Hyprland config exists: true\n",
        "Shell config exists: true\n",
        "Shell config valid: false\n",
        "\nDirectories:\n",
        "  Config: /c (true)\n",
        "  Data: /d (false)\n",
        "  Cache: /k (true)\n",
    ]
    .concat();
    assert_eq!(text, expected);
}

#[test]
fn the_status_report_as_json() {
    let json = report().to_json();
    let v: serde_json::Value = serde_json::from_str(&json).unwrap();
    assert_eq!(v["daemon_running"], serde_json::Value::Bool(true));
    assert_eq!(v["data_dir_exists"], serde_json::Value::Bool(false));
    assert_eq!(v.as_object().unwrap().len(), 9);
    assert!(json.contains("\n"));
}

#[test]
fn status_checks_of_the_daemon_and_the_settings() {
    assert!(StatusReport::daemon_active(Some("active\n")));
    assert!(!StatusReport::daemon_active(Some("inactive\n")));
    assert!(!StatusReport::daemon_active(None));
    assert!(StatusReport::shell_config_valid(true, Some("{\"a\": 1}")));
    assert!(!StatusReport::shell_config_valid(true, Some("{not json")));
    assert!(!StatusReport::shell_config_valid(false, Some("{}")));
    assert!(!StatusReport::shell_config_valid(true, None));
    let p = StatusReport::paths(&dirs());
    assert_eq!(p.service_file, "/home/u/.config/systemd/user/x4-shell-daemon.service");
    assert_eq!(p.session_file_system, "/usr/share/wayland-sessions/x4-shell.desktop");
    assert_eq!(p.hypr_config, "/home/u/.config/x4-shell/hypr/hyprland.conf");
    assert_eq!(p.shell_config, "/home/u/.config/x4-shell/shell/settings.json");
}

#[test]
fn uninstall_removes_what_exists_and_keeps_the_configuration() {
    let c = cli(Commands::Uninstall, false, false);
    let ts = uninstall::targets(&c, &dirs());
    assert_eq!(ts.len(), 5);
    assert_eq!(ts[0], "/home/u/.config/systemd/user/x4-shell-daemon.service");
    assert_eq!(ts[3], "/home/u/.local/bin/x4-shell-session");
    assert_eq!(ts[4], "/usr/local/bin/x4-shell-session");
    let present = vec![true, false, false, true, false];
    let plan = uninstall::run(&c, &ts, &present);
    assert_eq!(plan.len(), 5);
    assert!(matches!(&plan[0], UninstallStep::RemoveFile(p) if p == &ts[0]));
    assert!(matches!(plan[1], UninstallStep::StopService));
    assert!(matches!(plan[2], UninstallStep::DisableService));
    assert!(matches!(&plan[3], UninstallStep::RemoveFile(p) if p == &ts[3]));
    assert!(matches!(plan[4], UninstallStep::ReportConfigKept));

    let sys = cli(Commands::Uninstall, true, true);
    let ts = uninstall::targets(&sys, &dirs());
    assert_eq!(ts.len(), 4);
    let plan = uninstall::run(&sys, &ts, &vec![false; 4]);
    assert_eq!(plan.len(), 2);
}

#[test]
fn install_runs_only_on_arch_and_orders_its_steps() {
    assert!(check_platform(true).is_ok());
    assert_eq!(check_platform(false), Err("This installer only supports Arch-based distributions"));
    let c = cli(Commands::Install, false, false);
    assert!(asks_confirmation(&c));
    assert_eq!(
        steps(&c, true),
        vec![
            InstallStep::CreateDirectories,
            InstallStep::GenerateConfigs,
            InstallStep::InstallUiFiles,
            InstallStep::InstallDaemonBinary,
            InstallStep::InstallSessionScript,
            InstallStep::InstallService,
            InstallStep::EnableService,
            InstallStep::StartService,
            InstallStep::InstallSessionFile,
            InstallStep::ReportQuickshellNeeded,
        ]
    );
    let dry = cli(Commands::Install, true, false);
    assert!(!asks_confirmation(&dry));
    let s = steps(&dry, false);
    assert_eq!(s.len(), 7);
    assert_eq!(s[5], InstallStep::ReportNoSystemctl);
    assert_eq!(s[6], InstallStep::InstallSessionFile);
}

fn note(id: &str, timestamp: i64) -> Notification {
    Notification {
        id: id.to_string(),
        title: id.to_string(),
        body: String::new(),
        icon: None,
        urgency: NotificationUrgency::Normal,
        timestamp,
        app_name: None,
    }
}

#[test]
fn stored_notifications_come_newest_first() {
    let sorted = NotificationService::sort_by_time(vec![note("a", 10), note("b", 30), note("c", 20)]);
    let ids: Vec<&str> = sorted.iter().map(|n| n.id.as_str()).collect();
    assert_eq!(ids, vec!["b", "c", "a"]);
    let made = NotificationService::notification("Hi", "there", Some("bell"), NotificationUrgency::Critical);
    assert_eq!(made.id.len(), 36);
    assert_eq!(made.app_name.as_deref(), Some("Xarph"));
    assert_eq!(made.icon.as_deref(), Some("bell"));
}

#[derive(Debug, PartialEq)]
enum SizeChange {
    SetFixed(i32),
    SetProportion(f64),
    AdjustFixed(i32),
    AdjustProportion(f64),
}

fn size_change(s: &str) -> Result<SizeChange, &'static str> {
    let (kind, text) = read_change(s)?;
    let float = |t: &str| t.parse::<f64>().map_err(|_| "error parsing value");
    Ok(match kind {
        ChangeKind::SetFixed => SizeChange::SetFixed(fixed_size_value(&text)?),
        ChangeKind::AdjustFixed => SizeChange::AdjustFixed(fixed_size_value(&text)?),
        ChangeKind::SetProportion => SizeChange::SetProportion(float(&text)?),
        ChangeKind::AdjustProportion => SizeChange::AdjustProportion(float(&text)?),
    })
}

#[test]
fn parse_size_change() {
    assert_eq!(size_change("10").unwrap(), SizeChange::SetFixed(10));
    assert_eq!(size_change("+10").unwrap(), SizeChange::AdjustFixed(10));
    assert_eq!(size_change("-10").unwrap(), SizeChange::AdjustFixed(-10));
    assert_eq!(size_change("10%").unwrap(), SizeChange::SetProportion(10.));
    assert_eq!(size_change("+10%").unwrap(), SizeChange::AdjustProportion(10.));
    assert_eq!(size_change("-10%").unwrap(), SizeChange::AdjustProportion(-10.));
    assert!(size_change("-").is_err());
    assert!(size_change("10% ").is_err());
}

#[test]
fn parse_position_change() {
    let read = |s: &str| read_change(s).map(|(k, t)| (k, t.parse::<f64>().unwrap()));
    assert_eq!(read("10").unwrap(), (ChangeKind::SetFixed, 10.));
    assert_eq!(read("+10").unwrap(), (ChangeKind::AdjustFixed, 10.));
    assert_eq!(read("-10").unwrap(), (ChangeKind::AdjustFixed, -10.));
    assert_eq!(read("10%").unwrap(), (ChangeKind::SetProportion, 10.));
    assert_eq!(read("+10%").unwrap(), (ChangeKind::AdjustProportion, 10.));
    assert_eq!(read("-10%").unwrap(), (ChangeKind::AdjustProportion, -10.));
    assert!(read_change("-").unwrap().1.parse::<f64>().is_err());
    assert_eq!(read_change("10% "), Err("trailing characters after '%' are not allowed"));
}

#[test]
fn change_arguments_name_their_errors() {
    assert_eq!(read_change(""), Err("value is missing"));
    assert_eq!(read_change("%"), Err("value is missing"));
    assert_eq!(read_change("5%%"), Err("trailing characters after '%' are not allowed"));
    assert_eq!(read_change("-5%").unwrap(), (ChangeKind::AdjustProportion, "-5".to_string()));
    assert_eq!(fixed_size_value("2147483648"), Err("error parsing value"));
    assert_eq!(fixed_size_value("-2147483648"), Ok(i32::MIN));
    assert_eq!(fixed_size_value("abc"), Err("error parsing value"));
}

#[test]
fn the_session_files_go_to_the_system_directories() {
    let script = session::install_session_script(&dirs(), true).unwrap();
    assert_eq!(script.path, "/usr/local/bin/x4-shell-session");
    assert!(script.content.starts_with("#!/bin/sh\n"));
    assert!(script.content.contains("exec Hyprland --config \"$XDG_CONFIG_HOME/x4-shell/hypr/hyprland.conf\"\n"));
    let desktop = session::install_session_file(&dirs(), true).unwrap();
    assert_eq!(desktop.path, "/usr/share/wayland-sessions/x4-shell.desktop");
    assert!(desktop.content.starts_with("[Desktop Entry]\nName=X4 Shell\n"));
    assert!(desktop.content.ends_with("Keywords=wayland;hyprland;\n"));
    let no_config = UserDirs { config: None, ..dirs() };
    assert_eq!(session::install_session_file(&no_config, true).unwrap().path, desktop.path);
}

#[test]
fn a_user_repair_finds_the_session_files_it_reinstalls() {
    let c = cli(Commands::Repair, false, false);
    let checks = repair::checks(&c, &dirs());
    let script = session::install_session_script(&dirs(), false).unwrap();
    assert_eq!(script.path, "/home/u/.local/bin/x4-shell-session");
    assert_eq!(checks[8].path, script.path);
    let desktop = session::install_session_file(&dirs(), false).unwrap();
    assert_eq!(desktop.path, "/home/u/.local/share/wayland-sessions/x4-shell.desktop");
    assert_eq!(checks[10].path, desktop.path);
}

#[test]
fn widget_visibility_reads_back_as_set() {
    let mut c = XarphConfig::default();
    c.set_widget_visibility("network", false);
    assert!(!c.get_widget_visibility("network"));
    assert!(c.get_widget_visibility("clock"));
    c.set_widget_visibility("bogus", true);
    assert!(!c.get_widget_visibility("bogus"));
    c.set_widget_visibility("network", true);
    assert!(c.get_widget_visibility("network"));
}

#[test]
fn mode_arguments_are_read_up_to_the_refresh_rate() {
    assert_eq!(read_mode("1920x1080@143.98"), Ok((1920, 1080, Some("143.98".to_string()))));
    assert_eq!(read_mode("1280x720"), Ok((1280, 720, None)));
    assert_eq!(read_mode("1920"), Err("no 'x' separator found"));
    assert_eq!(read_mode("widex1080"), Err("error parsing width"));
    assert_eq!(read_mode("1920x"), Err("error parsing height"));
    assert_eq!(read_mode("70000x10"), Err("error parsing width"));
    assert_eq!(read_mode("1920x1080@"), Ok((1920, 1080, Some(String::new()))));
    assert_eq!(read_mode("1x2x3"), Err("error parsing height"));
    assert!(is_automatic("auto"));
    assert!(is_automatic("AuTo"));
    assert!(!is_automatic("automatic"));
}

#[test]
fn qt_themes_are_looked_for_in_three_directories() {
    let dirs = xarph_sdk::settings_model::SettingsModel::theme_dirs();
    assert_eq!(dirs.len(), 3);
    assert_eq!(dirs[0], "/usr/share/themes");
    assert!(dirs[1].ends_with(".themes"));
    assert!(dirs[2].ends_with("themes"));
    let marks = xarph_sdk::settings_model::SettingsModel::qt_style_paths("/usr/share/themes/Breeze");
    assert_eq!(marks, vec!["/usr/share/themes/Breeze/qt6".to_string(), "/usr/share/themes/Breeze/QtProject".to_string()]);
}
