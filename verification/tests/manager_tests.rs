use xarph_sdk::manager::arch::is_arch_based;
use xarph_sdk::manager::commands::{run, Cli, Commands, StatusArgs, Task};
use xarph_sdk::manager::config::{generate_default_configs, generate_hypr_config, generate_shell_config};
use xarph_sdk::manager::paths::{
    bin_dir_system, bin_dir_user, config_dir, ensure_safe_path, hypr_config_dir, session_dir_system, shell_config_dir,
    systemd_service_dir, UserDirs,
};
use xarph_sdk::manager::repair::{self, RepairAction};
use xarph_sdk::manager::systemd::{install_service, service_command_args};
use xarph_sdk::manager::update::{self, UpdateStep};

fn dirs() -> UserDirs {
    UserDirs {
        config: Some("/home/u/.config".to_string()),
        data: Some("/home/u/.local/share".to_string()),
        cache: Some("/home/u/.cache".to_string()),
        executable: None,
        home: Some("/home/u".to_string()),
    }
}

fn cli(command: Commands, dry_run: bool, system_wide: bool) -> Cli {
    Cli { command, yes: false, dry_run, verbose: false, system_wide }
}

#[test]
fn paths_of_the_session() {
    let d = dirs();
    assert_eq!(config_dir(&d), "/home/u/.config/x4-shell");
    assert_eq!(hypr_config_dir(&d), "/home/u/.config/x4-shell/hypr");
    assert_eq!(shell_config_dir(&d), "/home/u/.config/x4-shell/shell");
    assert_eq!(systemd_service_dir(&d), "/home/u/.config/systemd/user");
    assert_eq!(bin_dir_user(&d), "/home/u/.local/bin");
    assert_eq!(session_dir_system(), "/usr/share/wayland-sessions");
    assert_eq!(bin_dir_system(), "/usr/local/bin");
}

#[test]
fn the_compositor_configuration_is_protected() {
    let d = dirs();
    assert!(ensure_safe_path("/home/u/.config/x4-shell/hypr/hyprland.conf", &d).is_ok());
    assert_eq!(
        ensure_safe_path("/home/u/.config/hypr/hyprland.conf", &d),
        Err("Refusing to operate on Hyprland config path: /home/u/.config/hypr/hyprland.conf".to_string())
    );
    assert!(ensure_safe_path("/home/u/.config/hyprland", &d).is_ok());
}

#[test]
fn generated_files() {
    let d = dirs();
    let h = generate_hypr_config(&d);
    assert_eq!(h.path, "/home/u/.config/x4-shell/hypr/hyprland.conf");
    assert!(h.content.starts_with("\nmonitor=,preferred,auto,1\n"));
    assert!(h.content.ends_with("bind=MOD, 5, workspace, 5\n"));
    let s = generate_shell_config(&d);
    assert_eq!(s.path, "/home/u/.config/x4-shell/shell/settings.json");
    assert_eq!(
        s.content,
        "{\n  \"daemon\": {\n    \"ipc_version\": \"1\",\n    \"log_level\": \"info\"\n  },\n  \"ui\": {\n    \"qml_path\": \"qrc:/qml/main.qml\"\n  }\n}"
    );
    assert_eq!(generate_default_configs(&d).len(), 2);
    let unit = install_service(&d).unwrap();
    assert_eq!(unit.path, "/home/u/.config/systemd/user/x4-shell-daemon.service");
    assert!(unit.content.contains("ExecStart=/usr/local/bin/x4shell-daemon\n"));
    assert_eq!(service_command_args("enable"), vec!["--user", "enable", "x4-shell-daemon.service"]);
}

#[test]
fn dispatch_and_update_steps() {
    let c = cli(Commands::Update, false, false);
    match run(&c) {
        Task::Update(steps) => assert_eq!(
            steps,
            vec![UpdateStep::StopService, UpdateStep::ReportBinaryUnchanged, UpdateStep::StartService]
        ),
        other => panic!("unexpected {:?}", other),
    }
    assert_eq!(update::run(&cli(Commands::Update, true, false)), vec![UpdateStep::StopService, UpdateStep::StartService]);
    assert!(matches!(run(&cli(Commands::Status(StatusArgs { json: true }), false, false)), Task::Status { json: true }));
    assert!(matches!(run(&cli(Commands::Repair, true, true)), Task::Repair { dry_run: true, system_wide: true }));
    assert_eq!(cli(Commands::Install, false, false).log_level(), "info");
}

#[test]
fn repair_redoes_what_is_missing() {
    let d = dirs();
    let checks = repair::checks(&cli(Commands::Repair, false, true), &d);
    assert_eq!(checks.len(), 11);
    assert_eq!(checks[8].path, "/usr/local/bin/x4-shell-session");
    assert_eq!(checks[10].path, "/usr/share/wayland-sessions/x4-shell.desktop");
    let mut present = vec![true; 11];
    present[1] = false;
    present[6] = false;
    present[9] = false;
    let actions = repair::run(&checks, &present);
    assert_eq!(actions.len(), 3);
    assert!(matches!(&actions[0], RepairAction::CreateDir(p) if p == "/home/u/.config/x4-shell/hypr"));
    assert!(matches!(actions[1], RepairAction::GenerateHyprConfig));
    assert!(matches!(actions[2], RepairAction::InstallService));
    let user = repair::checks(&cli(Commands::Repair, false, false), &d);
    assert_eq!(user[8].path, "/home/u/.local/bin/x4-shell-session");
    assert_eq!(user[10].path, "/home/u/.local/share/wayland-sessions/x4-shell.desktop");
    assert!(repair::run(&user, &vec![true; 11]).is_empty());
}

#[test]
fn arch_detection() {
    assert!(is_arch_based(Some("NAME=\"Arch Linux\"\nID=arch\n")));
    assert!(is_arch_based(Some("ID=\"endeavouros\"\nID_LIKE=\"arch\"\n")));
    assert!(is_arch_based(Some("ID=manjaro\nID_LIKE=\"archlinux arch\"\n")));
    assert!(!is_arch_based(Some("ID=debian\nID_LIKE=\"ubuntu debian\"\n")));
    assert!(!is_arch_based(Some("ID=arch\nID=fedora\n")));
    assert!(!is_arch_based(None));
}
