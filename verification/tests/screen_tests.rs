use xarph_sdk::file_browser::FileBrowser;
use xarph_sdk::network_monitor::{NetworkInterface, NetworkMonitor};
use xarph_sdk::process_collector::ProcessCollector;
use xarph_sdk::service_manager::{ServiceInfo, ServiceManager};
use xarph_sdk::text::join_strings;

fn service(name: &str, enabled: bool) -> ServiceInfo {
    ServiceInfo {
        name: name.to_string(),
        description: format!("The {name} service"),
        status: "active".to_string(),
        sub_status: "running".to_string(),
        enabled,
    }
}

#[test]
fn services_are_listed_one_line_each() {
    let lines = ServiceManager::bridge_lines(&vec![service("pipewire", true), service("mpd", false)]);
    assert_eq!(lines, "pipewire|active|true|The pipewire service\nmpd|active|false|The mpd service");
    assert_eq!(ServiceManager::bridge_lines(&vec![]), "");
    let row = ServiceManager::row_text(&service("mpd", false));
    assert_eq!(row, "mpd|The mpd service|active|running|false");
    assert_eq!(ServiceManager::selected_service(&row), "mpd");
    assert_eq!(ServiceManager::selected_service("no-bar"), "no-bar");
    assert_eq!(ServiceManager::selected_service(""), "");
}

#[test]
fn interfaces_are_listed_with_their_total_traffic() {
    let wlan = NetworkInterface {
        name: "wlan0".to_string(),
        interface_type: "WiFi".to_string(),
        is_up: true,
        ip_addresses: vec!["192.168.1.5/24".to_string(), "10.0.0.2/8".to_string()],
        speed: None,
        bytes_received: 1000,
        bytes_sent: 234,
    };
    let lo = NetworkInterface {
        name: "lo".to_string(),
        interface_type: "Loopback".to_string(),
        is_up: false,
        ip_addresses: vec![],
        speed: None,
        bytes_received: 0,
        bytes_sent: 0,
    };
    assert_eq!(
        NetworkMonitor::bridge_lines(&vec![wlan, lo]),
        "wlan0|WiFi|192.168.1.5/24, 10.0.0.2/8|true|1234\nlo|Loopback||false|0"
    );
}

#[test]
fn a_selected_row_names_its_process() {
    assert_eq!(ProcessCollector::selected_pid("1234|firefox|u|1.5|200 KB|Running"), Some(1234));
    assert_eq!(ProcessCollector::selected_pid("x|firefox"), None);
    assert_eq!(ProcessCollector::selected_pid(""), None);
    assert_eq!(ProcessCollector::selected_pid("4294967296|big"), None);
}

#[test]
fn joining_puts_the_separator_between_the_pieces() {
    let v = vec!["a".to_string(), "".to_string(), "c".to_string()];
    assert_eq!(join_strings(&v, ", "), "a, , c");
    assert_eq!(join_strings(&vec![], ", "), "");
    assert_eq!(join_strings(&vec!["solo".to_string()], "\n"), "solo");
}

#[test]
fn the_browser_moves_between_directories() {
    let mut b = FileBrowser::new();
    assert!(!b.can_go_up);
    b.navigate("/home/u/docs", true);
    assert_eq!(b.current_path, "/home/u/docs");
    assert_eq!(b.parent_path, "/home/u");
    assert!(b.can_go_up);
    b.navigate("/home/u/docs/a.txt", false);
    assert_eq!(b.current_path, "/home/u/docs");
    b.go_up();
    assert_eq!(b.current_path, "/home/u");
    assert!(b.can_go_up);
    assert_eq!(b.parent_path, "/home/u");
    b.go_up();
    b.go_up();
    assert_eq!(b.current_path, "/");
    assert!(!b.can_go_up);
    b.go_up();
    assert_eq!(b.current_path, "/");
    b.navigate("/", true);
    assert!(!b.can_go_up);
    b.go_home();
    assert!(b.can_go_up);
    assert!(!b.current_path.is_empty());
}

#[test]
fn the_listing_is_sorted_and_paths_are_built_beside_or_inside() {
    let entries = vec![
        ("notes.txt".to_string(), false, 120),
        ("Music".to_string(), true, 4096),
        ("a.out".to_string(), false, 0),
    ];
    assert_eq!(FileBrowser::listing(&entries), "Music|dir|4096\na.out|file|0\nnotes.txt|file|120");
    assert_eq!(FileBrowser::listing(&vec![]), "");
    let mut b = FileBrowser::new();
    b.navigate("/tmp/x", true);
    assert_eq!(b.folder_path("new"), "/tmp/x/new");
    assert_eq!(FileBrowser::renamed_path("/tmp/x/a.txt", "b.txt"), Some("/tmp/x/b.txt".to_string()));
    assert_eq!(FileBrowser::renamed_path("/", "b.txt"), None);
}
