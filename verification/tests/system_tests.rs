use xarph_sdk::network_monitor::NetworkMonitor;
use xarph_sdk::notification_service::{Notification, NotificationService, NotificationUrgency};
use xarph_sdk::process_collector::{MemoryStats, ProcessCollector, ProcessSample};
use xarph_sdk::service_manager::ServiceManager;

const STAT: &str = "1234 (my (proc)) S 1 1234 1234 0 -1 4194560 100 0 0 0 250 50 0 0 20 0 1 0 100 1000 200\n";
const STATUS: &str = "Name:\tmy proc\nUid:\t1000\t1000\t1000\t1000\nVmRSS:\t  2048 kB\n";
const PASSWD: &str = "root:x:0:0:root:/root:/bin/bash\nalice:x:1000:1000::/home/alice:/bin/sh\n";

fn sample(pid: u32, mem: u64) -> ProcessSample {
    ProcessSample {
        pid,
        name: format!("p{pid}"),
        user: "root".to_string(),
        utime: 0,
        stime: 0,
        memory_kb: mem,
        status: "Running".to_string(),
    }
}

#[test]
fn a_process_is_read_from_its_files() {
    assert!(ProcessCollector::stat_is_sliceable(STAT));
    let p = ProcessCollector::read_process(1234, STAT, STATUS, PASSWD).unwrap();
    assert_eq!(p.pid, 1234);
    // The name is cut from the second character of the line to its last ')'.
    assert_eq!(p.name, "234 (my (proc)");
    assert_eq!(p.status, "Sleeping");
    assert_eq!((p.utime, p.stime), (250, 50));
    assert_eq!(p.memory_kb, 2048);
    assert_eq!(p.user, "alice");
}

#[test]
fn short_or_broken_stat_lines_give_nothing() {
    assert!(ProcessCollector::read_process(1, "1 (x) R 1 2 3", "", "").is_none());
    assert!(ProcessCollector::read_process(1, "no parenthesis here", "", "").is_none());
    assert!(!ProcessCollector::stat_is_sliceable("1 (x)"));
}

#[test]
fn missing_values_are_zero_and_unknown_users_are_numbers() {
    let p = ProcessCollector::read_process(7, STAT, "", "").unwrap();
    assert_eq!(p.memory_kb, 0);
    assert_eq!(p.user, "0");
    assert_eq!(ProcessCollector::resolve_uid(42, PASSWD), "42");
    assert_eq!(ProcessCollector::resolve_uid(0, PASSWD), "root");
}

#[test]
fn unknown_states_are_shown_as_they_are() {
    let stat = STAT.replace(") S ", ") X ");
    let p = ProcessCollector::read_process(1, &stat, "", "").unwrap();
    assert_eq!(p.status, "X");
    let stat = STAT.replace(") S ", ") D ");
    assert_eq!(ProcessCollector::read_process(1, &stat, "", "").unwrap().status, "Disk Sleep");
}

#[test]
fn pids_are_the_numeric_names() {
    let names = vec!["1".to_string(), "self".to_string(), "42".to_string(), "-3".to_string(), "99999999999".to_string()];
    assert_eq!(ProcessCollector::pids(&names), vec![1, 42]);
}

#[test]
fn processes_are_listed_by_memory_largest_first_and_stably() {
    let v = vec![sample(1, 10), sample(2, 30), sample(3, 10), sample(4, 20)];
    let r = ProcessCollector::sort_by_memory(v);
    let order: Vec<u32> = r.iter().map(|p| p.pid).collect();
    assert_eq!(order, vec![2, 4, 1, 3]);
}

#[test]
fn memory_totals() {
    let m = ProcessCollector::memory_stats("MemTotal:       16000000 kB\nMemFree:  100 kB\nMemAvailable:    6000000 kB\n");
    assert_eq!(m, MemoryStats { total_memory_kb: 16000000, available_memory_kb: 6000000 });
    assert_eq!(m.used_memory_kb(), 10000000);
    let odd = MemoryStats { total_memory_kb: 5, available_memory_kb: 9 };
    assert_eq!(odd.used_memory_kb(), 0);
    assert_eq!(ProcessCollector::memory_stats("").total_memory_kb, 0);
}

#[test]
fn network_interfaces_one_per_device() {
    let nm = "Wired:802-3-ethernet:activated:enp3s0\nHome:802-11-wireless:activated:wlan0\nDup:802-3-ethernet:activated:enp3s0\nlo:loopback:activating:lo\nshort:line\n";
    let mut ifs = NetworkMonitor::parse_connections(nm);
    assert_eq!(ifs.len(), 3);
    assert_eq!(ifs[0].name, "enp3s0");
    assert_eq!(ifs[0].interface_type, "Ethernet");
    assert!(ifs[0].is_up);
    assert_eq!(ifs[1].interface_type, "WiFi");
    assert_eq!(ifs[2].interface_type, "Loopback");
    assert!(!ifs[2].is_up);

    let ip = "2: enp3s0    inet 192.168.1.5/24 brd 192.168.1.255 scope global enp3s0\n3: wlan0    inet 10.0.0.2/24 scope global wlan0\n4: eth9 inet 1.2.3.4/8\nbad line\n";
    NetworkMonitor::add_addresses(&mut ifs, ip);
    assert_eq!(ifs[0].ip_addresses, vec!["192.168.1.5/24"]);
    assert_eq!(ifs[1].ip_addresses, vec!["10.0.0.2/24"]);
    assert!(ifs[2].ip_addresses.is_empty());

    NetworkMonitor::apply_statistics(&mut ifs[0], Some(" 1000\n"), Some("oops"), Some("1000\n"));
    assert_eq!((ifs[0].bytes_received, ifs[0].bytes_sent, ifs[0].speed), (1000, 0, Some(1000)));
    NetworkMonitor::apply_statistics(&mut ifs[1], None, Some("7"), Some("-1\n"));
    assert_eq!((ifs[1].bytes_received, ifs[1].bytes_sent, ifs[1].speed), (0, 7, None));
    assert_eq!(NetworkMonitor::sysfs_path("wlan0", "speed"), "/sys/class/net/wlan0/speed");
}

#[test]
fn services_from_systemctl() {
    let units = "foo.service loaded active running Foo service\nbar.service loaded inactive dead Bar\nbroken\n";
    let mut s = ServiceManager::parse_units(units);
    assert_eq!(s.len(), 2);
    assert_eq!((s[0].name.as_str(), s[0].status.as_str(), s[0].sub_status.as_str()), ("foo", "active", "running"));
    assert!(s[0].description.is_empty() && !s[0].enabled);
    ServiceManager::apply_unit_files(&mut s, "foo.service enabled enabled\nbar.service disabled enabled\n");
    assert!(s[0].enabled);
    assert!(!s[1].enabled);
    assert_eq!(ServiceManager::parse_description("Id=x\nDescription=Foo daemon\n").as_deref(), Some("Foo daemon"));
    assert_eq!(ServiceManager::parse_description("Id=x\n"), None);
    assert_eq!(ServiceManager::command_args("restart", "foo"), vec!["--user", "restart", "foo"]);
}

#[test]
fn notifications() {
    let n = NotificationService::notification("Hi", "there", Some("dialog-information"), NotificationUrgency::Critical);
    assert_eq!(n.id.len(), 36);
    assert_eq!(n.app_name.as_deref(), Some("Xarph"));
    assert_eq!(
        NotificationService::notify_send_args(&n),
        vec!["-u", "critical", "-a", "Xarph", "-i", "dialog-information", "Hi", "there"]
    );
    let plain = NotificationService::notification("A", "B", None, NotificationUrgency::default());
    assert_eq!(NotificationService::notify_send_args(&plain), vec!["-u", "normal", "-a", "Xarph", "A", "B"]);
    assert!(NotificationService::is_notification_file("abc.json"));
    assert!(!NotificationService::is_notification_file("abc.json.bak"));
    assert_eq!(NotificationService::notification_file("/d", "x"), "/d/x.json");
    assert!(NotificationService::notifications_dir().ends_with("xarph/notifications"));
}

#[test]
fn stored_notifications_newest_first() {
    let mk = |id: &str, t: i64| Notification {
        id: id.to_string(),
        title: String::new(),
        body: String::new(),
        icon: None,
        urgency: NotificationUrgency::Low,
        timestamp: t,
        app_name: None,
    };
    let r = NotificationService::sort_by_time(vec![mk("a", 1), mk("b", 3), mk("c", 1), mk("d", 2)]);
    let ids: Vec<&str> = r.iter().map(|n| n.id.as_str()).collect();
    assert_eq!(ids, vec!["b", "d", "a", "c"]);
}
