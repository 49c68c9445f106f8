use xarph_sdk::daemon::{
    apply_event, assign_monitor, event_of_line, focus_workspace, focused_workspace, get_socket_path, get_workspaces,
    parse_hyprland_event, retry_step, switch_workspace_args, HyprlandEvent, Workspace, WorkspaceDBus,
};
use xarph_sdk::json::{JsonNumber, JsonValue};

fn ws(id: u32, name: &str, focused: bool, monitor: &str) -> Workspace {
    Workspace { id, name: name.to_string(), focused, monitor: monitor.to_string(), windows: vec![] }
}

#[test]
fn workspace_event_is_read() {
    let e = event_of_line(r#"{"event":"workspace","data":{"id":3,"name":"web"}}"#);
    match e {
        Some(HyprlandEvent::WorkspaceFocused { id, name }) => {
            assert_eq!(id, 3);
            assert_eq!(name, "web");
        }
        other => panic!("unexpected {:?}", other),
    }
}

#[test]
fn window_and_monitor_events_are_read() {
    match event_of_line(r#"{"event":"windowOpen","data":{"id":7,"class":"kitty","workspace":{"id":2}}}"#) {
        Some(HyprlandEvent::WindowOpened { id, class, workspace_id }) => {
            assert_eq!((id, class.as_str(), workspace_id), (7, "kitty", 2));
        }
        other => panic!("unexpected {:?}", other),
    }
    assert!(matches!(
        event_of_line(r#"{"event":"windowClose","data":{"id":9}}"#),
        Some(HyprlandEvent::WindowClosed { id: 9 })
    ));
    match event_of_line(r#"{"data":{"name":"DP-1","width":2560,"height":1440},"event":"monitorAdded"}"#) {
        Some(HyprlandEvent::MonitorAdded { name, width, height }) => {
            assert_eq!((name.as_str(), width, height), ("DP-1", 2560, 1440));
        }
        other => panic!("unexpected {:?}", other),
    }
    assert!(matches!(
        event_of_line(r#"{"event":"monitorRemoved","data":{"name":"DP-1"}}"#),
        Some(HyprlandEvent::MonitorRemoved { .. })
    ));
}

#[test]
fn malformed_or_unknown_lines_give_nothing() {
    assert!(event_of_line("not json").is_none());
    assert!(event_of_line(r#"{"event":"workspace"}"#).is_none());
    assert!(event_of_line(r#"{"event":"workspace","data":{"id":"3","name":"web"}}"#).is_none());
    assert!(event_of_line(r#"{"event":"workspace","data":{"id":-3,"name":"web"}}"#).is_none());
    assert!(event_of_line(r#"{"event":"fullscreen","data":{"id":3}}"#).is_none());
    assert!(event_of_line(r#"[1,2,3]"#).is_none());
}

#[test]
fn large_ids_are_cut_to_32_bits() {
    match event_of_line(r#"{"event":"windowClose","data":{"id":4294967297}}"#) {
        Some(HyprlandEvent::WindowClosed { id }) => assert_eq!(id, 1),
        other => panic!("unexpected {:?}", other),
    }
}

#[test]
fn parse_hyprland_event_on_a_built_document() {
    let data = JsonValue::Object(vec![
        ("id".to_string(), JsonValue::Number(JsonNumber::PosInt(5))),
        ("name".to_string(), JsonValue::String("five".to_string())),
    ]);
    let doc = JsonValue::Object(vec![
        ("event".to_string(), JsonValue::String("workspace".to_string())),
        ("data".to_string(), data),
    ]);
    assert!(matches!(parse_hyprland_event(&doc), Some(HyprlandEvent::WorkspaceFocused { id: 5, .. })));
}

#[test]
fn socket_path_needs_a_signature() {
    assert_eq!(get_socket_path(Some("abc")).as_deref(), Some("/tmp/hypr/abc/.socket2.sock"));
    assert_eq!(get_socket_path(None), None);
}

#[test]
fn retry_delays_double_up_to_thirty_seconds() {
    let mut delay = 1;
    let mut seen = vec![];
    for _ in 0..7 {
        let s = retry_step(delay, false);
        seen.push(s.sleep_secs);
        delay = s.next_delay_secs;
    }
    assert_eq!(seen, vec![1, 2, 4, 8, 16, 30, 30]);
    let s = retry_step(30, true);
    assert_eq!((s.sleep_secs, s.next_delay_secs), (1, 2));
}

#[test]
fn focusing_a_known_workspace_moves_the_focus() {
    let list = vec![ws(1, "one", true, "DP-1"), ws(2, "two", false, "DP-1")];
    let r = focus_workspace(&list, 2, "two");
    assert_eq!(r.len(), 2);
    assert!(!r[0].focused);
    assert!(r[1].focused);
    let again = focus_workspace(&r, 2, "two");
    assert_eq!(again.len(), 2);
    assert!(again[1].focused && !again[0].focused);
}

#[test]
fn focusing_a_new_workspace_adds_it() {
    let list = vec![ws(1, "one", true, "DP-1")];
    let r = focus_workspace(&list, 4, "four");
    assert_eq!(r.len(), 2);
    assert_eq!(r[1].id, 4);
    assert_eq!(r[1].name, "four");
    assert_eq!(r[1].monitor, "Unknown");
    assert!(r[1].focused && !r[0].focused);
    assert_eq!(focused_workspace(&r).unwrap().id, 4);
}

#[test]
fn apply_event_announces_the_focus() {
    let list = vec![ws(1, "one", true, "Unknown")];
    let u = apply_event(&list, &HyprlandEvent::WorkspaceFocused { id: 2, name: "two".to_string() }).unwrap();
    assert_eq!(u.announce.unwrap().id, 2);
    let u = apply_event(&u.workspaces, &HyprlandEvent::MonitorAdded { name: "HDMI-A-1".to_string(), width: 1, height: 1 })
        .unwrap();
    assert!(u.announce.is_none());
    assert!(u.workspaces.iter().all(|w| w.monitor == "HDMI-A-1"));
    assert!(apply_event(&list, &HyprlandEvent::WindowClosed { id: 1 }).is_none());
}

#[test]
fn monitors_are_only_given_to_workspaces_without_one() {
    let list = vec![ws(1, "one", true, "DP-1"), ws(2, "two", false, "Unknown")];
    let r = assign_monitor(&list, "DP-2");
    assert_eq!(r[0].monitor, "DP-1");
    assert_eq!(r[1].monitor, "DP-2");
}

#[test]
fn bus_view_of_the_workspaces() {
    let list = vec![ws(1, "one", true, "DP-1")];
    let b: Vec<WorkspaceDBus> = get_workspaces(&list);
    assert_eq!(b.len(), 1);
    assert_eq!((b[0].id, b[0].name.as_str(), b[0].focused, b[0].monitor.as_str()), (1, "one", true, "DP-1"));
    let direct = WorkspaceDBus::from(ws(3, "three", false, "X"));
    assert_eq!(direct.id, 3);
    assert_eq!(switch_workspace_args(12), vec!["dispatch", "workspace", "12"]);
}
