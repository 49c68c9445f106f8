//! The shell daemon: the compositor's event stream read into events, the
//! workspace list that the events keep up to date, the workspaces as the
//! D-Bus interface hands them out, and the back-off of the reconnection loop.
//! The sockets, the bus and the timers are the caller's part.
use vstd::prelude::*;

use crate::json::{field_str, field_u64, json_field, json_of_text, parse_json, JsonValue};
use crate::text::{concat_str, owned, str_eq, u64_to_string, decimal};

verus! {

// ── Types ────────────────────────────────────────────────────────────────

/// A workspace of the compositor.
#[derive(Debug, Clone)]
pub struct Workspace {
    pub id: u32,
    pub name: String,
    pub focused: bool,
    pub monitor: String,
    /// The ids of its windows.
    pub windows: Vec<u32>,
}

/// A workspace as a value of the specification.
pub struct WorkspaceView {
    pub id: u32,
    pub name: Seq<char>,
    pub focused: bool,
    pub monitor: Seq<char>,
    pub windows: Seq<u32>,
}

impl View for Workspace {
    type V = WorkspaceView;

    open spec fn view(&self) -> WorkspaceView {
        WorkspaceView {
            id: self.id,
            name: self.name@,
            focused: self.focused,
            monitor: self.monitor@,
            windows: self.windows@,
        }
    }
}

/// The workspaces as values of the specification.
pub open spec fn workspace_views(ws: Seq<Workspace>) -> Seq<WorkspaceView> {
    ws.map_values(|w: Workspace| w@)
}

/// An optional workspace as a value of the specification.
pub open spec fn opt_view(w: Option<Workspace>) -> Option<WorkspaceView> {
    match w {
        Some(x) => Some(x@),
        None => None,
    }
}

impl Workspace {
    /// An identical copy.
    pub fn duplicate(&self) -> (r: Self)
        ensures
            r@ == self@,
    {
        let windows = self.windows.clone();
        proof {
            assert(windows@ =~= self.windows@);
        }
        Workspace {
            id: self.id,
            name: self.name.clone(),
            focused: self.focused,
            monitor: self.monitor.clone(),
            windows,
        }
    }
}

/// A window of the compositor.
#[derive(Debug, Clone)]
pub struct Window {
    pub id: u32,
    pub title: String,
    pub class: String,
    pub workspace_id: u32,
    pub focused: bool,
}

/// A monitor.
#[derive(Debug, Clone)]
pub struct Monitor {
    pub name: String,
    pub width: u32,
    pub height: u32,
    pub focused: bool,
}

/// A desktop notification as the daemon keeps it.
#[derive(Debug, Clone)]
pub struct Notification {
    pub id: u64,
    pub app_name: String,
    pub summary: String,
    pub body: String,
    pub urgency: u8,
    pub timestamp: u64,
}

/// An event of the compositor.
#[derive(Debug, Clone)]
pub enum HyprlandEvent {
    WorkspaceFocused { id: u32, name: String },
    WindowOpened { id: u32, class: String, workspace_id: u32 },
    WindowClosed { id: u32 },
    MonitorAdded { name: String, width: u32, height: u32 },
    MonitorRemoved { name: String },
}

/// A workspace as the D-Bus interface hands it out.
#[derive(Debug, Clone)]
pub struct WorkspaceDBus {
    pub id: u32,
    pub name: String,
    pub focused: bool,
    pub monitor: String,
}

/// `b` is `w` as the bus shows it.
pub open spec fn bus_view(w: WorkspaceView, b: WorkspaceDBus) -> bool {
    &&& b.id == w.id
    &&& b.name@ == w.name
    &&& b.focused == w.focused
    &&& b.monitor@ == w.monitor
}

impl From<Workspace> for WorkspaceDBus {
    fn from(ws: Workspace) -> (r: Self) {
        WorkspaceDBus { id: ws.id, name: ws.name, focused: ws.focused, monitor: ws.monitor }
    }
}

impl vstd::std_specs::convert::FromSpecImpl<Workspace> for WorkspaceDBus {
    open spec fn obeys_from_spec() -> bool {
        true
    }

    open spec fn from_spec(ws: Workspace) -> WorkspaceDBus {
        WorkspaceDBus { id: ws.id, name: ws.name, focused: ws.focused, monitor: ws.monitor }
    }
}

// ── Reading the event stream ─────────────────────────────────────────────

/// Whether `v` is an event the daemon understands: it has a string `event`
/// and a `data` member, the event is one of the five known kinds and `data`
/// has that kind's members with the right types.
pub open spec fn is_known_event(v: JsonValue) -> bool {
    match (field_str(v, "event"@), json_field(v, "data"@)) {
        (Some(t), Some(d)) => {
            if t == "workspace"@ {
                field_u64(d, "id"@) is Some && field_str(d, "name"@) is Some
            } else if t == "windowOpen"@ {
                &&& field_u64(d, "id"@) is Some
                &&& field_str(d, "class"@) is Some
                &&& json_field(d, "workspace"@) matches Some(w) && field_u64(w, "id"@) is Some
            } else if t == "windowClose"@ {
                field_u64(d, "id"@) is Some
            } else if t == "monitorAdded"@ {
                &&& field_str(d, "name"@) is Some
                &&& field_u64(d, "width"@) is Some
                &&& field_u64(d, "height"@) is Some
            } else if t == "monitorRemoved"@ {
                field_str(d, "name"@) is Some
            } else {
                false
            }
        },
        _ => false,
    }
}

/// `e` is what the document `v` reports. Integers are cut to 32 bits as
/// `as u32` does.
pub open spec fn reads_as(v: JsonValue, e: HyprlandEvent) -> bool {
    match (field_str(v, "event"@), json_field(v, "data"@)) {
        (Some(t), Some(d)) => match e {
            HyprlandEvent::WorkspaceFocused { id, name } => {
                &&& t == "workspace"@
                &&& field_u64(d, "id"@) matches Some(n) && id == n as u32
                &&& field_str(d, "name"@) == Some(name@)
            },
            HyprlandEvent::WindowOpened { id, class, workspace_id } => {
                &&& t == "windowOpen"@
                &&& field_u64(d, "id"@) matches Some(n) && id == n as u32
                &&& field_str(d, "class"@) == Some(class@)
                &&& json_field(d, "workspace"@) matches Some(w) && field_u64(w, "id"@) matches Some(
                    n,
                ) && workspace_id == n as u32
            },
            HyprlandEvent::WindowClosed { id } => {
                &&& t == "windowClose"@
                &&& field_u64(d, "id"@) matches Some(n) && id == n as u32
            },
            HyprlandEvent::MonitorAdded { name, width, height } => {
                &&& t == "monitorAdded"@
                &&& field_str(d, "name"@) == Some(name@)
                &&& field_u64(d, "width"@) matches Some(n) && width == n as u32
                &&& field_u64(d, "height"@) matches Some(n) && height == n as u32
            },
            HyprlandEvent::MonitorRemoved { name } => {
                &&& t == "monitorRemoved"@
                &&& field_str(d, "name"@) == Some(name@)
            },
        },
        _ => false,
    }
}

/// The event that a document of the compositor's stream reports, if it is
/// one of the known kinds with its members.
pub fn parse_hyprland_event(json: &JsonValue) -> (r: Option<HyprlandEvent>)
    ensures
        r is Some <==> is_known_event(*json),
        r matches Some(e) ==> reads_as(*json, e),
{
    let event_type = match json.get_string("event") {
        Some(t) => t,
        None => return None,
    };
    let data = match json.get("data") {
        Some(d) => d,
        None => return None,
    };
    if str_eq(event_type.as_str(), "workspace") {
        let id = match data.get_u64("id") {
            Some(n) => n as u32,
            None => return None,
        };
        let name = match data.get_string("name") {
            Some(s) => s,
            None => return None,
        };
        Some(HyprlandEvent::WorkspaceFocused { id, name })
    } else if str_eq(event_type.as_str(), "windowOpen") {
        let id = match data.get_u64("id") {
            Some(n) => n as u32,
            None => return None,
        };
        let class = match data.get_string("class") {
            Some(s) => s,
            None => return None,
        };
        let workspace_id = match data.get("workspace") {
            Some(w) => match w.get_u64("id") {
                Some(n) => n as u32,
                None => return None,
            },
            None => return None,
        };
        Some(HyprlandEvent::WindowOpened { id, class, workspace_id })
    } else if str_eq(event_type.as_str(), "windowClose") {
        let id = match data.get_u64("id") {
            Some(n) => n as u32,
            None => return None,
        };
        Some(HyprlandEvent::WindowClosed { id })
    } else if str_eq(event_type.as_str(), "monitorAdded") {
        let name = match data.get_string("name") {
            Some(s) => s,
            None => return None,
        };
        let width = match data.get_u64("width") {
            Some(n) => n as u32,
            None => return None,
        };
        let height = match data.get_u64("height") {
            Some(n) => n as u32,
            None => return None,
        };
        Some(HyprlandEvent::MonitorAdded { name, width, height })
    } else if str_eq(event_type.as_str(), "monitorRemoved") {
        let name = match data.get_string("name") {
            Some(s) => s,
            None => return None,
        };
        Some(HyprlandEvent::MonitorRemoved { name })
    } else {
        None
    }
}

/// The event on one line of the compositor's stream: the line read as JSON,
/// then as an event; none for a line that is neither.
pub fn event_of_line(line: &str) -> (r: Option<HyprlandEvent>)
    ensures
        match json_of_text(line@) {
            Some(v) => (r is Some <==> is_known_event(v)) && (r matches Some(e) ==> reads_as(v, e)),
            None => r is None,
        },
{
    match parse_json(line) {
        Some(v) => parse_hyprland_event(&v),
        None => None,
    }
}

/// The path of the compositor's event socket for an instance signature:
/// `/tmp/hypr/<signature>/.socket2.sock`; none without a signature.
pub fn get_socket_path(signature: Option<&str>) -> (r: Option<String>)
    ensures
        match signature {
            Some(s) => r matches Some(p) && p@ == "/tmp/hypr/"@ + s@ + "/.socket2.sock"@,
            None => r is None,
        },
{
    match signature {
        Some(s) => {
            let a = concat_str("/tmp/hypr/", s);
            Some(concat_str(a.as_str(), "/.socket2.sock"))
        },
        None => None,
    }
}

// ── Reconnection ─────────────────────────────────────────────────────────

/// One round of the reconnection loop: how long to wait, and the delay of
/// the next round, in seconds.
#[derive(Debug, Clone, Copy, PartialEq, Eq, Structural)]
pub struct RetryStep {
    pub sleep_secs: u64,
    pub next_delay_secs: u64,
}

/// The longest wait between two connection attempts, in seconds.
pub const MAX_RETRY_DELAY_SECS: u64 = 30;

/// After a round that reached the socket the wait starts again at one
/// second; after one that did not, the current delay is waited. Either way
/// the next delay is twice the wait, at most thirty seconds.
pub fn retry_step(delay_secs: u64, connected: bool) -> (r: RetryStep)
    ensures
        r.sleep_secs == if connected { 1 } else { delay_secs },
        r.next_delay_secs == if 2 * r.sleep_secs < 30 { 2 * r.sleep_secs } else { 30 },
{
    let sleep_secs: u64 = if connected { 1 } else { delay_secs };
    let next_delay_secs: u64 = if sleep_secs < 15 { 2 * sleep_secs } else { MAX_RETRY_DELAY_SECS };
    RetryStep { sleep_secs, next_delay_secs }
}

/// The delay before the `k`-th attempt of a run of failures that started at
/// one second: 1, 2, 4, 8, 16, then 30.
pub open spec fn backoff(k: nat) -> u64
    decreases k,
{
    if k == 0 {
        1
    } else {
        let d = backoff((k - 1) as nat);
        if 2 * d < 30 { (2 * d) as u64 } else { 30 }
    }
}

/// The wait never exceeds thirty seconds once the delay is within that
/// bound, it stays at least one second, and a run of failures doubles it up
/// to the bound.
pub proof fn law_retry_bounded(delay_secs: u64, connected: bool, r: RetryStep, k: nat)
    requires
        1 <= delay_secs <= 30,
        r.sleep_secs == if connected { 1 } else { delay_secs },
        r.next_delay_secs == if 2 * r.sleep_secs < 30 { 2 * r.sleep_secs } else { 30 },
    ensures
        1 <= r.sleep_secs <= 30,
        2 <= r.next_delay_secs <= 30,
        1 <= backoff(k) <= 30,
        !connected && delay_secs == backoff(k) ==> r.next_delay_secs == backoff(k + 1),
    decreases k,
{
    if k > 0 {
        law_retry_bounded(delay_secs, connected, r, (k - 1) as nat);
    }
}

// ── The workspace list ───────────────────────────────────────────────────

/// Some workspace has the id.
pub open spec fn has_id(ws: Seq<WorkspaceView>, id: u32) -> bool {
    exists|i: int| 0 <= i < ws.len() && (#[trigger] ws[i]).id == id
}

/// The workspaces, focused exactly where the id is `id`.
pub open spec fn refocused(ws: Seq<WorkspaceView>, id: u32) -> Seq<WorkspaceView> {
    ws.map_values(|w: WorkspaceView| WorkspaceView { focused: w.id == id, ..w })
}

/// The workspace that a focus event creates for an id not seen before.
pub open spec fn is_new_workspace(w: WorkspaceView, id: u32, name: Seq<char>) -> bool {
    &&& w.id == id
    &&& w.name == name
    &&& w.focused
    &&& w.monitor == "Unknown"@
    &&& w.windows == Seq::<u32>::empty()
}

/// `r` is the list `ws` after the workspace `id` (named `name`) got the
/// focus: every workspace focused exactly where its id is `id`, and a new
/// workspace at the end when none had that id.
pub open spec fn focus_result(ws: Seq<WorkspaceView>, id: u32, name: Seq<char>, r: Seq<WorkspaceView>) -> bool {
    if has_id(ws, id) {
        r == refocused(ws, id)
    } else {
        &&& r.len() == ws.len() + 1
        &&& r.drop_last() == refocused(ws, id)
        &&& is_new_workspace(r.last(), id, name)
    }
}

/// `r` is the list `ws` after the monitor `name` appeared: the workspaces
/// without a known monitor are put on it.
pub open spec fn monitor_result(ws: Seq<WorkspaceView>, name: Seq<char>, r: Seq<WorkspaceView>) -> bool {
    &&& r.len() == ws.len()
    &&& forall|i: int|
        0 <= i < ws.len() ==> if (#[trigger] ws[i]).monitor == "Unknown"@ {
            r[i] == WorkspaceView { monitor: name, ..ws[i] }
        } else {
            r[i] == ws[i]
        }
}

/// `j` is the first focused workspace.
pub open spec fn first_focused(ws: Seq<WorkspaceView>, j: int) -> bool {
    &&& 0 <= j < ws.len()
    &&& ws[j].focused
    &&& forall|i: int| 0 <= i < j ==> !(#[trigger] ws[i]).focused
}

/// The workspace to announce on the bus: the first focused one.
pub open spec fn announced(ws: Seq<WorkspaceView>, a: Option<WorkspaceView>) -> bool {
    if exists|j: int| first_focused(ws, j) {
        a == Some(ws[choose|j: int| first_focused(ws, j)])
    } else {
        a is None
    }
}

proof fn lemma_first_focused_unique(ws: Seq<WorkspaceView>, j: int, k: int)
    requires
        first_focused(ws, j),
        first_focused(ws, k),
    ensures
        j == k,
{
    if j < k {
        assert(!ws[j].focused);
    } else if k < j {
        assert(!ws[k].focused);
    }
}

proof fn lemma_first_focused_exists(ws: Seq<WorkspaceView>, k: int)
    requires
        0 <= k < ws.len(),
        ws[k].focused,
    ensures
        exists|j: int| first_focused(ws, j),
    decreases k,
{
    if exists|i: int| 0 <= i < k && (#[trigger] ws[i]).focused {
        let i = choose|i: int| 0 <= i < k && (#[trigger] ws[i]).focused;
        lemma_first_focused_exists(ws, i);
    } else {
        assert(first_focused(ws, k));
    }
}

/// What an event does to the workspace list: the new list, and the
/// workspace to announce as the new focus.
#[derive(Debug, Clone)]
pub struct WorkspaceUpdate {
    pub workspaces: Vec<Workspace>,
    pub announce: Option<Workspace>,
}

/// The first focused workspace of the list.
pub fn focused_workspace(workspaces: &Vec<Workspace>) -> (r: Option<Workspace>)
    ensures
        announced(workspace_views(workspaces@), opt_view(r)),
{
    let mut i: usize = 0;
    while i < workspaces.len()
        invariant
            i <= workspaces@.len(),
            forall|k: int| 0 <= k < i ==> !(#[trigger] workspaces@[k]).focused,
        decreases workspaces.len() - i,
    {
        if workspaces[i].focused {
            let w = workspaces[i].duplicate();
            proof {
                let vs = workspace_views(workspaces@);
                assert(forall|k: int| 0 <= k < i ==> !(#[trigger] vs[k]).focused);
                assert(first_focused(vs, i as int));
                let k = choose|k: int| first_focused(vs, k);
                lemma_first_focused_unique(vs, i as int, k);
            }
            return Some(w);
        }
        i = i + 1;
    }
    proof {
        let vs = workspace_views(workspaces@);
        if exists|j: int| first_focused(vs, j) {
            let j = choose|j: int| first_focused(vs, j);
            assert(!workspaces@[j].focused);
        }
    }
    None
}

/// The workspace list after the compositor focused workspace `id`.
pub fn focus_workspace(workspaces: &Vec<Workspace>, id: u32, name: &str) -> (r: Vec<Workspace>)
    ensures
        focus_result(workspace_views(workspaces@), id, name@, workspace_views(r@)),
{
    let mut r: Vec<Workspace> = Vec::new();
    let mut seen = false;
    let mut i: usize = 0;
    while i < workspaces.len()
        invariant
            i <= workspaces@.len(),
            workspace_views(r@) == refocused(workspace_views(workspaces@.take(i as int)), id),
            seen == has_id(workspace_views(workspaces@.take(i as int)), id),
        decreases workspaces.len() - i,
    {
        let mut w = workspaces[i].duplicate();
        w.focused = w.id == id;
        if w.id == id {
            seen = true;
        }
        let ghost old_r = r@;
        let ghost wv = w@;
        r.push(w);
        proof {
            assert(workspace_views(r@) =~= workspace_views(old_r).push(wv));
            let t = workspace_views(workspaces@.take(i + 1));
            let p = workspace_views(workspaces@.take(i as int));
            assert(t.drop_last() =~= p);
            assert(t[i as int] == workspaces@[i as int]@);
            assert(refocused(t, id) =~= refocused(p, id).push(WorkspaceView { focused: t[i as int].id == id, ..t[i as int] }));
            assert(workspace_views(r@) =~= refocused(t, id));
            if has_id(t, id) && workspaces@[i as int].id != id {
                let k = choose|k: int| 0 <= k < t.len() && (#[trigger] t[k]).id == id;
                assert(p[k].id == id);
            }
            if has_id(p, id) {
                let k = choose|k: int| 0 <= k < p.len() && (#[trigger] p[k]).id == id;
                assert(t[k].id == id);
            }
        }
        i = i + 1;
    }
    proof {
        assert(workspaces@.take(workspaces@.len() as int) =~= workspaces@);
    }
    if !seen {
        let ghost before = r@;
        r.push(Workspace { id, name: owned(name), focused: true, monitor: owned("Unknown"), windows: Vec::new() });
        proof {
            assert(workspace_views(r@).drop_last() =~= workspace_views(before));
        }
    }
    r
}

/// The workspace list after the monitor `name` appeared.
pub fn assign_monitor(workspaces: &Vec<Workspace>, name: &str) -> (r: Vec<Workspace>)
    ensures
        monitor_result(workspace_views(workspaces@), name@, workspace_views(r@)),
{
    let mut r: Vec<Workspace> = Vec::new();
    let mut i: usize = 0;
    while i < workspaces.len()
        invariant
            i <= workspaces@.len(),
            r@.len() == i,
            forall|k: int|
                0 <= k < i ==> if (#[trigger] workspaces@[k])@.monitor == "Unknown"@ {
                    r@[k]@ == WorkspaceView { monitor: name@, ..workspaces@[k]@ }
                } else {
                    r@[k]@ == workspaces@[k]@
                },
        decreases workspaces.len() - i,
    {
        let mut w = workspaces[i].duplicate();
        if str_eq(w.monitor.as_str(), "Unknown") {
            w.monitor = owned(name);
        }
        r.push(w);
        i = i + 1;
    }
    proof {
        assert(workspace_views(r@).len() == workspaces@.len());
        assert forall|k: int| 0 <= k < workspaces@.len() implies if (#[trigger] workspace_views(workspaces@)[k]).monitor == "Unknown"@ {
            workspace_views(r@)[k] == WorkspaceView { monitor: name@, ..workspace_views(workspaces@)[k] }
        } else {
            workspace_views(r@)[k] == workspace_views(workspaces@)[k]
        } by {
            assert(workspaces@[k]@ == workspace_views(workspaces@)[k]);
        }
    }
    r
}

/// What an event does to the workspace list. A focus event refocuses the
/// list (adding the workspace when it is new) and announces the first
/// focused workspace; a new monitor takes the workspaces that had none; the
/// other events leave the list alone (none).
pub fn apply_event(workspaces: &Vec<Workspace>, event: &HyprlandEvent) -> (r: Option<WorkspaceUpdate>)
    ensures
        match *event {
            HyprlandEvent::WorkspaceFocused { id, name } => r matches Some(u) && focus_result(
                workspace_views(workspaces@),
                id,
                name@,
                workspace_views(u.workspaces@),
            ) && announced(workspace_views(u.workspaces@), opt_view(u.announce)),
            HyprlandEvent::MonitorAdded { name, .. } => r matches Some(u) && monitor_result(
                workspace_views(workspaces@),
                name@,
                workspace_views(u.workspaces@),
            ) && u.announce is None,
            _ => r is None,
        },
{
    match event {
        HyprlandEvent::WorkspaceFocused { id, name } => {
            let ws = focus_workspace(workspaces, *id, name.as_str());
            let announce = focused_workspace(&ws);
            Some(WorkspaceUpdate { workspaces: ws, announce })
        },
        HyprlandEvent::MonitorAdded { name, .. } => {
            let ws = assign_monitor(workspaces, name.as_str());
            Some(WorkspaceUpdate { workspaces: ws, announce: None })
        },
        _ => None,
    }
}

/// The ids of the workspaces are distinct.
pub open spec fn distinct_ids(ws: Seq<WorkspaceView>) -> bool {
    forall|i: int, j: int| 0 <= i < j < ws.len() ==> (#[trigger] ws[i]).id != (#[trigger] ws[j]).id
}

/// After a focus event the focused workspaces are exactly those with the
/// event's id: there is one, it is the one announced, and when the ids were
/// distinct they stay distinct and it is the only focused workspace.
pub proof fn law_focus_is_unique(ws: Seq<WorkspaceView>, id: u32, name: Seq<char>, r: Seq<WorkspaceView>, a: Option<WorkspaceView>)
    requires
        focus_result(ws, id, name, r),
        announced(r, a),
    ensures
        forall|i: int| 0 <= i < r.len() ==> ((#[trigger] r[i]).focused <==> r[i].id == id),
        a matches Some(w) && w.id == id && w.focused,
        distinct_ids(ws) ==> distinct_ids(r),
        distinct_ids(ws) ==> forall|i: int, j: int|
            0 <= i < r.len() && 0 <= j < r.len() && (#[trigger] r[i]).focused && (#[trigger] r[j]).focused
                ==> i == j,
{
    let k: int = if has_id(ws, id) {
        choose|i: int| 0 <= i < ws.len() && (#[trigger] ws[i]).id == id
    } else {
        ws.len() as int
    };
    if has_id(ws, id) {
        assert(r[k].id == id);
    } else {
        assert(r[k] == r.last());
        assert forall|i: int| 0 <= i < r.len() - 1 implies (#[trigger] r[i]).id != id by {
            assert(r.drop_last()[i] == r[i]);
            assert(ws[i].id == r[i].id);
        }
    }
    assert forall|i: int| 0 <= i < r.len() implies ((#[trigger] r[i]).focused <==> r[i].id == id) by {
        if !has_id(ws, id) && i < ws.len() {
            assert(r.drop_last()[i] == r[i]);
        }
    }
    assert(r[k].focused);
    lemma_first_focused_exists(r, k);
    if distinct_ids(ws) {
        assert forall|i: int, j: int| 0 <= i < j < r.len() implies (#[trigger] r[i]).id != (#[trigger] r[j]).id by {
            if !has_id(ws, id) && j == r.len() - 1 {
                assert(r.drop_last()[i] == r[i]);
                assert(ws[i].id == r[i].id);
            } else {
                if !has_id(ws, id) {
                    assert(r.drop_last()[i] == r[i]);
                    assert(r.drop_last()[j] == r[j]);
                }
                assert(ws[i].id == r[i].id);
                assert(ws[j].id == r[j].id);
            }
        }
    }
}

/// Focusing the same workspace twice does what focusing it once does.
pub proof fn law_focus_idempotent(
    ws: Seq<WorkspaceView>,
    id: u32,
    name: Seq<char>,
    once: Seq<WorkspaceView>,
    twice: Seq<WorkspaceView>,
)
    requires
        focus_result(ws, id, name, once),
        focus_result(once, id, name, twice),
    ensures
        twice == once,
{
    if has_id(ws, id) {
        let k = choose|i: int| 0 <= i < ws.len() && (#[trigger] ws[i]).id == id;
        assert(once[k].id == id);
    } else {
        assert(once[once.len() - 1].id == id);
    }
    assert(has_id(once, id));
    assert forall|i: int| 0 <= i < once.len() implies (#[trigger] once[i]).focused == (once[i].id == id) by {
        if !has_id(ws, id) && i < ws.len() {
            assert(once.drop_last()[i] == once[i]);
        }
    }
    assert(twice =~= once);
}

/// Once a monitor appeared, no workspace is left without one, and the
/// workspaces that had one keep it.
pub proof fn law_monitor_assigned(ws: Seq<WorkspaceView>, name: Seq<char>, r: Seq<WorkspaceView>)
    requires
        monitor_result(ws, name, r),
        name != "Unknown"@,
    ensures
        forall|i: int| 0 <= i < r.len() ==> (#[trigger] r[i]).monitor != "Unknown"@,
        forall|i: int| 0 <= i < r.len() && ws[i].monitor != "Unknown"@ ==> #[trigger] r[i] == ws[i],
{
    assert forall|i: int| 0 <= i < r.len() implies (#[trigger] r[i]).monitor != "Unknown"@ by {
        if ws[i].monitor == "Unknown"@ {
        } else {
            assert(r[i] == ws[i]);
        }
    }
}

// ── The bus interface ────────────────────────────────────────────────────

/// The workspaces as the bus hands them out, in order.
pub fn get_workspaces(workspaces: &Vec<Workspace>) -> (r: Vec<WorkspaceDBus>)
    ensures
        r@.len() == workspaces@.len(),
        forall|i: int| 0 <= i < r@.len() ==> bus_view(workspaces@[i]@, #[trigger] r@[i]),
{
    let mut r: Vec<WorkspaceDBus> = Vec::new();
    let mut i: usize = 0;
    while i < workspaces.len()
        invariant
            i <= workspaces@.len(),
            r@.len() == i,
            forall|k: int| 0 <= k < i ==> bus_view(workspaces@[k]@, #[trigger] r@[k]),
        decreases workspaces.len() - i,
    {
        let b = WorkspaceDBus::from(workspaces[i].duplicate());
        r.push(b);
        i = i + 1;
    }
    r
}

/// The arguments of `hyprctl` that switch to workspace `id`.
pub fn switch_workspace_args(id: u32) -> (r: Vec<String>)
    ensures
        r@.len() == 3,
        r@[0]@ == "dispatch"@,
        r@[1]@ == "workspace"@,
        r@[2]@ == decimal(id as nat),
{
    let mut r: Vec<String> = Vec::new();
    r.push(owned("dispatch"));
    r.push(owned("workspace"));
    r.push(u64_to_string(id as u64));
    r
}

} // verus!
