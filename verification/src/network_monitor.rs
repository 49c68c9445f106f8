//! Network interfaces as NetworkManager, `ip` and sysfs report them: the
//! active connections (one interface per device), their IPv4 addresses and
//! their traffic counters. Running the commands and reading the files is the
//! caller's part; the monitor reads their output.
use vstd::prelude::*;

use crate::text::{
    bool_text, bool_word, chars_of, concat_str, decimal, extend_str, join_strings, joined, lines, lines_chars,
    parse_int, split_chars, split_on, split_whitespace_chars, string_of, string_views, str_eq, trim, trim_chars,
    u64_to_string, views, words,
};

verus! {

/// The network monitor.
pub struct NetworkMonitor;

/// A network interface.
#[derive(Debug, Clone)]
pub struct NetworkInterface {
    pub name: String,
    pub interface_type: String,
    pub is_up: bool,
    pub ip_addresses: Vec<String>,
    pub speed: Option<u64>,
    pub bytes_received: u64,
    pub bytes_sent: u64,
}

/// An interface as a value of the specification.
pub struct InterfaceView {
    pub name: Seq<char>,
    pub interface_type: Seq<char>,
    pub is_up: bool,
    pub ip_addresses: Seq<Seq<char>>,
    pub speed: Option<u64>,
    pub bytes_received: u64,
    pub bytes_sent: u64,
}

impl View for NetworkInterface {
    type V = InterfaceView;

    open spec fn view(&self) -> InterfaceView {
        InterfaceView {
            name: self.name@,
            interface_type: self.interface_type@,
            is_up: self.is_up,
            ip_addresses: self.ip_addresses@.map_values(|a: String| a@),
            speed: self.speed,
            bytes_received: self.bytes_received,
            bytes_sent: self.bytes_sent,
        }
    }
}

/// The interfaces as values of the specification.
pub open spec fn interface_views(v: Seq<NetworkInterface>) -> Seq<InterfaceView> {
    v.map_values(|i: NetworkInterface| i@)
}

/// The kind of interface of a NetworkManager connection type.
pub open spec fn type_label(t: Seq<char>) -> Seq<char> {
    if t == "802-3-ethernet"@ {
        "Ethernet"@
    } else if t == "802-11-wireless"@ {
        "WiFi"@
    } else if t == "loopback"@ {
        "Loopback"@
    } else {
        "Other"@
    }
}

/// Some interface has the name.
pub open spec fn names_device(ifs: Seq<InterfaceView>, name: Seq<char>) -> bool {
    exists|i: int| 0 <= i < ifs.len() && (#[trigger] ifs[i]).name == name
}

/// The interfaces of the active connections listed by
/// `nmcli -t -f NAME,TYPE,STATE,DEVICE connection show --active`, one per
/// device, in the order of their first line; lines with fewer than four
/// fields are skipped.
pub open spec fn connections(ls: Seq<Seq<char>>) -> Seq<InterfaceView>
    decreases ls.len(),
{
    if ls.len() == 0 {
        Seq::empty()
    } else {
        let init = connections(ls.drop_last());
        let f = split_on(ls.last(), ':');
        if f.len() < 4 || names_device(init, f[3]) {
            init
        } else {
            init.push(
                InterfaceView {
                    name: f[3],
                    interface_type: type_label(f[1]),
                    is_up: f[2] == "activated"@,
                    ip_addresses: Seq::empty(),
                    speed: None,
                    bytes_received: 0,
                    bytes_sent: 0,
                },
            )
        }
    }
}

/// `j` is the first interface named `name`.
pub open spec fn first_named(ifs: Seq<InterfaceView>, name: Seq<char>, j: int) -> bool {
    &&& 0 <= j < ifs.len()
    &&& ifs[j].name == name
    &&& forall|i: int| 0 <= i < j ==> (#[trigger] ifs[i]).name != name
}

/// The interfaces after the address `addr` was found on device `dev`: the
/// first interface of that name gets it.
pub open spec fn with_address(ifs: Seq<InterfaceView>, dev: Seq<char>, addr: Seq<char>) -> Seq<InterfaceView> {
    if exists|j: int| first_named(ifs, dev, j) {
        let j = choose|j: int| first_named(ifs, dev, j);
        ifs.update(j, InterfaceView { ip_addresses: ifs[j].ip_addresses.push(addr), ..ifs[j] })
    } else {
        ifs
    }
}

/// The interfaces after the lines of `ip -o -f inet addr show`: each line
/// with at least four fields gives its fourth field to the device named in
/// its second.
pub open spec fn with_addresses(ifs: Seq<InterfaceView>, ls: Seq<Seq<char>>) -> Seq<InterfaceView>
    decreases ls.len(),
{
    if ls.len() == 0 {
        ifs
    } else {
        let before = with_addresses(ifs, ls.drop_last());
        let w = words(ls.last());
        if w.len() >= 4 {
            with_address(before, w[1], w[3])
        } else {
            before
        }
    }
}

/// A counter file read as a `u64` after trimming, zero when it is not one.
pub open spec fn counter_value(text: Seq<char>) -> u64 {
    match parse_int(trim(text), false, 0, u64::MAX as int) {
        Some(v) => v as u64,
        None => 0,
    }
}

/// The link speed of a speed file: its positive value, read as an `i64`
/// after trimming; none for anything else.
pub open spec fn speed_value(text: Seq<char>) -> Option<u64> {
    match parse_int(trim(text), true, i64::MIN as int, i64::MAX as int) {
        Some(v) => if v > 0 { Some(v as u64) } else { None },
        None => None,
    }
}

proof fn lemma_first_named_unique(ifs: Seq<InterfaceView>, name: Seq<char>, j: int, k: int)
    requires
        first_named(ifs, name, j),
        first_named(ifs, name, k),
    ensures
        j == k,
{
    if j < k {
        assert(ifs[j].name != name);
    } else if k < j {
        assert(ifs[k].name != name);
    }
}

fn type_word(t: &Vec<char>) -> (r: String)
    ensures
        r@ == type_label(t@),
{
    let s = string_of(t);
    if str_eq(s.as_str(), "802-3-ethernet") {
        crate::text::owned("Ethernet")
    } else if str_eq(s.as_str(), "802-11-wireless") {
        crate::text::owned("WiFi")
    } else if str_eq(s.as_str(), "loopback") {
        crate::text::owned("Loopback")
    } else {
        crate::text::owned("Other")
    }
}

fn find_named(ifs: &Vec<NetworkInterface>, name: &Vec<char>) -> (r: Option<usize>)
    ensures
        match r {
            Some(j) => first_named(interface_views(ifs@), name@, j as int),
            None => !names_device(interface_views(ifs@), name@),
        },
{
    let ghost vs = interface_views(ifs@);
    let mut i: usize = 0;
    while i < ifs.len()
        invariant
            i <= ifs@.len(),
            vs == interface_views(ifs@),
            forall|k: int| 0 <= k < i ==> (#[trigger] vs[k]).name != name@,
        decreases ifs.len() - i,
    {
        let n = chars_of(ifs[i].name.as_str());
        if crate::text::str_eq(string_of(&n).as_str(), string_of(name).as_str()) {
            proof {
                assert(vs[i as int].name == name@);
            }
            return Some(i);
        }
        i = i + 1;
    }
    proof {
        if names_device(vs, name@) {
            let k = choose|k: int| 0 <= k < vs.len() && (#[trigger] vs[k]).name == name@;
            assert(vs[k].name != name@);
        }
    }
    None
}

impl NetworkMonitor {
    /// The interfaces of the active connections that `nmcli` lists, one per
    /// device, with no address, speed or traffic yet.
    pub fn parse_connections(nmcli_output: &str) -> (r: Vec<NetworkInterface>)
        ensures
            interface_views(r@) == connections(lines(nmcli_output@)),
    {
        let text = chars_of(nmcli_output);
        let ls = lines_chars(&text);
        let mut r: Vec<NetworkInterface> = Vec::new();
        let mut i: usize = 0;
        while i < ls.len()
            invariant
                i <= ls@.len(),
                views(ls@) == lines(nmcli_output@),
                interface_views(r@) == connections(views(ls@).take(i as int)),
            decreases ls.len() - i,
        {
            proof {
                assert(views(ls@).take(i + 1).drop_last() =~= views(ls@).take(i as int));
                assert(views(ls@).take(i + 1).last() == ls@[i as int]@);
            }
            let parts = split_chars(&ls[i], ':');
            if parts.len() >= 4 {
                let device = &parts[3];
                match find_named(&r, device) {
                    Some(_) => {},
                    None => {
                        let ghost before = r@;
                        let state = string_of(&parts[2]);
                        let iface = NetworkInterface {
                            name: string_of(device),
                            interface_type: type_word(&parts[1]),
                            is_up: str_eq(state.as_str(), "activated"),
                            ip_addresses: Vec::new(),
                            speed: None,
                            bytes_received: 0,
                            bytes_sent: 0,
                        };
                        proof {
                            assert(iface@.ip_addresses =~= Seq::<Seq<char>>::empty());
                        }
                        r.push(iface);
                        proof {
                            assert(interface_views(r@) =~= interface_views(before).push(iface@));
                        }
                    },
                }
            }
            i = i + 1;
        }
        proof {
            assert(views(ls@).take(ls@.len() as int) =~= views(ls@));
        }
        r
    }

    /// Adds the IPv4 addresses that `ip -o -f inet addr show` lists to the
    /// interfaces of their devices.
    pub fn add_addresses(interfaces: &mut Vec<NetworkInterface>, ip_output: &str)
        ensures
            interface_views(final(interfaces)@) == with_addresses(
                interface_views(old(interfaces)@),
                lines(ip_output@),
            ),
    {
        let text = chars_of(ip_output);
        let ls = lines_chars(&text);
        let mut i: usize = 0;
        while i < ls.len()
            invariant
                i <= ls@.len(),
                views(ls@) == lines(ip_output@),
                interface_views(interfaces@) == with_addresses(
                    interface_views(old(interfaces)@),
                    views(ls@).take(i as int),
                ),
            decreases ls.len() - i,
        {
            proof {
                assert(views(ls@).take(i + 1).drop_last() =~= views(ls@).take(i as int));
                assert(views(ls@).take(i + 1).last() == ls@[i as int]@);
            }
            let w = split_whitespace_chars(&ls[i]);
            if w.len() >= 4 {
                match find_named(interfaces, &w[1]) {
                    Some(j) => {
                        let ghost before = interface_views(interfaces@);
                        let ghost old_ips = interfaces@[j as int].ip_addresses@;
                        let mut iface = interfaces.remove(j);
                        let addr = string_of(&w[3]);
                        let ghost addr_v = addr@;
                        iface.ip_addresses.push(addr);
                        proof {
                            assert(iface.ip_addresses@.map_values(|a: String| a@) =~= old_ips.map_values(
                                |a: String| a@,
                            ).push(addr_v));
                        }
                        let ghost new_v = iface@;
                        interfaces.insert(j, iface);
                        proof {
                            assert(interface_views(interfaces@) =~= before.update(j as int, new_v));
                            let k = choose|k: int| first_named(before, w@[1]@, k);
                            lemma_first_named_unique(before, w@[1]@, j as int, k);
                            assert(interface_views(interfaces@) =~= with_address(before, w@[1]@, w@[3]@));
                        }
                    },
                    None => {
                        proof {
                            let before = interface_views(interfaces@);
                            if exists|k: int| first_named(before, w@[1]@, k) {
                                let k = choose|k: int| first_named(before, w@[1]@, k);
                                assert(before[k].name == w@[1]@);
                            }
                        }
                    },
                }
            }
            i = i + 1;
        }
        proof {
            assert(views(ls@).take(ls@.len() as int) =~= views(ls@));
        }
    }

    /// The traffic counters and link speed of an interface from its sysfs
    /// files (each absent when the file could not be read): a counter is its
    /// trimmed value (zero when that is not a number); the speed is set only
    /// when it is positive.
    pub fn apply_statistics(
        iface: &mut NetworkInterface,
        rx_bytes: Option<&str>,
        tx_bytes: Option<&str>,
        speed: Option<&str>,
    )
        ensures
            final(iface).name == old(iface).name,
            final(iface).interface_type == old(iface).interface_type,
            final(iface).is_up == old(iface).is_up,
            final(iface).ip_addresses@ == old(iface).ip_addresses@,
            final(iface).bytes_received == match rx_bytes {
                Some(t) => counter_value(t@),
                None => old(iface).bytes_received,
            },
            final(iface).bytes_sent == match tx_bytes {
                Some(t) => counter_value(t@),
                None => old(iface).bytes_sent,
            },
            final(iface).speed == match speed {
                Some(t) => match speed_value(t@) {
                    Some(s) => Some(s),
                    None => old(iface).speed,
                },
                None => old(iface).speed,
            },
    {
        match rx_bytes {
            Some(t) => {
                iface.bytes_received = Self::counter(t);
            },
            None => {},
        }
        match tx_bytes {
            Some(t) => {
                iface.bytes_sent = Self::counter(t);
            },
            None => {},
        }
        match speed {
            Some(t) => {
                let c = chars_of(t);
                let v = trim_chars(&c);
                match crate::text::parse_int_chars(&v, true, -0x8000_0000_0000_0000, 0x7fff_ffff_ffff_ffff) {
                    Some(s) => {
                        if s > 0 {
                            iface.speed = Some(s as u64);
                        }
                    },
                    None => {},
                }
            },
            None => {},
        }
    }

    fn counter(t: &str) -> (r: u64)
        ensures
            r == counter_value(t@),
    {
        let c = chars_of(t);
        let v = trim_chars(&c);
        match crate::text::parse_u64(&v) {
            Some(n) => n,
            None => 0,
        }
    }

    /// The sysfs file `file` of interface `name`:
    /// `/sys/class/net/<name>/<file>`.
    pub fn sysfs_path(name: &str, file: &str) -> (r: String)
        ensures
            r@ == "/sys/class/net/"@ + name@ + "/"@ + file@,
    {
        let a = concat_str("/sys/class/net/", name);
        let b = concat_str(a.as_str(), "/");
        concat_str(b.as_str(), file)
    }
}

/// The interfaces of the active connections name distinct devices.
pub proof fn law_one_interface_per_device(ls: Seq<Seq<char>>)
    ensures
        forall|i: int, j: int|
            0 <= i < j < connections(ls).len() ==> (#[trigger] connections(ls)[i]).name != (
            #[trigger] connections(ls)[j]).name,
    decreases ls.len(),
{
    if ls.len() > 0 {
        law_one_interface_per_device(ls.drop_last());
        let init = connections(ls.drop_last());
        let f = split_on(ls.last(), ':');
        if !(f.len() < 4 || names_device(init, f[3])) {
            let r = connections(ls);
            assert forall|i: int, j: int| 0 <= i < j < r.len() implies (#[trigger] r[i]).name != (
                #[trigger] r[j]).name by {
                if j == r.len() - 1 {
                    assert(r[i] == init[i]);
                } else {
                    assert(r[i] == init[i] && r[j] == init[j]);
                }
            }
        }
    }
}

// ── The list for the network screen ─────────────────────────────────────

/// An interface as the QML network list shows it:
/// `name|type|addresses|up|bytes`, the addresses joined with `, ` and the
/// bytes received and sent added up.
pub open spec fn bridge_line(i: NetworkInterface) -> Seq<char> {
    i.name@ + "|"@ + i.interface_type@ + "|"@ + joined(string_views(i.ip_addresses@), ", "@) + "|"@ + bool_text(
        i.is_up,
    ) + "|"@ + decimal((i.bytes_received + i.bytes_sent) as nat)
}

/// The byte counters of every interface can be added up.
pub open spec fn totals_fit(v: Seq<NetworkInterface>) -> bool {
    forall|k: int| 0 <= k < v.len() ==> (#[trigger] v[k]).bytes_received + v[k].bytes_sent <= u64::MAX
}

fn bridge_line_of(i: &NetworkInterface) -> (r: String)
    requires
        i.bytes_received + i.bytes_sent <= u64::MAX,
    ensures
        r@ == bridge_line(*i),
{
    let mut out: Vec<char> = Vec::new();
    extend_str(&mut out, i.name.as_str());
    extend_str(&mut out, "|");
    extend_str(&mut out, i.interface_type.as_str());
    extend_str(&mut out, "|");
    let addrs = join_strings(&i.ip_addresses, ", ");
    extend_str(&mut out, addrs.as_str());
    extend_str(&mut out, "|");
    extend_str(&mut out, bool_word(i.is_up));
    extend_str(&mut out, "|");
    let total = u64_to_string(i.bytes_received + i.bytes_sent);
    extend_str(&mut out, total.as_str());
    proof {
        assert(out@ =~= bridge_line(*i));
    }
    string_of(&out)
}

impl NetworkMonitor {
    /// The interfaces as the QML network list reads them: one line each.
    /// The byte counters must add up without overflow.
    pub fn bridge_lines(interfaces: &Vec<NetworkInterface>) -> (r: String)
        requires
            totals_fit(interfaces@),
        ensures
            r@ == joined(interfaces@.map_values(|i: NetworkInterface| bridge_line(i)), "\n"@),
    {
        let mut ls: Vec<String> = Vec::new();
        let mut k: usize = 0;
        while k < interfaces.len()
            invariant
                k <= interfaces@.len(),
                totals_fit(interfaces@),
                string_views(ls@) == interfaces@.take(k as int).map_values(|i: NetworkInterface| bridge_line(i)),
            decreases interfaces.len() - k,
        {
            let ghost before = string_views(ls@);
            ls.push(bridge_line_of(&interfaces[k]));
            proof {
                assert(string_views(ls@) =~= before.push(bridge_line(interfaces@[k as int])));
                assert(interfaces@.take(k + 1).map_values(|i: NetworkInterface| bridge_line(i)) =~= interfaces@.take(
                    k as int,
                ).map_values(|i: NetworkInterface| bridge_line(i)).push(bridge_line(interfaces@[k as int])));
            }
            k = k + 1;
        }
        proof {
            assert(interfaces@.take(interfaces@.len() as int) =~= interfaces@);
        }
        join_strings(&ls, "\n")
    }
}

} // verus!
