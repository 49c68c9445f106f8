//! Processes as the kernel's `/proc` files describe them: the fields of
//! `/proc/<pid>/stat` and `/proc/<pid>/status`, the user name from
//! `/etc/passwd`, the memory totals of `/proc/meminfo`, and the listing ordered
//! by memory. Reading the files is the caller's part; the collector reads
//! their text.
use vstd::prelude::*;

use crate::text::{
    chars_of, decimal, has_prefix, lemma_split_on_nonempty, lines, lines_chars, parse_int, parse_u32,
    parse_u64, split_chars, split_on, split_whitespace_chars, starts_with, string_of, str_eq, owned,
    u64_to_string, views, words,
};

verus! {

/// The process collector.
pub struct ProcessCollector;

/// What the files of one process say of it. The processor time is left in
/// clock ticks; turning it into a share of the uptime is the caller's part.
#[derive(Debug, Clone)]
pub struct ProcessSample {
    pub pid: u32,
    pub name: String,
    pub user: String,
    /// Ticks spent in user mode (`utime`).
    pub utime: u64,
    /// Ticks spent in kernel mode (`stime`).
    pub stime: u64,
    pub memory_kb: u64,
    pub status: String,
}

/// The memory totals of `/proc/meminfo`, in KiB.
#[derive(Debug, Clone, Copy, PartialEq, Eq, Structural)]
pub struct MemoryStats {
    pub total_memory_kb: u64,
    pub available_memory_kb: u64,
}

impl MemoryStats {
    /// The memory in use: the total less what is available, or zero.
    pub fn used_memory_kb(&self) -> (r: u64)
        ensures
            r == if self.total_memory_kb >= self.available_memory_kb {
                self.total_memory_kb - self.available_memory_kb
            } else {
                0
            },
    {
        self.total_memory_kb.saturating_sub(self.available_memory_kb)
    }
}

// ── The specification of the files ───────────────────────────────────────

/// The position of the last `c` in `s`, or -1.
pub open spec fn last_index_of(s: Seq<char>, c: char) -> int
    decreases s.len(),
{
    if s.len() == 0 {
        -1
    } else if s.last() == c {
        s.len() - 1
    } else {
        last_index_of(s.drop_last(), c)
    }
}

/// Whether `c` is an ASCII character (one byte in UTF-8).
pub open spec fn is_ascii(c: char) -> bool {
    (c as u32) < 128
}

/// The whitespace-separated fields of a stat line after the command name:
/// from the second character after its last ')'.
pub open spec fn stat_fields(stat: Seq<char>) -> Seq<Seq<char>> {
    words(stat.skip(last_index_of(stat, ')') + 2))
}

/// Whether the byte slicing of a stat line stays within the text and on
/// character boundaries: after the last ')' there is an ASCII character, and
/// when the line has its fields, the command name starts after an ASCII first
/// character and ends at or after position 1.
pub open spec fn stat_sliceable(stat: Seq<char>) -> bool {
    let k = last_index_of(stat, ')');
    k >= 0 ==> {
        &&& k + 1 < stat.len()
        &&& is_ascii(stat[k + 1])
        &&& stat_fields(stat).len() >= 20 ==> k >= 1 && is_ascii(stat[0])
    }
}

/// A field read as a `u64`, zero when it is not one.
pub open spec fn u64_or_zero(w: Seq<char>) -> u64 {
    match parse_int(w, false, 0, u64::MAX as int) {
        Some(v) => v as u64,
        None => 0,
    }
}

/// What a stat line says: the command name (between the first character and
/// the last ')'), the state (first field), and `utime` and `stime` (twelfth
/// and thirteenth fields); none without a ')' or with fewer than twenty
/// fields.
pub open spec fn stat_reading(stat: Seq<char>) -> Option<(Seq<char>, Seq<char>, u64, u64)> {
    let k = last_index_of(stat, ')');
    let f = stat_fields(stat);
    if k < 0 || f.len() < 20 {
        None
    } else {
        Some((stat.subrange(1, k), f[0], u64_or_zero(f[11]), u64_or_zero(f[12])))
    }
}

/// The first line that starts with `p`.
pub open spec fn first_with_prefix(ls: Seq<Seq<char>>, p: Seq<char>) -> Option<Seq<char>>
    decreases ls.len(),
{
    if ls.len() == 0 {
        None
    } else if has_prefix(ls[0], p) {
        Some(ls[0])
    } else {
        first_with_prefix(ls.drop_first(), p)
    }
}

/// The number after `key` in a status file: the second field of the first
/// line starting with `key`, read as an integer up to `hi`; zero otherwise.
pub open spec fn status_number(text: Seq<char>, key: Seq<char>, hi: int) -> int {
    status_number_of(lines(text), key, hi)
}

/// The user of the first passwd line whose third field reads as `uid`.
pub open spec fn passwd_user(ls: Seq<Seq<char>>, uid: u32) -> Option<Seq<char>>
    decreases ls.len(),
{
    if ls.len() == 0 {
        None
    } else {
        let f = split_on(ls[0], ':');
        if f.len() >= 3 && parse_int(f[2], false, 0, u32::MAX as int) == Some(uid as int) {
            Some(f[0])
        } else {
            passwd_user(ls.drop_first(), uid)
        }
    }
}

/// The name of user `uid` in a passwd file, else the number itself.
pub open spec fn user_name(passwd: Seq<char>, uid: u32) -> Seq<char> {
    match passwd_user(lines(passwd), uid) {
        Some(n) => n,
        None => decimal(uid as nat),
    }
}

/// The word for a process state letter; other states are shown as they are.
pub open spec fn status_label(state: Seq<char>) -> Seq<char> {
    if state == "R"@ {
        "Running"@
    } else if state == "S"@ {
        "Sleeping"@
    } else if state == "D"@ {
        "Disk Sleep"@
    } else if state == "Z"@ {
        "Zombie"@
    } else if state == "T"@ {
        "Stopped"@
    } else if state == "t"@ {
        "Tracing"@
    } else if state == "I"@ {
        "Idle"@
    } else {
        state
    }
}

/// The one-letter process states of the kernel that have a label of their
/// own.
pub open spec fn kernel_state(s: Seq<char>) -> bool {
    s == "R"@ || s == "S"@ || s == "D"@ || s == "Z"@ || s == "T"@ || s == "t"@ || s == "I"@
}

/// The labels of the kernel's process states: running (`R`), sleeping
/// (`S`), disk sleep (`D`), zombie (`Z`), stopped (`T`), tracing (`t`) and
/// idle (`I`); no two of these states share a label, and any other state is
/// shown as it stands.
pub proof fn law_status_labels(a: Seq<char>, b: Seq<char>)
    ensures
        status_label("R"@) == "Running"@,
        status_label("S"@) == "Sleeping"@,
        status_label("D"@) == "Disk Sleep"@,
        status_label("Z"@) == "Zombie"@,
        status_label("T"@) == "Stopped"@,
        status_label("t"@) == "Tracing"@,
        status_label("I"@) == "Idle"@,
        kernel_state(a) && kernel_state(b) && a != b ==> status_label(a) != status_label(b),
        !kernel_state(a) ==> status_label(a) == a,
{
    reveal_strlit("R");
    reveal_strlit("S");
    reveal_strlit("D");
    reveal_strlit("Z");
    reveal_strlit("T");
    reveal_strlit("t");
    reveal_strlit("I");
    reveal_strlit("Running");
    reveal_strlit("Sleeping");
    reveal_strlit("Disk Sleep");
    reveal_strlit("Zombie");
    reveal_strlit("Stopped");
    reveal_strlit("Tracing");
    reveal_strlit("Idle");
    let st = seq!["R"@, "S"@, "D"@, "Z"@, "T"@, "t"@, "I"@];
    assert forall|i: int, j: int| 0 <= i < j < 7 implies #[trigger] st[i] != #[trigger] st[j] by {
        assert(st[i][0] != st[j][0]);
    }
    let lb = seq!["Running"@, "Sleeping"@, "Disk Sleep"@, "Zombie"@, "Stopped"@, "Tracing"@, "Idle"@];
    assert forall|i: int, j: int| 0 <= i < j < 7 implies #[trigger] lb[i] != #[trigger] lb[j] by {
        assert(lb[i][0] != lb[j][0] || lb[i][1] != lb[j][1]);
    }
    assert forall|i: int| 0 <= i < 7 implies status_label(#[trigger] st[i]) == lb[i] by {
        assert(st[0] != st[1] && st[0] != st[2] && st[1] != st[2]);
        assert(st[i] != st[0] || i == 0);
    }
    if kernel_state(a) && kernel_state(b) && a != b {
        let i = choose|i: int| 0 <= i < 7 && st[i] == a;
        let j = choose|j: int| 0 <= j < 7 && st[j] == b;
        assert(status_label(st[i]) == lb[i]);
        assert(status_label(st[j]) == lb[j]);
        assert(i != j);
    }
}

/// The first word of `s` read as a `u64`, zero when there is none.
pub open spec fn first_word_u64(s: Seq<char>) -> u64 {
    let w = words(s);
    if w.len() > 0 {
        u64_or_zero(w[0])
    } else {
        0
    }
}

/// The value of the last meminfo line starting with `key`, zero without one.
pub open spec fn meminfo_value(ls: Seq<Seq<char>>, key: Seq<char>) -> u64
    decreases ls.len(),
{
    if ls.len() == 0 {
        0
    } else if has_prefix(ls.last(), key) {
        first_word_u64(ls.last().skip(key.len() as int))
    } else {
        meminfo_value(ls.drop_last(), key)
    }
}

/// The names of `/proc` that are process ids, in order.
pub open spec fn pids_of(names: Seq<Seq<char>>) -> Seq<u32>
    decreases names.len(),
{
    if names.len() == 0 {
        Seq::empty()
    } else {
        let init = pids_of(names.drop_last());
        match parse_int(names.last(), false, 0, u32::MAX as int) {
            Some(v) => init.push(v as u32),
            None => init,
        }
    }
}

/// Where a process using `m` KiB goes in a list ordered by memory, largest
/// first: after every process that uses at least as much.
pub open spec fn insertion_point(s: Seq<ProcessSample>, m: u64) -> int
    decreases s.len(),
{
    if s.len() == 0 {
        0
    } else if s[0].memory_kb >= m {
        1 + insertion_point(s.drop_first(), m)
    } else {
        0
    }
}

/// The processes ordered by memory, largest first, those with equal memory
/// in the order they came in (a stable sort).
pub open spec fn sorted_by_memory(v: Seq<ProcessSample>) -> Seq<ProcessSample>
    decreases v.len(),
{
    if v.len() == 0 {
        v
    } else {
        let s = sorted_by_memory(v.drop_last());
        s.insert(insertion_point(s, v.last().memory_kb), v.last())
    }
}

proof fn lemma_insertion_point(s: Seq<ProcessSample>, m: u64)
    ensures
        0 <= insertion_point(s, m) <= s.len(),
        forall|k: int| 0 <= k < insertion_point(s, m) ==> (#[trigger] s[k]).memory_kb >= m,
        insertion_point(s, m) < s.len() ==> s[insertion_point(s, m)].memory_kb < m,
    decreases s.len(),
{
    if s.len() > 0 && s[0].memory_kb >= m {
        lemma_insertion_point(s.drop_first(), m);
        assert forall|k: int| 0 <= k < insertion_point(s, m) implies (#[trigger] s[k]).memory_kb >= m by {
            if k > 0 {
                assert(s[k] == s.drop_first()[k - 1]);
            }
        }
    }
}

/// The listing by memory holds the processes it was given, each as often,
/// and no process comes before one that uses more memory.
pub proof fn law_sorted_by_memory(v: Seq<ProcessSample>)
    ensures
        sorted_by_memory(v).len() == v.len(),
        sorted_by_memory(v).to_multiset() == v.to_multiset(),
        forall|i: int, j: int|
            0 <= i < j < v.len() ==> (#[trigger] sorted_by_memory(v)[i]).memory_kb >= (
            #[trigger] sorted_by_memory(v)[j]).memory_kb,
    decreases v.len(),
{
    if v.len() > 0 {
        let t = v.drop_last();
        let x = v.last();
        law_sorted_by_memory(t);
        let s = sorted_by_memory(t);
        let p = insertion_point(s, x.memory_kb);
        lemma_insertion_point(s, x.memory_kb);
        let r = s.insert(p, x);
        assert(r == sorted_by_memory(v));
        vstd::seq_lib::to_multiset_insert(s, p, x);
        vstd::seq_lib::to_multiset_build(t, x);
        assert(t.push(x) =~= v);
        assert forall|i: int, j: int| 0 <= i < j < v.len() implies (#[trigger] r[i]).memory_kb >= (
            #[trigger] r[j]).memory_kb by {
            if j < p {
                assert(r[i] == s[i] && r[j] == s[j]);
            } else if j == p {
                assert(r[i] == s[i]);
            } else if i == p {
                assert(r[j] == s[j - 1]);
                if j - 1 > p {
                    assert(s[p].memory_kb >= s[j - 1].memory_kb);
                }
            } else if i < p {
                assert(r[i] == s[i] && r[j] == s[j - 1]);
            } else {
                assert(r[i] == s[i - 1] && r[j] == s[j - 1]);
            }
        }
    }
}

// ── Reading the files ────────────────────────────────────────────────────

fn last_paren(s: &Vec<char>) -> (r: Option<usize>)
    ensures
        match r {
            Some(k) => k == last_index_of(s@, ')') && k < s@.len(),
            None => last_index_of(s@, ')') == -1,
        },
{
    let mut i: usize = s.len();
    proof {
        assert(s@.take(i as int) =~= s@);
    }
    while i > 0
        invariant
            i <= s@.len(),
            last_index_of(s@, ')') == last_index_of(s@.take(i as int), ')'),
        decreases i,
    {
        proof {
            assert(s@.take(i as int).drop_last() =~= s@.take(i - 1));
        }
        if s[i - 1] == ')' {
            return Some(i - 1);
        }
        i = i - 1;
    }
    None
}

fn subrange_chars(s: &Vec<char>, from: usize, to: usize) -> (r: Vec<char>)
    requires
        from <= to <= s@.len(),
    ensures
        r@ == s@.subrange(from as int, to as int),
{
    let mut r: Vec<char> = Vec::new();
    let mut i: usize = from;
    while i < to
        invariant
            from <= i <= to <= s@.len(),
            r@ == s@.subrange(from as int, i as int),
        decreases to - i,
    {
        r.push(s[i]);
        proof {
            assert(r@ =~= s@.subrange(from as int, i + 1));
        }
        i = i + 1;
    }
    r
}

fn u64_or_zero_of(w: &Vec<char>) -> (r: u64)
    ensures
        r == u64_or_zero(w@),
{
    match parse_u64(w) {
        Some(v) => v,
        None => 0,
    }
}

fn status_word(state: &Vec<char>) -> (r: String)
    ensures
        r@ == status_label(state@),
{
    let s = string_of(state);
    if str_eq(s.as_str(), "R") {
        owned("Running")
    } else if str_eq(s.as_str(), "S") {
        owned("Sleeping")
    } else if str_eq(s.as_str(), "D") {
        owned("Disk Sleep")
    } else if str_eq(s.as_str(), "Z") {
        owned("Zombie")
    } else if str_eq(s.as_str(), "T") {
        owned("Stopped")
    } else if str_eq(s.as_str(), "t") {
        owned("Tracing")
    } else if str_eq(s.as_str(), "I") {
        owned("Idle")
    } else {
        s
    }
}

fn first_line_with_prefix(ls: &Vec<Vec<char>>, p: &Vec<char>) -> (r: Option<usize>)
    ensures
        match r {
            Some(i) => i < ls@.len() && first_with_prefix(views(ls@), p@) == Some(ls@[i as int]@),
            None => first_with_prefix(views(ls@), p@) is None,
        },
{
    let mut i: usize = 0;
    proof {
        assert(views(ls@).skip(0) =~= views(ls@));
    }
    while i < ls.len()
        invariant
            i <= ls@.len(),
            first_with_prefix(views(ls@), p@) == first_with_prefix(views(ls@).skip(i as int), p@),
        decreases ls.len() - i,
    {
        proof {
            assert(views(ls@).skip(i as int).drop_first() =~= views(ls@).skip(i + 1));
            assert(views(ls@).skip(i as int)[0] == ls@[i as int]@);
        }
        if starts_with(&ls[i], p) {
            return Some(i);
        }
        i = i + 1;
    }
    None
}

fn status_value(lines_of: &Vec<Vec<char>>, key: &str, hi: u64) -> (r: u64)
    requires
        hi <= u64::MAX,
    ensures
        r == status_number_of(views(lines_of@), key@, hi as int),
{
    let k = chars_of(key);
    match first_line_with_prefix(lines_of, &k) {
        Some(i) => {
            let w = split_whitespace_chars(&lines_of[i]);
            if w.len() >= 2 {
                match parse_int_of(&w[1], hi) {
                    Some(v) => v,
                    None => 0,
                }
            } else {
                0
            }
        },
        None => 0,
    }
}

/// `status_number` over the lines of a text.
pub open spec fn status_number_of(ls: Seq<Seq<char>>, key: Seq<char>, hi: int) -> int {
    match first_with_prefix(ls, key) {
        Some(l) => {
            let w = words(l);
            if w.len() >= 2 {
                match parse_int(w[1], false, 0, hi) {
                    Some(v) => v,
                    None => 0,
                }
            } else {
                0
            }
        },
        None => 0,
    }
}

fn parse_int_of(w: &Vec<char>, hi: u64) -> (r: Option<u64>)
    ensures
        match r {
            Some(v) => parse_int(w@, false, 0, hi as int) == Some(v as int),
            None => parse_int(w@, false, 0, hi as int) is None,
        },
{
    match crate::text::parse_int_chars(w, false, 0, hi as i128) {
        Some(v) => Some(v as u64),
        None => None,
    }
}

proof fn lemma_meminfo_keys_disjoint(l: Seq<char>)
    ensures
        !(has_prefix(l, "MemTotal:"@) && has_prefix(l, "MemAvailable:"@)),
{
    reveal_strlit("MemTotal:");
    reveal_strlit("MemAvailable:");
    if has_prefix(l, "MemTotal:"@) && has_prefix(l, "MemAvailable:"@) {
        assert(l.take(9)[3] == l[3]);
        assert(l.take(13)[3] == l[3]);
    }
}

impl ProcessCollector {
    /// The ids among the names of `/proc`'s entries, in order.
    pub fn pids(names: &Vec<String>) -> (r: Vec<u32>)
        ensures
            r@ == pids_of(names@.map_values(|n: String| n@)),
    {
        let ghost nv = names@.map_values(|n: String| n@);
        let mut r: Vec<u32> = Vec::new();
        let mut i: usize = 0;
        while i < names.len()
            invariant
                i <= names@.len(),
                nv == names@.map_values(|n: String| n@),
                r@ == pids_of(nv.take(i as int)),
            decreases names.len() - i,
        {
            proof {
                assert(nv.take(i + 1).drop_last() =~= nv.take(i as int));
                assert(nv.take(i + 1).last() == names@[i as int]@);
            }
            let c = chars_of(names[i].as_str());
            match parse_u32(&c) {
                Some(p) => r.push(p),
                None => {},
            }
            i = i + 1;
        }
        proof {
            assert(nv.take(names@.len() as int) =~= nv);
        }
        r
    }

    /// Whether the stat line can be cut as the collector cuts it (see
    /// `stat_sliceable`); a caller tests it before `read_process`.
    pub fn stat_is_sliceable(stat: &str) -> (r: bool)
        ensures
            r == stat_sliceable(stat@),
    {
        let s = chars_of(stat);
        let n = s.len();
        match last_paren(&s) {
            None => true,
            Some(k) => {
                if k + 1 >= n {
                    return false;
                }
                let after = s[k + 1];
                if (after as u32) >= 128 {
                    return false;
                }
                let rest = subrange_chars(&s, k + 2, n);
                proof {
                    assert(rest@ =~= s@.skip(k + 2));
                }
                let f = split_whitespace_chars(&rest);
                if f.len() >= 20 {
                    let first = s[0];
                    k >= 1 && (first as u32) < 128
                } else {
                    true
                }
            },
        }
    }

    /// The process `pid` as its stat line, its status file and the passwd
    /// file describe it; none when the stat line has no ')' or fewer than
    /// twenty fields after it. Memory is the `VmRSS:` value and the user the
    /// owner of the `Uid:` value (zero where a value is missing).
    pub fn read_process(pid: u32, stat: &str, status: &str, passwd: &str) -> (r: Option<ProcessSample>)
        requires
            stat_sliceable(stat@),
        ensures
            r is Some <==> stat_reading(stat@) is Some,
            r matches Some(p) ==> {
                let (comm, state, utime, stime) = stat_reading(stat@)->0;
                &&& p.pid == pid
                &&& p.name@ == comm
                &&& p.status@ == status_label(state)
                &&& p.utime == utime
                &&& p.stime == stime
                &&& p.memory_kb == status_number(status@, "VmRSS:"@, u64::MAX as int)
                &&& p.user@ == user_name(passwd@, status_number(status@, "Uid:"@, u32::MAX as int) as u32)
            },
    {
        let s = chars_of(stat);
        let k = match last_paren(&s) {
            Some(k) => k,
            None => return None,
        };
        let rest = subrange_chars(&s, k + 2, s.len());
        proof {
            assert(rest@ =~= s@.skip(k + 2));
        }
        let fields = split_whitespace_chars(&rest);
        if fields.len() < 20 {
            return None;
        }
        let status_text = status_word(&fields[0]);
        let utime = u64_or_zero_of(&fields[11]);
        let stime = u64_or_zero_of(&fields[12]);
        let st = chars_of(status);
        let status_lines = lines_chars(&st);
        let memory_kb = status_value(&status_lines, "VmRSS:", 0xffff_ffff_ffff_ffff);
        let uid_value = status_value(&status_lines, "Uid:", 0xffff_ffff);
        proof {
            if let Some(l) = first_with_prefix(views(status_lines@), "Uid:"@) {
                let w = words(l);
                if w.len() >= 2 {
                    if let Some(v) = parse_int(w[1], false, 0, u32::MAX as int) {
                        assert(v <= u32::MAX);
                    }
                }
            }
        }
        let user = Self::resolve_uid(uid_value as u32, passwd);
        let comm = subrange_chars(&s, 1, k);
        Some(ProcessSample {
            pid,
            name: string_of(&comm),
            user,
            utime,
            stime,
            memory_kb,
            status: status_text,
        })
    }

    /// The name of user `uid` in the passwd file, else the number itself.
    pub fn resolve_uid(uid: u32, passwd: &str) -> (r: String)
        ensures
            r@ == user_name(passwd@, uid),
    {
        let p = chars_of(passwd);
        let ls = lines_chars(&p);
        let mut i: usize = 0;
        proof {
            assert(views(ls@).skip(0) =~= views(ls@));
        }
        while i < ls.len()
            invariant
                i <= ls@.len(),
                views(ls@) == lines(passwd@),
                passwd_user(lines(passwd@), uid) == passwd_user(views(ls@).skip(i as int), uid),
            decreases ls.len() - i,
        {
            proof {
                assert(views(ls@).skip(i as int).drop_first() =~= views(ls@).skip(i + 1));
                assert(views(ls@).skip(i as int)[0] == ls@[i as int]@);
            }
            let fields = split_chars(&ls[i], ':');
            if fields.len() >= 3 {
                match parse_u32(&fields[2]) {
                    Some(fuid) => {
                        if fuid == uid {
                            return string_of(&fields[0]);
                        }
                    },
                    None => {},
                }
            }
            i = i + 1;
        }
        u64_to_string(uid as u64)
    }

    /// The memory totals of a meminfo file: the values of its last
    /// `MemTotal:` and `MemAvailable:` lines (zero where one is missing).
    pub fn memory_stats(meminfo: &str) -> (r: MemoryStats)
        ensures
            r.total_memory_kb == meminfo_value(lines(meminfo@), "MemTotal:"@),
            r.available_memory_kb == meminfo_value(lines(meminfo@), "MemAvailable:"@),
    {
        let m = chars_of(meminfo);
        let ls = lines_chars(&m);
        let total_key = chars_of("MemTotal:");
        let avail_key = chars_of("MemAvailable:");
        let mut total: u64 = 0;
        let mut available: u64 = 0;
        let mut i: usize = 0;
        while i < ls.len()
            invariant
                i <= ls@.len(),
                total_key@ == "MemTotal:"@,
                avail_key@ == "MemAvailable:"@,
                total == meminfo_value(views(ls@).take(i as int), "MemTotal:"@),
                available == meminfo_value(views(ls@).take(i as int), "MemAvailable:"@),
            decreases ls.len() - i,
        {
            proof {
                assert(views(ls@).take(i + 1).drop_last() =~= views(ls@).take(i as int));
                assert(views(ls@).take(i + 1).last() == ls@[i as int]@);
            }
            if starts_with(&ls[i], &total_key) {
                let rest = subrange_chars(&ls[i], total_key.len(), ls[i].len());
                total = Self::first_number(&rest);
                proof {
                    assert(rest@ =~= ls@[i as int]@.skip(total_key@.len() as int));
                }
            } else if starts_with(&ls[i], &avail_key) {
                let rest = subrange_chars(&ls[i], avail_key.len(), ls[i].len());
                available = Self::first_number(&rest);
                proof {
                    assert(rest@ =~= ls@[i as int]@.skip(avail_key@.len() as int));
                    assert(!has_prefix(ls@[i as int]@, "MemTotal:"@));
                }
            } else {
                proof {
                    assert(!has_prefix(ls@[i as int]@, "MemTotal:"@));
                    assert(!has_prefix(ls@[i as int]@, "MemAvailable:"@));
                }
            }
            proof {
                lemma_meminfo_keys_disjoint(ls@[i as int]@);
            }
            i = i + 1;
        }
        proof {
            assert(views(ls@).take(ls@.len() as int) =~= views(ls@));
        }
        MemoryStats { total_memory_kb: total, available_memory_kb: available }
    }

    fn first_number(s: &Vec<char>) -> (r: u64)
        ensures
            r == first_word_u64(s@),
    {
        let w = split_whitespace_chars(s);
        if w.len() > 0 {
            u64_or_zero_of(&w[0])
        } else {
            0
        }
    }

    /// The processes ordered by memory, largest first; processes with equal
    /// memory keep their order.
    pub fn sort_by_memory(v: Vec<ProcessSample>) -> (r: Vec<ProcessSample>)
        ensures
            r@ == sorted_by_memory(v@),
    {
        let mut r: Vec<ProcessSample> = Vec::new();
        let mut src = v;
        let ghost orig = src@;
        let n = src.len();
        let mut k: usize = 0;
        proof {
            assert(src@ =~= orig.skip(0));
            assert(orig.take(0) =~= Seq::<ProcessSample>::empty());
        }
        while k < n
            invariant
                k <= n,
                n == orig.len(),
                src@ == orig.skip(k as int),
                r@ == sorted_by_memory(orig.take(k as int)),
            decreases n - k,
        {
            proof {
                assert(src@.len() == n - k);
            }
            let x = src.remove(0);
            proof {
                assert(x == orig[k as int]);
                assert(src@ =~= orig.skip(k + 1));
                assert(orig.take(k + 1).drop_last() =~= orig.take(k as int));
                assert(orig.take(k + 1).last() == x);
            }
            let mut p: usize = 0;
            proof {
                assert(r@.skip(0) =~= r@);
            }
            while p < r.len() && r[p].memory_kb >= x.memory_kb
                invariant
                    p <= r@.len(),
                    insertion_point(r@, x.memory_kb) == p + insertion_point(r@.skip(p as int), x.memory_kb),
                decreases r.len() - p,
            {
                proof {
                    assert(r@.skip(p as int).drop_first() =~= r@.skip(p + 1));
                    assert(r@.skip(p as int)[0] == r@[p as int]);
                }
                p = p + 1;
            }
            proof {
                if p < r@.len() {
                    assert(r@.skip(p as int)[0] == r@[p as int]);
                }
            }
            r.insert(p, x);
            k = k + 1;
        }
        proof {
            assert(orig.take(n as int) =~= orig);
        }
        r
    }
}

impl ProcessCollector {
    /// The process a selected row of the process list names: the row's text
    /// up to its first `|`, read as a process id.
    pub fn selected_pid(row: &str) -> (r: Option<u32>)
        ensures
            match parse_int(split_on(row@, '|')[0], false, 0, u32::MAX as int) {
                Some(v) => r == Some(v as u32),
                None => r is None,
            },
    {
        let parts = split_chars(&chars_of(row), '|');
        proof {
            lemma_split_on_nonempty(row@, '|');
            assert(parts@[0]@ == views(parts@)[0]);
        }
        parse_u32(&parts[0])
    }
}

} // verus!
