//! User services as `systemctl --user` reports them: the units, whether
//! their unit files are enabled, and their descriptions. Running `systemctl`
//! is the caller's part; the manager reads its output and says what to run.
use vstd::prelude::*;

use crate::text::{
    bool_text, bool_word, chars_of, extend_str, has_prefix, has_suffix, join_strings, joined, lemma_split_on_nonempty,
    lines, lines_chars, owned, split_chars, split_on, split_whitespace_chars, starts_with, ends_with, string_of,
    string_views, str_eq, views, words,
};

verus! {

/// The service manager.
pub struct ServiceManager;

/// A user service.
#[derive(Debug, Clone)]
pub struct ServiceInfo {
    pub name: String,
    pub description: String,
    pub status: String,
    pub sub_status: String,
    pub enabled: bool,
}

/// A service as a value of the specification.
pub struct ServiceView {
    pub name: Seq<char>,
    pub description: Seq<char>,
    pub status: Seq<char>,
    pub sub_status: Seq<char>,
    pub enabled: bool,
}

impl View for ServiceInfo {
    type V = ServiceView;

    open spec fn view(&self) -> ServiceView {
        ServiceView {
            name: self.name@,
            description: self.description@,
            status: self.status@,
            sub_status: self.sub_status@,
            enabled: self.enabled,
        }
    }
}

/// The services as values of the specification.
pub open spec fn service_views(v: Seq<ServiceInfo>) -> Seq<ServiceView> {
    v.map_values(|s: ServiceInfo| s@)
}

/// A unit name without its `.service` suffix (`str::strip_suffix`).
pub open spec fn unit_base(u: Seq<char>) -> Seq<char> {
    if has_suffix(u, ".service"@) {
        u.subrange(0, u.len() - 8)
    } else {
        u
    }
}

/// The services of `systemctl --user list-units --type=service --all
/// --no-legend --no-pager --plain --no-recursive`: a line with at least four
/// fields is a unit, its first field the name, its third and fourth the
/// states; not enabled and without description yet.
pub open spec fn units(ls: Seq<Seq<char>>) -> Seq<ServiceView>
    decreases ls.len(),
{
    if ls.len() == 0 {
        Seq::empty()
    } else {
        let init = units(ls.drop_last());
        let w = words(ls.last());
        if w.len() < 4 {
            init
        } else {
            init.push(
                ServiceView {
                    name: unit_base(w[0]),
                    description: Seq::empty(),
                    status: w[2],
                    sub_status: w[3],
                    enabled: false,
                },
            )
        }
    }
}

/// `j` is the first service named `name`.
pub open spec fn first_named(svcs: Seq<ServiceView>, name: Seq<char>, j: int) -> bool {
    &&& 0 <= j < svcs.len()
    &&& svcs[j].name == name
    &&& forall|i: int| 0 <= i < j ==> (#[trigger] svcs[i]).name != name
}

/// The services after a unit file line: the first service of that name
/// takes its enablement.
pub open spec fn with_enablement(svcs: Seq<ServiceView>, name: Seq<char>, enabled: bool) -> Seq<ServiceView> {
    if exists|j: int| first_named(svcs, name, j) {
        let j = choose|j: int| first_named(svcs, name, j);
        svcs.update(j, ServiceView { enabled, ..svcs[j] })
    } else {
        svcs
    }
}

/// The services after the lines of `systemctl --user list-unit-files
/// --type=service --no-legend --no-pager --plain`: a line with at least two
/// fields says whether its unit is `enabled`.
pub open spec fn with_unit_files(svcs: Seq<ServiceView>, ls: Seq<Seq<char>>) -> Seq<ServiceView>
    decreases ls.len(),
{
    if ls.len() == 0 {
        svcs
    } else {
        let before = with_unit_files(svcs, ls.drop_last());
        let w = words(ls.last());
        if w.len() >= 2 {
            with_enablement(before, unit_base(w[0]), w[1] == "enabled"@)
        } else {
            before
        }
    }
}

/// The description in the output of `systemctl --user show <unit>
/// --property=Description`: the text after `Description=` on the last line
/// that starts with it.
pub open spec fn description_in(ls: Seq<Seq<char>>) -> Option<Seq<char>>
    decreases ls.len(),
{
    if ls.len() == 0 {
        None
    } else if has_prefix(ls.last(), "Description="@) {
        Some(ls.last().skip(12))
    } else {
        description_in(ls.drop_last())
    }
}

proof fn lemma_first_named_unique(svcs: Seq<ServiceView>, name: Seq<char>, j: int, k: int)
    requires
        first_named(svcs, name, j),
        first_named(svcs, name, k),
    ensures
        j == k,
{
    if j < k {
        assert(svcs[j].name != name);
    } else if k < j {
        assert(svcs[k].name != name);
    }
}

fn unit_base_of(u: &Vec<char>) -> (r: String)
    ensures
        r@ == unit_base(u@),
{
    let suffix = chars_of(".service");
    proof {
        reveal_strlit(".service");
    }
    if ends_with(u, &suffix) {
        let mut v: Vec<char> = Vec::new();
        let n = u.len() - 8;
        let mut i: usize = 0;
        while i < n
            invariant
                i <= n,
                n == u@.len() - 8,
                n <= u@.len(),
                v@ == u@.subrange(0, i as int),
            decreases n - i,
        {
            v.push(u[i]);
            proof {
                assert(v@ =~= u@.subrange(0, i + 1));
            }
            i = i + 1;
        }
        string_of(&v)
    } else {
        string_of(u)
    }
}

fn find_named(svcs: &Vec<ServiceInfo>, name: &str) -> (r: Option<usize>)
    ensures
        match r {
            Some(j) => first_named(service_views(svcs@), name@, j as int),
            None => !exists|j: int| first_named(service_views(svcs@), name@, j),
        },
{
    let ghost vs = service_views(svcs@);
    let mut i: usize = 0;
    while i < svcs.len()
        invariant
            i <= svcs@.len(),
            vs == service_views(svcs@),
            forall|k: int| 0 <= k < i ==> (#[trigger] vs[k]).name != name@,
        decreases svcs.len() - i,
    {
        if str_eq(svcs[i].name.as_str(), name) {
            proof {
                assert(vs[i as int].name == name@);
            }
            return Some(i);
        }
        i = i + 1;
    }
    proof {
        if exists|j: int| first_named(vs, name@, j) {
            let j = choose|j: int| first_named(vs, name@, j);
            assert(vs[j].name != name@);
        }
    }
    None
}

impl ServiceManager {
    /// The services that `list-units` lists.
    pub fn parse_units(output: &str) -> (r: Vec<ServiceInfo>)
        ensures
            service_views(r@) == units(lines(output@)),
    {
        let text = chars_of(output);
        let ls = lines_chars(&text);
        let mut r: Vec<ServiceInfo> = Vec::new();
        let mut i: usize = 0;
        while i < ls.len()
            invariant
                i <= ls@.len(),
                views(ls@) == lines(output@),
                service_views(r@) == units(views(ls@).take(i as int)),
            decreases ls.len() - i,
        {
            proof {
                assert(views(ls@).take(i + 1).drop_last() =~= views(ls@).take(i as int));
                assert(views(ls@).take(i + 1).last() == ls@[i as int]@);
            }
            let w = split_whitespace_chars(&ls[i]);
            if w.len() >= 4 {
                let ghost before = r@;
                let svc = ServiceInfo {
                    name: unit_base_of(&w[0]),
                    description: String::new(),
                    status: string_of(&w[2]),
                    sub_status: string_of(&w[3]),
                    enabled: false,
                };
                let ghost sv = svc@;
                r.push(svc);
                proof {
                    assert(service_views(r@) =~= service_views(before).push(sv));
                }
            }
            i = i + 1;
        }
        proof {
            assert(views(ls@).take(ls@.len() as int) =~= views(ls@));
        }
        r
    }

    /// Records, from `list-unit-files`, which services are enabled.
    pub fn apply_unit_files(services: &mut Vec<ServiceInfo>, output: &str)
        ensures
            service_views(final(services)@) == with_unit_files(service_views(old(services)@), lines(output@)),
    {
        let text = chars_of(output);
        let ls = lines_chars(&text);
        let mut i: usize = 0;
        while i < ls.len()
            invariant
                i <= ls@.len(),
                views(ls@) == lines(output@),
                service_views(services@) == with_unit_files(
                    service_views(old(services)@),
                    views(ls@).take(i as int),
                ),
            decreases ls.len() - i,
        {
            proof {
                assert(views(ls@).take(i + 1).drop_last() =~= views(ls@).take(i as int));
                assert(views(ls@).take(i + 1).last() == ls@[i as int]@);
            }
            let w = split_whitespace_chars(&ls[i]);
            if w.len() >= 2 {
                let unit = unit_base_of(&w[0]);
                let state = string_of(&w[1]);
                let enabled = str_eq(state.as_str(), "enabled");
                match find_named(services, unit.as_str()) {
                    Some(j) => {
                        let ghost before = service_views(services@);
                        let mut svc = services.remove(j);
                        svc.enabled = enabled;
                        let ghost nv = svc@;
                        services.insert(j, svc);
                        proof {
                            let k = choose|k: int| first_named(before, unit@, k);
                            lemma_first_named_unique(before, unit@, j as int, k);
                            assert(service_views(services@) =~= before.update(j as int, nv));
                        }
                    },
                    None => {},
                }
            }
            i = i + 1;
        }
        proof {
            assert(views(ls@).take(ls@.len() as int) =~= views(ls@));
        }
    }

    /// The description in the output of `systemctl --user show`, if it has
    /// one.
    pub fn parse_description(output: &str) -> (r: Option<String>)
        ensures
            match r {
                Some(d) => description_in(lines(output@)) == Some(d@),
                None => description_in(lines(output@)) is None,
            },
    {
        let text = chars_of(output);
        let ls = lines_chars(&text);
        let key = chars_of("Description=");
        proof {
            reveal_strlit("Description=");
        }
        let mut found: Option<String> = None;
        let mut i: usize = 0;
        while i < ls.len()
            invariant
                i <= ls@.len(),
                key@ == "Description="@,
                key@.len() == 12,
                match found {
                    Some(d) => description_in(views(ls@).take(i as int)) == Some(d@),
                    None => description_in(views(ls@).take(i as int)) is None,
                },
            decreases ls.len() - i,
        {
            proof {
                assert(views(ls@).take(i + 1).drop_last() =~= views(ls@).take(i as int));
                assert(views(ls@).take(i + 1).last() == ls@[i as int]@);
            }
            if starts_with(&ls[i], &key) {
                let line = &ls[i];
                let mut v: Vec<char> = Vec::new();
                let mut k: usize = 12;
                while k < line.len()
                    invariant
                        12 <= k <= line@.len(),
                        v@ == line@.subrange(12, k as int),
                    decreases line.len() - k,
                {
                    v.push(line[k]);
                    proof {
                        assert(v@ =~= line@.subrange(12, k + 1));
                    }
                    k = k + 1;
                }
                proof {
                    assert(v@ =~= line@.skip(12));
                }
                found = Some(string_of(&v));
            }
            i = i + 1;
        }
        proof {
            assert(views(ls@).take(ls@.len() as int) =~= views(ls@));
        }
        found
    }

    /// The arguments of `systemctl` that apply `action` (`start`, `stop`,
    /// `restart`, `enable`, `disable` or `status`) to a user service.
    pub fn command_args(action: &str, service: &str) -> (r: Vec<String>)
        ensures
            r@.len() == 3,
            r@[0]@ == "--user"@,
            r@[1]@ == action@,
            r@[2]@ == service@,
    {
        let mut r: Vec<String> = Vec::new();
        r.push(owned("--user"));
        r.push(owned(action));
        r.push(owned(service));
        r
    }
}

// ── Lists for the service screens ───────────────────────────────────────

/// A service as the QML service list shows it: `name|status|enabled|description`.
pub open spec fn bridge_line(s: ServiceInfo) -> Seq<char> {
    s.name@ + "|"@ + s.status@ + "|"@ + bool_text(s.enabled) + "|"@ + s.description@
}

/// A service as a row of the service window: `name|description|status|sub-state|enabled`.
pub open spec fn row_line(s: ServiceInfo) -> Seq<char> {
    s.name@ + "|"@ + s.description@ + "|"@ + s.status@ + "|"@ + s.sub_status@ + "|"@ + bool_text(s.enabled)
}

fn bridge_line_of(s: &ServiceInfo) -> (r: String)
    ensures
        r@ == bridge_line(*s),
{
    let mut out: Vec<char> = Vec::new();
    extend_str(&mut out, s.name.as_str());
    extend_str(&mut out, "|");
    extend_str(&mut out, s.status.as_str());
    extend_str(&mut out, "|");
    extend_str(&mut out, bool_word(s.enabled));
    extend_str(&mut out, "|");
    extend_str(&mut out, s.description.as_str());
    proof {
        assert(out@ =~= bridge_line(*s));
    }
    string_of(&out)
}

impl ServiceManager {
    /// The services as the QML service list reads them: one
    /// `name|status|enabled|description` line each.
    pub fn bridge_lines(services: &Vec<ServiceInfo>) -> (r: String)
        ensures
            r@ == joined(services@.map_values(|s: ServiceInfo| bridge_line(s)), "\n"@),
    {
        let mut ls: Vec<String> = Vec::new();
        let mut i: usize = 0;
        while i < services.len()
            invariant
                i <= services@.len(),
                string_views(ls@) == services@.take(i as int).map_values(|s: ServiceInfo| bridge_line(s)),
            decreases services.len() - i,
        {
            let ghost before = string_views(ls@);
            ls.push(bridge_line_of(&services[i]));
            proof {
                assert(string_views(ls@) =~= before.push(bridge_line(services@[i as int])));
                assert(services@.take(i + 1).map_values(|s: ServiceInfo| bridge_line(s)) =~= services@.take(
                    i as int,
                ).map_values(|s: ServiceInfo| bridge_line(s)).push(bridge_line(services@[i as int])));
            }
            i = i + 1;
        }
        proof {
            assert(services@.take(services@.len() as int) =~= services@);
        }
        join_strings(&ls, "\n")
    }

    /// A service as a row of the service window.
    pub fn row_text(s: &ServiceInfo) -> (r: String)
        ensures
            r@ == row_line(*s),
    {
        let mut out: Vec<char> = Vec::new();
        extend_str(&mut out, s.name.as_str());
        extend_str(&mut out, "|");
        extend_str(&mut out, s.description.as_str());
        extend_str(&mut out, "|");
        extend_str(&mut out, s.status.as_str());
        extend_str(&mut out, "|");
        extend_str(&mut out, s.sub_status.as_str());
        extend_str(&mut out, "|");
        extend_str(&mut out, bool_word(s.enabled));
        proof {
            assert(out@ =~= row_line(*s));
        }
        string_of(&out)
    }

    /// The service a selected row names: the row's text up to its first `|`.
    pub fn selected_service(row: &str) -> (r: String)
        ensures
            r@ == split_on(row@, '|')[0],
    {
        let parts = split_chars(&chars_of(row), '|');
        proof {
            lemma_split_on_nonempty(row@, '|');
            assert(parts@[0]@ == views(parts@)[0]);
        }
        string_of(&parts[0])
    }
}

} // verus!
