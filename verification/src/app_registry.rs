//! The registry of installed applications, built from desktop entries, with
//! search by text and by category.
use vstd::prelude::*;

use crate::desktop_object::{is_new_object, new_application, ObjectData};
use crate::position::desktop_position;

use crate::text::{
    chars_of, contains_chars, dedup_spec, dedup_strings, has_substring, lex_le, lex_less, lex_lt,
    lemma_lex_lt_irreflexive, lemma_lex_lt_transitive, lemma_lex_total, lemma_sorted_distinct_strict, sort_strings, sorted_views, str_eq,
    string_views,
};

verus! {

/// `str::to_lowercase`: the full Unicode lower-case mapping, character by
/// character (some characters map to several).
pub uninterp spec fn lowercase(s: Seq<char>) -> Seq<char>;

/// `str::to_lowercase`. The contract names the result; the mapping itself is
/// Unicode's and is not written out here.
#[verifier::external_body]
pub(crate) fn to_lowercase(s: &str) -> (r: String)
    ensures
        r@ == lowercase(s@),
{
    s.to_lowercase()
}

/// The ASCII lower-case form of a character (`char::to_ascii_lowercase`).
pub open spec fn ascii_lower(c: char) -> char {
    if 'A' <= c && c <= 'Z' {
        ((c as u32) + 32) as char
    } else {
        c
    }
}

/// Equal up to ASCII case (`str::eq_ignore_ascii_case`).
pub open spec fn eq_ignore_ascii_case(a: Seq<char>, b: Seq<char>) -> bool {
    a.len() == b.len() && forall|i: int| 0 <= i < a.len() ==> ascii_lower(#[trigger] a[i]) == ascii_lower(b[i])
}

fn ascii_lower_char(c: char) -> (r: char)
    ensures
        r == ascii_lower(c),
{
    if 'A' <= c && c <= 'Z' {
        let u: u8 = (c as u8) + 32;
        u as char
    } else {
        c
    }
}

/// `str::eq_ignore_ascii_case`.
pub fn str_eq_ignore_ascii_case(a: &str, b: &str) -> (r: bool)
    ensures
        r == eq_ignore_ascii_case(a@, b@),
{
    let x = chars_of(a);
    let y = chars_of(b);
    if x.len() != y.len() {
        return false;
    }
    let mut i: usize = 0;
    while i < x.len()
        invariant
            x.len() == y.len(),
            x@ == a@,
            y@ == b@,
            i <= x.len(),
            forall|j: int| 0 <= j < i ==> ascii_lower(#[trigger] x@[j]) == ascii_lower(y@[j]),
        decreases x.len() - i,
    {
        if ascii_lower_char(x[i]) != ascii_lower_char(y[i]) {
            proof {
                assert(!(ascii_lower(x@[i as int]) == ascii_lower(y@[i as int])));
            }
            return false;
        }
        i = i + 1;
    }
    true
}

/// An installed application.
#[derive(Debug, Clone)]
pub struct AppEntry {
    pub id: String,
    pub name: String,
    pub icon: Option<String>,
    pub command: Option<String>,
    pub desktop_file_path: String,
    pub categories: Vec<String>,
    pub comment: Option<String>,
    pub terminal: bool,
}

/// What the registry reads of one desktop entry: its id, its name and
/// comment in the user's languages, icon, command, categories, whether it
/// has a `TryExec` key and whether it asks not to be displayed.
#[derive(Debug, Clone)]
pub struct DesktopEntryInfo {
    pub id: String,
    pub name: Option<String>,
    pub icon: Option<String>,
    pub exec_line: Option<String>,
    pub categories: Option<Vec<String>>,
    pub comment: Option<String>,
    pub has_try_exec: bool,
    pub no_display: bool,
}

/// `app` is the application entry of desktop entry `e`: the name falls back
/// to the id, no categories when the entry lists none, a terminal application
/// when the entry has a `TryExec` key, the path of the desktop file empty.
pub open spec fn converts(e: DesktopEntryInfo, app: AppEntry) -> bool {
    &&& app.id == e.id
    &&& app.name == (match e.name {
        Some(n) => n,
        None => e.id,
    })
    &&& app.icon == e.icon
    &&& app.command == e.exec_line
    &&& app.desktop_file_path@ == Seq::<char>::empty()
    &&& app.categories@ == (match e.categories {
        Some(c) => c@,
        None => Seq::<String>::empty(),
    })
    &&& app.comment == e.comment
    &&& app.terminal == e.has_try_exec
}

impl AppEntry {
    /// The application entry of a desktop entry (see `entry_of`); the path
    /// of its desktop file is left empty.
    pub fn from_desktop_entry(entry: DesktopEntryInfo) -> (r: AppEntry)
        ensures
            converts(entry, r),
    {
        let DesktopEntryInfo { id, name, icon, exec_line, categories, comment, has_try_exec, no_display: _ } =
            entry;
        let name = match name {
            Some(n) => n,
            None => id.clone(),
        };
        let categories = match categories {
            Some(c) => c,
            None => Vec::new(),
        };
        AppEntry {
            id,
            name,
            icon,
            command: exec_line,
            desktop_file_path: String::new(),
            categories,
            comment,
            terminal: has_try_exec,
        }
    }

    /// A desktop object for the application at (x, y): a fresh id, its
    /// name, its desktop file.
    pub fn to_object_data(&self, x_bits: u64, y_bits: u64) -> (r: ObjectData)
        ensures
            is_new_object(
                r@,
                "application"@,
                self.name@,
                desktop_position(x_bits, y_bits),
                seq![self.desktop_file_path@],
                seq![],
            ),
    {
        new_application(self.name.as_str(), self.desktop_file_path.as_str(), x_bits, y_bits)
    }
}

/// Whether an application matches a search, `q` being the lower-cased query:
/// its name, one of its categories or its comment contains it, compared in
/// lower case.
pub open spec fn matches_query(app: AppEntry, q: Seq<char>) -> bool {
    ||| has_substring(lowercase(app.name@), q)
    ||| exists|i: int|
        0 <= i < app.categories@.len() && has_substring(lowercase(#[trigger] app.categories@[i]@), q)
    ||| (app.comment matches Some(c) && has_substring(lowercase(c@), q))
}

/// The test that `search(query)` keeps an application by.
pub open spec fn search_test(query: Seq<char>) -> spec_fn(AppEntry) -> bool {
    |a: AppEntry| matches_query(a, lowercase(query))
}

proof fn lemma_has_substring_self(s: Seq<char>)
    ensures
        has_substring(s, s),
{
    assert(s.subrange(0int, 0int + s.len()) =~= s);
    assert(has_substring(s, s));
}

/// Search compares in lower case: an application is found by `query` exactly
/// when it is installed and its name, one of its categories or its comment,
/// lower-cased, contains the lower-cased query.
pub proof fn law_search_up_to_case(apps: Seq<AppEntry>, query: Seq<char>, app: AppEntry)
    ensures
        apps.filter(search_test(query)).contains(app) <==> apps.contains(app) && (
        has_substring(lowercase(app.name@), lowercase(query)) || (exists|k: int|
            0 <= k < app.categories@.len() && has_substring(
                lowercase(#[trigger] app.categories@[k]@),
                lowercase(query),
            )) || (app.comment matches Some(c) && has_substring(lowercase(c@), lowercase(query)))),
{
    let p = search_test(query);
    if apps.filter(p).contains(app) {
        apps.lemma_filter_contains_rev(p, app);
        let i = choose|i: int| 0 <= i < apps.filter(p).len() && apps.filter(p)[i] == app;
        apps.lemma_filter_pred(p, i);
    }
    if apps.contains(app) && p(app) {
        let i = choose|i: int| 0 <= i < apps.len() && apps[i] == app;
        apps.lemma_filter_contains(p, i);
    }
}

/// An installed application whose name is the query, in whatever case, is
/// found.
pub proof fn law_search_finds_name_in_any_case(apps: Seq<AppEntry>, query: Seq<char>, app: AppEntry)
    requires
        apps.contains(app),
        lowercase(app.name@) == lowercase(query),
    ensures
        apps.filter(search_test(query)).contains(app),
{
    lemma_has_substring_self(lowercase(query));
    law_search_up_to_case(apps, query, app);
}

/// Whether an application lists `category`, up to ASCII case.
pub open spec fn in_category(app: AppEntry, category: Seq<char>) -> bool {
    exists|i: int|
        0 <= i < app.categories@.len() && eq_ignore_ascii_case(#[trigger] app.categories@[i]@, category)
}

/// Some string of `s` reads `c`.
pub open spec fn contains_view(s: Seq<String>, c: Seq<char>) -> bool {
    exists|i: int| 0 <= i < s.len() && (#[trigger] s[i])@ == c
}

/// Some application of `apps` lists the category `c`.
pub open spec fn lists_category(apps: Seq<AppEntry>, c: Seq<char>) -> bool {
    exists|a: int, k: int|
        0 <= a < apps.len() && 0 <= k < apps[a].categories@.len() && (
        #[trigger] apps[a].categories@[k])@ == c
}

/// The applications are ordered by name.
pub open spec fn sorted_by_name(s: Seq<AppEntry>) -> bool {
    forall|i: int, j: int| 0 <= i < j < s.len() ==> lex_le((#[trigger] s[i]).name@, (#[trigger] s[j]).name@)
}

/// The desktop entries that are displayed, in the order given.
pub open spec fn displayed(s: Seq<DesktopEntryInfo>) -> Seq<DesktopEntryInfo> {
    s.filter(|e: DesktopEntryInfo| !e.no_display)
}

/// The installed applications, ordered by name.
pub struct AppRegistry {
    apps: Vec<AppEntry>,
}

fn name_less(a: &AppEntry, b: &AppEntry) -> (r: bool)
    ensures
        r == lex_lt(a.name@, b.name@),
{
    lex_less(&chars_of(a.name.as_str()), &chars_of(b.name.as_str()))
}

/// `s` with `x` placed after every application whose name does not come
/// after `x`'s: before the first one whose name does.
pub open spec fn insert_by_name(s: Seq<AppEntry>, x: AppEntry) -> Seq<AppEntry>
    decreases s.len(),
{
    if s.len() == 0 {
        seq![x]
    } else if lex_lt(x.name@, s[0].name@) {
        seq![x] + s
    } else {
        seq![s[0]] + insert_by_name(s.drop_first(), x)
    }
}

/// The stable ordering of `s` by name: each application in turn goes after
/// those already placed whose names do not come after its own, so that
/// applications of the same name keep the order they had in `s`.
pub open spec fn stable_by_name(s: Seq<AppEntry>) -> Seq<AppEntry>
    decreases s.len(),
{
    if s.len() == 0 {
        Seq::empty()
    } else {
        insert_by_name(stable_by_name(s.drop_last()), s.last())
    }
}

proof fn lemma_insert_by_name_at(s: Seq<AppEntry>, x: AppEntry, p: int)
    requires
        0 <= p <= s.len(),
        forall|i: int| 0 <= i < p ==> !lex_lt(x.name@, (#[trigger] s[i]).name@),
        p < s.len() ==> lex_lt(x.name@, s[p].name@),
    ensures
        insert_by_name(s, x) == s.insert(p, x),
    decreases s.len(),
{
    if s.len() == 0 {
        assert(s.insert(p, x) =~= seq![x]);
    } else if p == 0 {
        assert(seq![x] + s =~= s.insert(0, x));
    } else {
        assert(!lex_lt(x.name@, s[0].name@));
        let t = s.drop_first();
        assert forall|i: int| 0 <= i < p - 1 implies !lex_lt(x.name@, (#[trigger] t[i]).name@) by {
            assert(t[i] == s[i + 1]);
        }
        lemma_insert_by_name_at(t, x, p - 1);
        assert(seq![s[0]] + t.insert(p - 1, x) =~= s.insert(p, x));
    }
}

/// The test that keeps the applications called `n`.
pub open spec fn named(n: Seq<char>) -> spec_fn(AppEntry) -> bool {
    |a: AppEntry| a.name@ == n
}

proof fn lemma_insert_by_name_sorted(s: Seq<AppEntry>, x: AppEntry)
    requires
        sorted_by_name(s),
    ensures
        sorted_by_name(insert_by_name(s, x)),
        insert_by_name(s, x).len() == s.len() + 1,
        forall|i: int|
            0 <= i < insert_by_name(s, x).len() ==> #[trigger] insert_by_name(s, x)[i] == x || s.contains(
                insert_by_name(s, x)[i],
            ),
    decreases s.len(),
{
    let r = insert_by_name(s, x);
    if s.len() == 0 {
    } else if lex_lt(x.name@, s[0].name@) {
        assert forall|i: int, j: int| 0 <= i < j < r.len() implies lex_le(
            (#[trigger] r[i]).name@,
            (#[trigger] r[j]).name@,
        ) by {
            if i == 0 {
                assert(r[j] == s[j - 1]);
                if j - 1 > 0 {
                    assert(lex_le(s[0].name@, s[j - 1].name@));
                    lemma_lex_total(s[0].name@, s[j - 1].name@);
                    if lex_lt(s[0].name@, s[j - 1].name@) {
                        lemma_lex_lt_transitive(x.name@, s[0].name@, s[j - 1].name@);
                    }
                }
                lemma_lex_lt_irreflexive(x.name@);
                if lex_lt(s[j - 1].name@, x.name@) {
                    lemma_lex_lt_transitive(x.name@, s[j - 1].name@, x.name@);
                }
            } else {
                assert(r[i] == s[i - 1] && r[j] == s[j - 1]);
            }
        }
        assert forall|i: int| 0 <= i < r.len() implies #[trigger] r[i] == x || s.contains(r[i]) by {
            if i > 0 {
                assert(r[i] == s[i - 1]);
            }
        }
    } else {
        let t = s.drop_first();
        assert(sorted_by_name(t)) by {
            assert forall|i: int, j: int| 0 <= i < j < t.len() implies lex_le(
                (#[trigger] t[i]).name@,
                (#[trigger] t[j]).name@,
            ) by {
                assert(t[i] == s[i + 1] && t[j] == s[j + 1]);
            }
        }
        lemma_insert_by_name_sorted(t, x);
        let u = insert_by_name(t, x);
        assert(r == seq![s[0]] + u);
        assert forall|i: int, j: int| 0 <= i < j < r.len() implies lex_le(
            (#[trigger] r[i]).name@,
            (#[trigger] r[j]).name@,
        ) by {
            if i == 0 {
                assert(r[j] == u[j - 1]);
                if u[j - 1] != x {
                    assert(t.contains(u[j - 1]));
                    let k = choose|k: int| 0 <= k < t.len() && t[k] == u[j - 1];
                    assert(s[k + 1] == t[k]);
                    assert(lex_le(s[0].name@, s[k + 1].name@));
                }
            } else {
                assert(r[i] == u[i - 1] && r[j] == u[j - 1]);
            }
        }
        assert forall|i: int| 0 <= i < r.len() implies #[trigger] r[i] == x || s.contains(r[i]) by {
            if i > 0 {
                assert(r[i] == u[i - 1]);
                if u[i - 1] != x {
                    assert(t.contains(u[i - 1]));
                    let k = choose|k: int| 0 <= k < t.len() && t[k] == u[i - 1];
                    assert(s[k + 1] == t[k]);
                }
            } else {
                assert(r[0] == s[0]);
            }
        }
    }
}

proof fn lemma_stable_by_name_sorted(s: Seq<AppEntry>)
    ensures
        sorted_by_name(stable_by_name(s)),
    decreases s.len(),
{
    if s.len() > 0 {
        lemma_stable_by_name_sorted(s.drop_last());
        lemma_insert_by_name_sorted(stable_by_name(s.drop_last()), s.last());
    }
}

proof fn lemma_insert_by_name_keeps_order(s: Seq<AppEntry>, x: AppEntry, n: Seq<char>)
    requires
        sorted_by_name(s),
    ensures
        insert_by_name(s, x).filter(named(n)) == if x.name@ == n {
            s.filter(named(n)).push(x)
        } else {
            s.filter(named(n))
        },
    decreases s.len(),
{
    let p = named(n);
    if s.len() == 0 {
        s.lemma_filter_push(x, p);
        assert(seq![x] =~= s.push(x));
    } else if lex_lt(x.name@, s[0].name@) {
        s.lemma_filter_prepend(x, p);
        if x.name@ == n {
            assert(s.all(|a: AppEntry| !p(a))) by {
                assert forall|i: int| 0 <= i < s.len() implies !p(#[trigger] s[i]) by {
                    if i > 0 {
                        assert(lex_le(s[0].name@, s[i].name@));
                        lemma_lex_total(s[0].name@, s[i].name@);
                        if lex_lt(s[0].name@, s[i].name@) {
                            lemma_lex_lt_transitive(x.name@, s[0].name@, s[i].name@);
                        }
                    }
                    lemma_lex_lt_irreflexive(x.name@);
                }
            }
            s.lemma_all_neg_filter_empty(p);
            assert(s.filter(p) =~= Seq::<AppEntry>::empty());
            assert(seq![x] + s.filter(p) =~= s.filter(p).push(x));
        } else {
            assert(Seq::<AppEntry>::empty() + s.filter(p) =~= s.filter(p));
        }
    } else {
        let t = s.drop_first();
        assert(sorted_by_name(t)) by {
            assert forall|i: int, j: int| 0 <= i < j < t.len() implies lex_le(
                (#[trigger] t[i]).name@,
                (#[trigger] t[j]).name@,
            ) by {
                assert(t[i] == s[i + 1] && t[j] == s[j + 1]);
            }
        }
        lemma_insert_by_name_keeps_order(t, x, n);
        let u = insert_by_name(t, x);
        assert(insert_by_name(s, x) == seq![s[0]] + u);
        u.lemma_filter_prepend(s[0], p);
        t.lemma_filter_prepend(s[0], p);
        assert(s =~= seq![s[0]] + t);
        let head = if p(s[0]) { seq![s[0]] } else { Seq::<AppEntry>::empty() };
        if x.name@ == n {
            assert(head + t.filter(p).push(x) =~= (head + t.filter(p)).push(x));
        }
    }
}

/// Ordering by name keeps the order of the applications of any one name:
/// those called `n` come out in the order they went in.
pub proof fn law_same_name_keeps_order(s: Seq<AppEntry>, n: Seq<char>)
    ensures
        stable_by_name(s).filter(named(n)) == s.filter(named(n)),
    decreases s.len(),
{
    if s.len() > 0 {
        let init = s.drop_last();
        law_same_name_keeps_order(init, n);
        lemma_stable_by_name_sorted(init);
        lemma_insert_by_name_keeps_order(stable_by_name(init), s.last(), n);
        assert(s =~= init.push(s.last()));
        init.lemma_filter_push(s.last(), named(n));
    }
}

/// The applications ordered by name; applications of the same name keep
/// their order (a stable sort, as `slice::sort_by`).
fn sort_by_name(v: Vec<AppEntry>) -> (r: Vec<AppEntry>)
    ensures
        r@ == stable_by_name(v@),
        sorted_by_name(r@),
        r@.to_multiset() == v@.to_multiset(),
        r@.len() == v@.len(),
{
    broadcast use vstd::seq_lib::group_to_multiset_ensures;
    let mut r: Vec<AppEntry> = Vec::new();
    let mut src = v;
    let ghost orig = src@;
    let mut k: usize = 0;
    let n = src.len();
    proof {
        assert(src@ =~= orig.skip(0));
    }
    while k < n
        invariant
            k <= n,
            n == orig.len(),
            src@ == orig.skip(k as int),
            sorted_by_name(r@),
            r@ == stable_by_name(orig.take(k as int)),
            r@.to_multiset() == orig.take(k as int).to_multiset(),
            r@.len() == k,
        decreases n - k,
    {
        proof {
            assert(src@.len() == n - k);
        }
        let x = src.remove(0);
        proof {
            assert(x == orig[k as int]);
            assert(src@ =~= orig.skip(k + 1));
        }
        let mut p: usize = 0;
        while p < r.len() && !name_less(&x, &r[p])
            invariant
                p <= r.len(),
                forall|i: int| 0 <= i < p ==> lex_le(#[trigger] r@[i].name@, x.name@),
                forall|i: int| 0 <= i < p ==> !lex_lt(x.name@, (#[trigger] r@[i]).name@),
            decreases r.len() - p,
        {
            p = p + 1;
        }
        let ghost old_r = r@;
        proof {
            if p < r.len() {
                assert(lex_lt(x.name@, r@[p as int].name@));
            }
        }
        r.insert(p, x);
        proof {
            lemma_insert_by_name_at(old_r, orig[k as int], p as int);
            assert(orig.take(k + 1).drop_last() =~= orig.take(k as int));
            assert(orig.take(k + 1).last() == orig[k as int]);
            assert(r@ == stable_by_name(orig.take(k + 1)));
            vstd::seq_lib::to_multiset_insert(old_r, p as int, orig[k as int]);
            vstd::seq_lib::to_multiset_build(orig.take(k as int), orig[k as int]);
            assert(orig.take(k + 1) =~= orig.take(k as int).push(orig[k as int]));
            assert forall|i: int, j: int|
                0 <= i < j < r@.len() implies lex_le(
                (#[trigger] r@[i]).name@,
                (#[trigger] r@[j]).name@,
            ) by {
                if j < p {
                    assert(r@[i] == old_r[i] && r@[j] == old_r[j]);
                } else if j == p {
                    assert(r@[i] == old_r[i]);
                } else if i == p {
                    assert(r@[j] == old_r[j - 1]);
                    if lex_lt(old_r[j - 1].name@, x.name@) {
                        lemma_lex_lt_transitive(old_r[j - 1].name@, x.name@, old_r[p as int].name@);
                        if p < j - 1 {
                            assert(lex_le(old_r[p as int].name@, old_r[j - 1].name@));
                        } else {
                            lemma_lex_lt_irreflexive(old_r[p as int].name@);
                        }
                    }
                } else if i < p {
                    assert(r@[i] == old_r[i] && r@[j] == old_r[j - 1]);
                } else {
                    assert(r@[i] == old_r[i - 1] && r@[j] == old_r[j - 1]);
                }
            }
        }
        k = k + 1;
    }
    proof {
        assert(orig.take(n as int) =~= orig);
    }
    r
}

impl AppRegistry {
    /// An empty registry.
    pub fn new() -> (r: AppRegistry)
        ensures
            r.apps()@.len() == 0,
    {
        AppRegistry { apps: Vec::new() }
    }

    /// The applications, ordered by name.
    pub closed spec fn apps(&self) -> Vec<AppEntry> {
        self.apps
    }

    /// Replaces the applications with those of `entries` that are displayed,
    /// ordered by name (entries of the same name keep their order).
    pub fn refresh_from(&mut self, entries: Vec<DesktopEntryInfo>)
        ensures
            sorted_by_name(final(self).apps()@),
            exists|list: Seq<AppEntry>|
                #![trigger list.to_multiset()]
                {
                    &&& list.len() == displayed(entries@).len()
                    &&& forall|i: int|
                        0 <= i < list.len() ==> converts(displayed(entries@)[i], #[trigger] list[i])
                    &&& final(self).apps()@ == stable_by_name(list)
                    &&& final(self).apps()@.to_multiset() == list.to_multiset()
                },
    {
        let mut list: Vec<AppEntry> = Vec::new();
        let mut i: usize = 0;
        let ghost es = entries@;
        let n = entries.len();
        let mut entries = entries;
        proof {
            assert(entries@ =~= es.skip(0));
        }
        while i < n
            invariant
                n == es.len(),
                i <= es.len(),
                entries@ == es.skip(i as int),
                list@.len() == displayed(es.take(i as int)).len(),
                forall|t: int|
                    0 <= t < list@.len() ==> converts(
                        displayed(es.take(i as int))[t],
                        #[trigger] list@[t],
                    ),
            decreases n - i,
        {
            proof {
                assert(entries@.len() == es.len() - i);
            }
            let e = entries.remove(0);
            proof {
                assert(e == es[i as int]);
                assert(entries@ =~= es.skip(i + 1));
                assert(es.take(i + 1).drop_last() =~= es.take(i as int));
                assert(es.take(i + 1).last() == e);
                reveal(Seq::filter);
            }
            if !e.no_display {
                let ghost before = list@;
                list.push(AppEntry::from_desktop_entry(e));
                proof {
                    assert forall|t: int|
                        0 <= t < list@.len() implies converts(
                        displayed(es.take(i + 1))[t],
                        #[trigger] list@[t],
                    ) by {
                        if t < before.len() {
                            assert(list@[t] == before[t]);
                        }
                    }
                }
            }
            i = i + 1;
        }
        proof {
            assert(es.take(es.len() as int) =~= es);
        }
        let ghost listv = list@;
        self.apps = sort_by_name(list);
        proof {
            assert(self.apps@ == stable_by_name(listv));
            assert(self.apps@.to_multiset() == listv.to_multiset());
            assert(listv.len() == displayed(es).len());
        }
    }

    /// The applications, ordered by name.
    pub fn all(&self) -> (r: &[AppEntry])
        ensures
            r@ == self.apps()@,
    {
        self.apps.as_slice()
    }

    /// The applications whose name, a category or the comment contains
    /// `query`, compared in lower case; in registry order.
    pub fn search(&self, query: &str) -> (r: Vec<&AppEntry>)
        ensures
            r@.len() <= self.apps()@.len(),
            forall|i: int| 0 <= i < r@.len() ==> matches_query(*#[trigger] r@[i], lowercase(query@)),
            r@ == self.apps()@.filter(|a: AppEntry| matches_query(a, lowercase(query@))).map_values(
                |a: AppEntry| &a,
            ),
            r@ == self.apps()@.filter(search_test(query@)).map_values(|a: AppEntry| &a),
    {
        let q = chars_of(to_lowercase(query).as_str());
        let ghost pred = |a: AppEntry| matches_query(a, lowercase(query@));
        let mut r: Vec<&AppEntry> = Vec::new();
        let mut i: usize = 0;
        while i < self.apps.len()
            invariant
                i <= self.apps@.len(),
                q@ == lowercase(query@),
                pred == (|a: AppEntry| matches_query(a, lowercase(query@))),
                r@ == self.apps@.take(i as int).filter(pred).map_values(|a: AppEntry| &a),
            decreases self.apps.len() - i,
        {
            let app = &self.apps[i];
            let hit = Self::app_matches(app, &q);
            proof {
                reveal(Seq::filter);
                assert(self.apps@.take(i + 1).drop_last() =~= self.apps@.take(i as int));
                assert(self.apps@.take(i + 1).last() == *app);
            }
            if hit {
                r.push(app);
                proof {
                    assert(r@ =~= self.apps@.take(i + 1).filter(pred).map_values(|a: AppEntry| &a));
                }
            } else {
                proof {
                    assert(r@ =~= self.apps@.take(i + 1).filter(pred).map_values(|a: AppEntry| &a));
                }
            }
            i = i + 1;
        }
        proof {
            assert(self.apps@.take(self.apps@.len() as int) =~= self.apps@);
            broadcast use vstd::seq_lib::group_filter_ensures;
            assert forall|k: int| 0 <= k < r@.len() implies matches_query(
                *#[trigger] r@[k],
                lowercase(query@),
            ) by {
                assert(pred(self.apps@.filter(pred)[k]));
            }
            assert(search_test(query@) == pred);
        }
        r
    }

    fn app_matches(app: &AppEntry, q: &Vec<char>) -> (r: bool)
        ensures
            r == matches_query(*app, q@),
    {
        if contains_chars(&chars_of(to_lowercase(app.name.as_str()).as_str()), q) {
            return true;
        }
        let mut j: usize = 0;
        while j < app.categories.len()
            invariant
                j <= app.categories@.len(),
                forall|t: int|
                    0 <= t < j ==> !has_substring(lowercase(#[trigger] app.categories@[t]@), q@),
            decreases app.categories.len() - j,
        {
            if contains_chars(&chars_of(to_lowercase(app.categories[j].as_str()).as_str()), q) {
                return true;
            }
            j = j + 1;
        }
        match &app.comment {
            Some(c) => contains_chars(&chars_of(to_lowercase(c.as_str()).as_str()), q),
            None => false,
        }
    }

    /// The applications that list `category`, up to ASCII case; in registry
    /// order.
    pub fn by_category(&self, category: &str) -> (r: Vec<&AppEntry>)
        ensures
            r@ == self.apps()@.filter(|a: AppEntry| in_category(a, category@)).map_values(
                |a: AppEntry| &a,
            ),
    {
        let ghost pred = |a: AppEntry| in_category(a, category@);
        let mut r: Vec<&AppEntry> = Vec::new();
        let mut i: usize = 0;
        while i < self.apps.len()
            invariant
                i <= self.apps@.len(),
                pred == (|a: AppEntry| in_category(a, category@)),
                r@ == self.apps@.take(i as int).filter(pred).map_values(|a: AppEntry| &a),
            decreases self.apps.len() - i,
        {
            let app = &self.apps[i];
            let mut hit = false;
            let mut j: usize = 0;
            while j < app.categories.len()
                invariant
                    j <= app.categories@.len(),
                    hit == exists|t: int|
                        0 <= t < j && eq_ignore_ascii_case(
                            #[trigger] app.categories@[t]@,
                            category@,
                        ),
                decreases app.categories.len() - j,
            {
                if str_eq_ignore_ascii_case(app.categories[j].as_str(), category) {
                    hit = true;
                }
                j = j + 1;
            }
            proof {
                reveal(Seq::filter);
                assert(self.apps@.take(i + 1).drop_last() =~= self.apps@.take(i as int));
                assert(self.apps@.take(i + 1).last() == *app);
            }
            if hit {
                r.push(app);
            }
            proof {
                assert(r@ =~= self.apps@.take(i + 1).filter(pred).map_values(|a: AppEntry| &a));
            }
            i = i + 1;
        }
        proof {
            assert(self.apps@.take(self.apps@.len() as int) =~= self.apps@);
        }
        r
    }

    /// The first application with desktop id `desktop_id`.
    pub fn find_by_desktop_id(&self, desktop_id: &str) -> (r: Option<&AppEntry>)
        ensures
            r matches Some(a) ==> exists|i: int|
                0 <= i < self.apps()@.len() && self.apps()@[i] == *a && a.id@ == desktop_id@ && (
                forall|j: int| 0 <= j < i ==> (#[trigger] self.apps()@[j]).id@ != desktop_id@),
            r is None ==> forall|j: int|
                0 <= j < self.apps()@.len() ==> (#[trigger] self.apps()@[j]).id@ != desktop_id@,
    {
        let mut i: usize = 0;
        while i < self.apps.len()
            invariant
                i <= self.apps@.len(),
                forall|j: int| 0 <= j < i ==> (#[trigger] self.apps@[j]).id@ != desktop_id@,
            decreases self.apps.len() - i,
        {
            if str_eq(self.apps[i].id.as_str(), desktop_id) {
                return Some(&self.apps[i]);
            }
            i = i + 1;
        }
        None
    }

    /// The first application called `name`.
    pub fn find_by_name(&self, name: &str) -> (r: Option<&AppEntry>)
        ensures
            r matches Some(a) ==> exists|i: int|
                0 <= i < self.apps()@.len() && self.apps()@[i] == *a && a.name@ == name@ && (
                forall|j: int| 0 <= j < i ==> (#[trigger] self.apps()@[j]).name@ != name@),
            r is None ==> forall|j: int|
                0 <= j < self.apps()@.len() ==> (#[trigger] self.apps()@[j]).name@ != name@,
    {
        let mut i: usize = 0;
        while i < self.apps.len()
            invariant
                i <= self.apps@.len(),
                forall|j: int| 0 <= j < i ==> (#[trigger] self.apps@[j]).name@ != name@,
            decreases self.apps.len() - i,
        {
            if str_eq(self.apps[i].name.as_str(), name) {
                return Some(&self.apps[i]);
            }
            i = i + 1;
        }
        None
    }

    /// All the categories the applications list, sorted, each once: each
    /// comes strictly before the next.
    pub fn categories(&self) -> (r: Vec<String>)
        ensures
            sorted_views(string_views(r@)),
            forall|i: int| 0 < i < r@.len() ==> r@[i - 1]@ != (#[trigger] r@[i])@,
            forall|i: int, j: int| 0 <= i < j < r@.len() ==> lex_lt((#[trigger] r@[i])@, (#[trigger] r@[j])@),
            forall|c: Seq<char>|
                #![trigger contains_view(r@, c)]
                #![trigger lists_category(self.apps()@, c)]
                contains_view(r@, c) <==> lists_category(self.apps()@, c),
    {
        let mut all: Vec<String> = Vec::new();
        let mut a: usize = 0;
        while a < self.apps.len()
            invariant
                a <= self.apps@.len(),
                forall|c: Seq<char>|
                    #![trigger contains_view(all@, c)]
                    contains_view(all@, c) <==> lists_category(self.apps@.take(a as int), c),
            decreases self.apps.len() - a,
        {
            let cats = &self.apps[a].categories;
            let ghost before = all@;
            let mut k: usize = 0;
            while k < cats.len()
                invariant
                    k <= cats@.len(),
                    a < self.apps@.len(),
                    *cats == self.apps@[a as int].categories,
                    all@ == before + cats@.take(k as int),
                decreases cats.len() - k,
            {
                all.push(cats[k].clone());
                proof {
                    assert(all@ =~= before + cats@.take(k + 1));
                }
                k = k + 1;
            }
            proof {
                assert(cats@.take(cats@.len() as int) =~= cats@);
                let prev = self.apps@.take(a as int);
                let next = self.apps@.take(a + 1);
                assert forall|c: Seq<char>|
                    #![trigger contains_view(all@, c)]
                    contains_view(all@, c) <==> lists_category(next, c) by {
                    if contains_view(all@, c) {
                        let i = choose|i: int| 0 <= i < all@.len() && (#[trigger] all@[i])@ == c;
                        if i < before.len() {
                            assert(before[i]@ == c);
                            assert(contains_view(before, c));
                            let (x, t) = choose|x: int, t: int|
                                0 <= x < prev.len() && 0 <= t < prev[x].categories@.len()
                                    && (#[trigger] prev[x].categories@[t])@ == c;
                            assert(next[x] == prev[x]);
                        } else {
                            let t = i - before.len();
                            assert(next[a as int].categories@[t]@ == c);
                        }
                    }
                    if lists_category(next, c) {
                        let (x, t) = choose|x: int, t: int|
                            0 <= x < next.len() && 0 <= t < next[x].categories@.len()
                                && (#[trigger] next[x].categories@[t])@ == c;
                        if x < a {
                            assert(prev[x] == next[x]);
                            assert(lists_category(prev, c));
                            assert(contains_view(before, c));
                            let i = choose|i: int| 0 <= i < before.len() && (#[trigger] before[i])@ == c;
                            assert(all@[i] == before[i]);
                        } else {
                            assert(all@[before.len() + t] == cats@[t]);
                        }
                    }
                }
            }
            a = a + 1;
        }
        proof {
            assert(self.apps@.take(self.apps@.len() as int) =~= self.apps@);
        }
        sorted_distinct(all)
    }

    /// The number of applications.
    pub fn len(&self) -> (r: usize)
        ensures
            r == self.apps()@.len(),
    {
        self.apps.len()
    }

    /// Whether there is no application.
    pub fn is_empty(&self) -> (r: bool)
        ensures
            r == (self.apps()@.len() == 0),
    {
        self.apps.len() == 0
    }
}

/// The strings of `v` in lexicographic order, each once.
pub(crate) fn sorted_distinct(v: Vec<String>) -> (r: Vec<String>)
    ensures
        sorted_views(string_views(r@)),
        forall|i: int| 0 < i < r@.len() ==> r@[i - 1]@ != (#[trigger] r@[i])@,
        forall|i: int, j: int| 0 <= i < j < r@.len() ==> lex_lt((#[trigger] r@[i])@, (#[trigger] r@[j])@),
        forall|c: Seq<char>|
            #![trigger contains_view(r@, c)]
            #![trigger contains_view(v@, c)]
            contains_view(r@, c) <==> contains_view(v@, c),
{
    let ghost all = v@;
    let sorted = sort_strings(v);
    proof {
        assert forall|c: Seq<char>|
            #![trigger contains_view(sorted@, c)]
            contains_view(sorted@, c) <==> contains_view(all, c) by {
            if contains_view(sorted@, c) {
                let i = choose|i: int| 0 <= i < sorted@.len() && (#[trigger] sorted@[i])@ == c;
                let s = sorted@[i];
                vstd::seq_lib::to_multiset_contains(sorted@, s);
                vstd::seq_lib::to_multiset_contains(all, s);
                let j = choose|j: int| 0 <= j < all.len() && all[j] == s;
                assert(all[j]@ == c);
            }
            if contains_view(all, c) {
                let i = choose|i: int| 0 <= i < all.len() && (#[trigger] all[i])@ == c;
                let s = all[i];
                vstd::seq_lib::to_multiset_contains(sorted@, s);
                vstd::seq_lib::to_multiset_contains(all, s);
                let j = choose|j: int| 0 <= j < sorted@.len() && sorted@[j] == s;
                assert(sorted@[j]@ == c);
            }
        }
    }
    let r = dedup_strings(sorted);
    proof {
        lemma_dedup_sorted(sorted@);
        let sv = string_views(r@);
        assert forall|i: int| 0 < i < sv.len() implies sv[i - 1] != #[trigger] sv[i] by {
            assert(r@[i - 1]@ != r@[i]@);
        }
        lemma_sorted_distinct_strict(sv);
        assert forall|i: int, j: int| 0 <= i < j < r@.len() implies lex_lt(
            (#[trigger] r@[i])@,
            (#[trigger] r@[j])@,
        ) by {
            assert(sv[i] == r@[i]@ && sv[j] == r@[j]@);
        }
    }
    r
}

/// Removing repeats from sorted strings keeps them sorted, removes every
/// repeat and keeps every string.
proof fn lemma_dedup_sorted(s: Seq<String>)
    requires
        sorted_views(string_views(s)),
    ensures
        sorted_views(string_views(dedup_spec(s))),
        forall|i: int|
            0 < i < dedup_spec(s).len() ==> dedup_spec(s)[i - 1]@ != (#[trigger] dedup_spec(s)[i])@,
        forall|c: Seq<char>|
            #![trigger contains_view(dedup_spec(s), c)]
            contains_view(dedup_spec(s), c) <==> contains_view(s, c),
        dedup_spec(s).len() > 0 ==> dedup_spec(s).last()@ == s.last()@,
        dedup_spec(s).len() == 0 <==> s.len() == 0,
    decreases s.len(),
{
    if s.len() > 0 {
        let t = s.drop_last();
        assert forall|i: int, j: int|
            0 <= i < j < string_views(t).len() implies lex_le(
            #[trigger] string_views(t)[i],
            #[trigger] string_views(t)[j],
        ) by {
            assert(string_views(t)[i] == string_views(s)[i]);
            assert(string_views(t)[j] == string_views(s)[j]);
        }
        lemma_dedup_sorted(t);
        let d = dedup_spec(t);
        let x = s.last();
        if s.len() >= 2 && s[s.len() - 2]@ == x@ {
            assert forall|c: Seq<char>|
                #![trigger contains_view(d, c)]
                contains_view(d, c) <==> contains_view(s, c) by {
                if contains_view(s, c) {
                    let i = choose|i: int| 0 <= i < s.len() && (#[trigger] s[i])@ == c;
                    if i == s.len() - 1 {
                        assert(t[s.len() - 2]@ == c);
                    } else {
                        assert(t[i]@ == c);
                    }
                    assert(contains_view(t, c));
                }
                if contains_view(d, c) {
                    assert(contains_view(t, c));
                    let i = choose|i: int| 0 <= i < t.len() && (#[trigger] t[i])@ == c;
                    assert(s[i]@ == c);
                }
            }
        } else {
            let e = d.push(x);
            assert forall|i: int, j: int|
                0 <= i < j < string_views(e).len() implies lex_le(
                #[trigger] string_views(e)[i],
                #[trigger] string_views(e)[j],
            ) by {
                if j < d.len() {
                    assert(string_views(e)[i] == string_views(d)[i]);
                    assert(string_views(e)[j] == string_views(d)[j]);
                } else {
                    assert(string_views(e)[j] == x@);
                    assert(string_views(e)[i] == d[i]@);
                    // d[i] is some string of t, which sorts no later than x
                    assert(contains_view(d, d[i]@));
                    assert(contains_view(t, d[i]@));
                    let k = choose|k: int| 0 <= k < t.len() && (#[trigger] t[k])@ == d[i]@;
                    assert(string_views(s)[k] == t[k]@);
                    assert(string_views(s)[s.len() - 1] == x@);
                }
            }
            assert forall|i: int| 0 < i < e.len() implies e[i - 1]@ != (#[trigger] e[i])@ by {
                if i == e.len() - 1 && d.len() > 0 {
                    assert(e[i - 1] == d.last());
                    assert(d.last()@ == t.last()@);
                    assert(t.last() == s[s.len() - 2]);
                }
            }
            assert forall|c: Seq<char>|
                #![trigger contains_view(e, c)]
                contains_view(e, c) <==> contains_view(s, c) by {
                if contains_view(s, c) {
                    let i = choose|i: int| 0 <= i < s.len() && (#[trigger] s[i])@ == c;
                    if i == s.len() - 1 {
                        assert(e[e.len() - 1]@ == c);
                    } else {
                        assert(t[i]@ == c);
                        assert(contains_view(t, c));
                        assert(contains_view(d, c));
                        let k = choose|k: int| 0 <= k < d.len() && (#[trigger] d[k])@ == c;
                        assert(e[k]@ == c);
                    }
                }
                if contains_view(e, c) {
                    let i = choose|i: int| 0 <= i < e.len() && (#[trigger] e[i])@ == c;
                    if i == e.len() - 1 {
                        assert(s[s.len() - 1]@ == c);
                    } else {
                        assert(d[i]@ == c);
                        assert(contains_view(d, c));
                        assert(contains_view(t, c));
                        let k = choose|k: int| 0 <= k < t.len() && (#[trigger] t[k])@ == c;
                        assert(s[k]@ == c);
                    }
                }
            }
        }
    }
}

} // verus!
