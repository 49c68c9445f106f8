//! The registry of desktop objects: objects by key (the id an object was
//! registered with), their lookups and selections, and the copies saved and
//! restored. Reading and writing the file is the caller's part.
use vstd::prelude::*;

use crate::desktop_object::{meta_get, ObjectData, ObjectView};
use crate::position::DesktopZone;
use crate::text::{join_path, owned, path_join, str_eq};

verus! {

/// A saved state of the desktop.
#[derive(Debug, Clone)]
pub struct DesktopSnapshot {
    pub objects: Vec<ObjectData>,
    pub version: u32,
    pub timestamp: i64,
}

/// The objects of the desktop by key. No key occurs twice.
pub struct DesktopRegistry {
    entries: Vec<(String, ObjectData)>,
    persistence_path: String,
}

/// The entries as pairs of key and object view.
pub open spec fn entry_views(es: Seq<(String, ObjectData)>) -> Seq<(Seq<char>, ObjectView)> {
    es.map_values(|e: (String, ObjectData)| (e.0@, e.1@))
}

/// No key occurs twice.
pub open spec fn distinct_keys(es: Seq<(Seq<char>, ObjectView)>) -> bool {
    forall|i: int, j: int| 0 <= i < j < es.len() ==> (#[trigger] es[i]).0 != (#[trigger] es[j]).0
}

/// Some entry has the key.
pub open spec fn has_key(es: Seq<(Seq<char>, ObjectView)>, k: Seq<char>) -> bool {
    exists|i: int| 0 <= i < es.len() && (#[trigger] es[i]).0 == k
}

/// The object of the entry with key `k`.
pub open spec fn lookup(es: Seq<(Seq<char>, ObjectView)>, k: Seq<char>) -> Option<ObjectView> {
    if has_key(es, k) {
        Some(es[choose|i: int| 0 <= i < es.len() && (#[trigger] es[i]).0 == k].1)
    } else {
        None
    }
}

/// A selection of objects.
pub enum Criterion {
    /// Objects of the type.
    Type(Seq<char>),
    /// Objects of the name.
    Name(Seq<char>),
    /// Objects whose metadata gives the key that value.
    Metadata(Seq<char>, Seq<char>),
    /// Objects placed on the workspace.
    Workspace(u8),
    /// Objects in the container.
    Container(Seq<char>),
    /// Objects in the zone.
    Zone(DesktopZone),
}

/// Whether the object is selected.
pub open spec fn meets(o: ObjectView, c: Criterion) -> bool {
    match c {
        Criterion::Type(t) => o.object_type == t,
        Criterion::Name(n) => o.name == n,
        Criterion::Metadata(k, v) => meta_get(o.metadata, k) == Some(v),
        Criterion::Workspace(w) => o.position.workspace_id == Some(w),
        Criterion::Container(c) => o.position.container_id matches Some(x) && x@ == c,
        Criterion::Zone(z) => o.position.zone == z,
    }
}

/// The selected objects, in the registry's order.
pub open spec fn matching(es: Seq<(Seq<char>, ObjectView)>, c: Criterion) -> Seq<ObjectView>
    decreases es.len(),
{
    if es.len() == 0 {
        Seq::empty()
    } else {
        let init = matching(es.drop_last(), c);
        if meets(es.last().1, c) {
            init.push(es.last().1)
        } else {
            init
        }
    }
}

/// The views of a list of objects.
pub open spec fn object_views(v: Seq<ObjectData>) -> Seq<ObjectView> {
    v.map_values(|o: ObjectData| o@)
}

/// The views of a list of borrowed objects.
pub open spec fn ref_views(v: Seq<&ObjectData>) -> Seq<ObjectView> {
    v.map_values(|o: &ObjectData| o@)
}

/// The entries after `o` is put under key `k`: the entry of that key takes
/// it, or it is added at the end (`HashMap::insert`).
pub open spec fn put(es: Seq<(Seq<char>, ObjectView)>, k: Seq<char>, o: ObjectView) -> Seq<(Seq<char>, ObjectView)> {
    if has_key(es, k) {
        es.update(choose|i: int| 0 <= i < es.len() && (#[trigger] es[i]).0 == k, (k, o))
    } else {
        es.push((k, o))
    }
}

/// The entries after each object is put under its id, in order.
pub open spec fn put_all(es: Seq<(Seq<char>, ObjectView)>, objs: Seq<ObjectView>) -> Seq<(Seq<char>, ObjectView)>
    decreases objs.len(),
{
    if objs.len() == 0 {
        es
    } else {
        let before = put_all(es, objs.drop_last());
        put(before, objs.last().id, objs.last())
    }
}

proof fn lemma_index_of_key(es: Seq<(Seq<char>, ObjectView)>, k: Seq<char>, i: int)
    requires
        distinct_keys(es),
        0 <= i < es.len(),
        es[i].0 == k,
    ensures
        has_key(es, k),
        (choose|j: int| 0 <= j < es.len() && (#[trigger] es[j]).0 == k) == i,
        lookup(es, k) == Some(es[i].1),
{
    assert(has_key(es, k));
    let j = choose|j: int| 0 <= j < es.len() && (#[trigger] es[j]).0 == k;
    if j != i {
        if j < i {
            assert(es[j].0 != es[i].0);
        } else {
            assert(es[i].0 != es[j].0);
        }
    }
}

proof fn lemma_put_distinct(es: Seq<(Seq<char>, ObjectView)>, k: Seq<char>, o: ObjectView)
    requires
        distinct_keys(es),
    ensures
        distinct_keys(put(es, k, o)),
        has_key(put(es, k, o), k),
        lookup(put(es, k, o), k) == Some(o),
{
    let r = put(es, k, o);
    if has_key(es, k) {
        let i = choose|i: int| 0 <= i < es.len() && (#[trigger] es[i]).0 == k;
        assert forall|a: int, b: int| 0 <= a < b < r.len() implies (#[trigger] r[a]).0 != (#[trigger] r[b]).0 by {
            if a != i && b != i {
                assert(r[a] == es[a] && r[b] == es[b]);
            } else if a == i {
                assert(r[b] == es[b]);
                assert(es[i].0 != es[b].0);
            } else {
                assert(r[a] == es[a]);
                assert(es[a].0 != es[i].0);
            }
        }
        lemma_index_of_key(r, k, i);
    } else {
        assert forall|a: int, b: int| 0 <= a < b < r.len() implies (#[trigger] r[a]).0 != (#[trigger] r[b]).0 by {
            if b == es.len() {
                assert(r[a] == es[a]);
            } else {
                assert(r[a] == es[a] && r[b] == es[b]);
            }
        }
        lemma_index_of_key(r, k, es.len() as int);
    }
}

impl View for DesktopRegistry {
    type V = Seq<(Seq<char>, ObjectView)>;

    closed spec fn view(&self) -> Seq<(Seq<char>, ObjectView)> {
        entry_views(self.entries@)
    }
}

impl DesktopRegistry {
    #[verifier::type_invariant]
    closed spec fn keys_distinct(&self) -> bool {
        distinct_keys(entry_views(self.entries@))
    }

    /// Where the registry is saved.
    pub closed spec fn path(&self) -> Seq<char> {
        self.persistence_path@
    }

    /// An empty registry saved at `persistence_path`.
    pub fn new(persistence_path: String) -> (r: Self)
        ensures
            r@ == Seq::<(Seq<char>, ObjectView)>::empty(),
            r.path() == persistence_path@,
    {
        let r = DesktopRegistry { entries: Vec::new(), persistence_path };
        proof {
            assert(entry_views(r.entries@) =~= Seq::<(Seq<char>, ObjectView)>::empty());
        }
        r
    }

    /// Where a registry is saved by default, for the configuration directory
    /// `config`: `<config>/xarph/desktop/objects.json` (`~/.config` standing
    /// in for a missing directory).
    pub fn default_path_in(config: Option<String>) -> (r: String)
        ensures
            r@ == path_join(
                path_join(path_join(crate::config::config_base(config), "xarph"@), "desktop"@),
                "objects.json"@,
            ),
    {
        let base = match &config {
            Some(x) => x.clone(),
            None => owned("~/.config"),
        };
        let a = join_path(base.as_str(), "xarph");
        let b = join_path(a.as_str(), "desktop");
        join_path(b.as_str(), "objects.json")
    }

    /// An empty registry saved at `<config>/xarph/desktop/objects.json`
    /// under the user's configuration directory as the environment gives it.
    pub fn with_default_path() -> (r: Self)
        ensures
            r@ == Seq::<(Seq<char>, ObjectView)>::empty(),
            exists|d: Option<String>|
                r.path() == path_join(
                    path_join(path_join(crate::config::config_base(d), "xarph"@), "desktop"@),
                    "objects.json"@,
                ),
    {
        Self::new(Self::default_path_in(crate::locations::config_dir()))
    }

    /// Where the registry is saved.
    pub fn persistence_path(&self) -> (r: &str)
        ensures
            r@ == self.path(),
    {
        self.persistence_path.as_str()
    }

    fn index_of(&self, key: &str) -> (r: Option<usize>)
        ensures
            match r {
                Some(i) => i < self@.len() && self@[i as int].0 == key@,
                None => !has_key(self@, key@),
            },
    {
        let mut i: usize = 0;
        while i < self.entries.len()
            invariant
                i <= self.entries@.len(),
                forall|j: int| 0 <= j < i ==> (#[trigger] self@[j]).0 != key@,
            decreases self.entries.len() - i,
        {
            if str_eq(self.entries[i].0.as_str(), key) {
                proof {
                    assert(self@[i as int].0 == key@);
                }
                return Some(i);
            }
            i = i + 1;
        }
        proof {
            if has_key(self@, key@) {
                let j = choose|j: int| 0 <= j < self@.len() && (#[trigger] self@[j]).0 == key@;
                assert(self@[j].0 != key@);
            }
        }
        None
    }

    /// Adds an object under its id; refused (false, nothing changes) when
    /// that id is registered already.
    pub fn register(&mut self, obj: ObjectData) -> (r: bool)
        ensures
            r == !has_key(old(self)@, obj@.id),
            r ==> final(self)@ == old(self)@.push((obj@.id, obj@)),
            !r ==> final(self)@ == old(self)@,
            final(self).path() == old(self).path(),
            distinct_keys(final(self)@),
    {
        proof {
            use_type_invariant(&*self);
        }
        match self.index_of(obj.id()) {
            Some(_) => false,
            None => {
                let key = owned(obj.id());
                let ghost before = self@;
                let ghost ov = obj@;
                proof {
                    lemma_put_distinct(before, ov.id, ov);
                }
                let mut es: Vec<(String, ObjectData)> = Vec::new();
                std::mem::swap(&mut es, &mut self.entries);
                es.push((key, obj));
                proof {
                    assert(entry_views(es@) =~= before.push((ov.id, ov)));
                    assert(put(before, ov.id, ov) == before.push((ov.id, ov)));
                }
                self.entries = es;
                true
            },
        }
    }

    /// Removes and returns the object of key `id`, if there is one.
    pub fn unregister(&mut self, id: &str) -> (r: Option<ObjectData>)
        ensures
            match r {
                Some(o) => has_key(old(self)@, id@) && lookup(old(self)@, id@) == Some(o@)
                    && final(self)@ == old(self)@.remove(
                    choose|i: int| 0 <= i < old(self)@.len() && (#[trigger] old(self)@[i]).0 == id@,
                ),
                None => !has_key(old(self)@, id@) && final(self)@ == old(self)@,
            },
            !has_key(final(self)@, id@),
            final(self).path() == old(self).path(),
            distinct_keys(final(self)@),
    {
        proof {
            use_type_invariant(&*self);
        }
        match self.index_of(id) {
            Some(i) => {
                let ghost before = self@;
                proof {
                    lemma_index_of_key(before, id@, i as int);
                }
                let mut es: Vec<(String, ObjectData)> = Vec::new();
                std::mem::swap(&mut es, &mut self.entries);
                let (_, obj) = es.remove(i);
                let ghost after = entry_views(es@);
                proof {
                    assert(after =~= before.remove(i as int));
                    assert forall|a: int, b: int| 0 <= a < b < after.len() implies (#[trigger] after[a]).0 != (
                        #[trigger] after[b]).0 by {
                        let a2 = if a < i { a } else { a + 1 };
                        let b2 = if b < i { b } else { b + 1 };
                        assert(after[a] == before[a2] && after[b] == before[b2]);
                    }
                }
                self.entries = es;
                proof {
                    if has_key(self@, id@) {
                        let j = choose|j: int| 0 <= j < self@.len() && (#[trigger] self@[j]).0 == id@;
                        let j2 = if j < i { j } else { j + 1 };
                        assert(self@[j] == before[j2]);
                        if j2 < i {
                            assert(before[j2].0 != before[i as int].0);
                        } else {
                            assert(before[i as int].0 != before[j2].0);
                        }
                    }
                }
                Some(obj)
            },
            None => None,
        }
    }

    /// The object of key `id`.
    pub fn get(&self, id: &str) -> (r: Option<&ObjectData>)
        ensures
            match r {
                Some(o) => lookup(self@, id@) == Some(o@),
                None => lookup(self@, id@) is None,
            },
    {
        proof {
            use_type_invariant(self);
        }
        match self.index_of(id) {
            Some(i) => {
                proof {
                    lemma_index_of_key(self@, id@, i as int);
                }
                Some(&self.entries[i].1)
            },
            None => None,
        }
    }

    /// Whether an object has key `id`.
    pub fn contains(&self, id: &str) -> (r: bool)
        ensures
            r == has_key(self@, id@),
    {
        self.index_of(id).is_some()
    }

    /// The number of objects.
    pub fn len(&self) -> (r: usize)
        ensures
            r == self@.len(),
            distinct_keys(self@),
    {
        proof {
            use_type_invariant(self);
        }
        self.entries.len()
    }

    /// Whether there is no object.
    pub fn is_empty(&self) -> (r: bool)
        ensures
            r == (self@.len() == 0),
    {
        self.entries.len() == 0
    }

    /// All objects.
    pub fn all(&self) -> (r: Vec<&ObjectData>)
        ensures
            ref_views(r@) == self@.map_values(|e: (Seq<char>, ObjectView)| e.1),
    {
        let mut r: Vec<&ObjectData> = Vec::new();
        let mut i: usize = 0;
        while i < self.entries.len()
            invariant
                i <= self.entries@.len(),
                ref_views(r@) == self@.take(i as int).map_values(|e: (Seq<char>, ObjectView)| e.1),
            decreases self.entries.len() - i,
        {
            let ghost before = r@;
            r.push(&self.entries[i].1);
            proof {
                assert(ref_views(r@) =~= ref_views(before).push(self@[i as int].1));
                assert(self@.take(i + 1).map_values(|e: (Seq<char>, ObjectView)| e.1) =~= self@.take(
                    i as int,
                ).map_values(|e: (Seq<char>, ObjectView)| e.1).push(self@[i as int].1));
            }
            i = i + 1;
        }
        proof {
            assert(self@.take(self@.len() as int) =~= self@);
        }
        r
    }

    /// All keys.
    pub fn all_ids(&self) -> (r: Vec<&str>)
        ensures
            r@.map_values(|s: &str| s@) == self@.map_values(|e: (Seq<char>, ObjectView)| e.0),
    {
        let mut r: Vec<&str> = Vec::new();
        let mut i: usize = 0;
        while i < self.entries.len()
            invariant
                i <= self.entries@.len(),
                r@.map_values(|s: &str| s@) == self@.take(i as int).map_values(|e: (Seq<char>, ObjectView)| e.0),
            decreases self.entries.len() - i,
        {
            let ghost before = r@;
            r.push(self.entries[i].0.as_str());
            proof {
                assert(r@.map_values(|s: &str| s@) =~= before.map_values(|s: &str| s@).push(self@[i as int].0));
                assert(self@.take(i + 1).map_values(|e: (Seq<char>, ObjectView)| e.0) =~= self@.take(
                    i as int,
                ).map_values(|e: (Seq<char>, ObjectView)| e.0).push(self@[i as int].0));
            }
            i = i + 1;
        }
        proof {
            assert(self@.take(self@.len() as int) =~= self@);
        }
        r
    }

    fn select(&self, kind: u8, text: &str, value: &str, workspace: u8, zone: DesktopZone, c: Ghost<Criterion>) -> (r:
        Vec<&ObjectData>)
        requires
            kind == 0 ==> c@ == Criterion::Type(text@),
            kind == 1 ==> c@ == Criterion::Name(text@),
            kind == 2 ==> c@ == Criterion::Metadata(text@, value@),
            kind == 3 ==> c@ == Criterion::Workspace(workspace),
            kind == 4 ==> c@ == Criterion::Container(text@),
            kind >= 5 ==> c@ == Criterion::Zone(zone),
        ensures
            ref_views(r@) == matching(self@, c@),
    {
        let mut r: Vec<&ObjectData> = Vec::new();
        let mut i: usize = 0;
        while i < self.entries.len()
            invariant
                i <= self.entries@.len(),
                kind == 0 ==> c@ == Criterion::Type(text@),
                kind == 1 ==> c@ == Criterion::Name(text@),
                kind == 2 ==> c@ == Criterion::Metadata(text@, value@),
                kind == 3 ==> c@ == Criterion::Workspace(workspace),
                kind == 4 ==> c@ == Criterion::Container(text@),
                kind >= 5 ==> c@ == Criterion::Zone(zone),
                ref_views(r@) == matching(self@.take(i as int), c@),
            decreases self.entries.len() - i,
        {
            proof {
                assert(self@.take(i + 1).drop_last() =~= self@.take(i as int));
                assert(self@.take(i + 1).last() == self@[i as int]);
            }
            let o = &self.entries[i].1;
            let selected = if kind == 0 {
                str_eq(o.object_type(), text)
            } else if kind == 1 {
                str_eq(o.name(), text)
            } else if kind == 2 {
                match o.metadata_value(text) {
                    Some(v) => str_eq(v, value),
                    None => false,
                }
            } else if kind == 3 {
                o.position().workspace_id == Some(workspace)
            } else if kind == 4 {
                match &o.position().container_id {
                    Some(x) => str_eq(x.as_str(), text),
                    None => false,
                }
            } else {
                o.position().zone == zone
            };
            proof {
                assert(selected == meets(self@[i as int].1, c@));
            }
            if selected {
                let ghost before = r@;
                r.push(o);
                proof {
                    assert(ref_views(r@) =~= ref_views(before).push(self@[i as int].1));
                }
            }
            i = i + 1;
        }
        proof {
            assert(self@.take(self@.len() as int) =~= self@);
        }
        r
    }

    /// The objects of type `obj_type`.
    pub fn find_by_type(&self, obj_type: &str) -> (r: Vec<&ObjectData>)
        ensures
            ref_views(r@) == matching(self@, Criterion::Type(obj_type@)),
    {
        self.select(0, obj_type, "", 0, DesktopZone::Main, Ghost(Criterion::Type(obj_type@)))
    }

    /// The objects named `name`.
    pub fn find_by_name(&self, name: &str) -> (r: Vec<&ObjectData>)
        ensures
            ref_views(r@) == matching(self@, Criterion::Name(name@)),
    {
        self.select(1, name, "", 0, DesktopZone::Main, Ghost(Criterion::Name(name@)))
    }

    /// The objects whose metadata gives `key` the value `value`.
    pub fn find_by_metadata(&self, key: &str, value: &str) -> (r: Vec<&ObjectData>)
        ensures
            ref_views(r@) == matching(self@, Criterion::Metadata(key@, value@)),
    {
        self.select(2, key, value, 0, DesktopZone::Main, Ghost(Criterion::Metadata(key@, value@)))
    }

    /// The objects placed on workspace `workspace_id`.
    pub fn on_workspace(&self, workspace_id: u8) -> (r: Vec<&ObjectData>)
        ensures
            ref_views(r@) == matching(self@, Criterion::Workspace(workspace_id)),
    {
        self.select(3, "", "", workspace_id, DesktopZone::Main, Ghost(Criterion::Workspace(workspace_id)))
    }

    /// The objects in container `container_id`.
    pub fn in_container(&self, container_id: &str) -> (r: Vec<&ObjectData>)
        ensures
            ref_views(r@) == matching(self@, Criterion::Container(container_id@)),
    {
        self.select(4, container_id, "", 0, DesktopZone::Main, Ghost(Criterion::Container(container_id@)))
    }

    /// The objects in `zone`.
    pub fn in_zone(&self, zone: DesktopZone) -> (r: Vec<&ObjectData>)
        ensures
            ref_views(r@) == matching(self@, Criterion::Zone(zone)),
    {
        self.select(5, "", "", 0, zone, Ghost(Criterion::Zone(zone)))
    }

    /// Replaces the object of key `id` by `data` (the key stays); refused
    /// (false, nothing changes) without such an object.
    pub fn update(&mut self, id: &str, data: ObjectData) -> (r: bool)
        ensures
            r == has_key(old(self)@, id@),
            r ==> final(self)@ == put(old(self)@, id@, data@),
            !r ==> final(self)@ == old(self)@,
            final(self).path() == old(self).path(),
            distinct_keys(final(self)@),
    {
        proof {
            use_type_invariant(&*self);
        }
        match self.index_of(id) {
            Some(i) => {
                let ghost before = self@;
                let ghost dv = data@;
                proof {
                    lemma_index_of_key(before, id@, i as int);
                    lemma_put_distinct(before, id@, dv);
                }
                let key = owned(id);
                let mut es: Vec<(String, ObjectData)> = Vec::new();
                std::mem::swap(&mut es, &mut self.entries);
                es.remove(i);
                es.insert(i, (key, data));
                proof {
                    assert(entry_views(es@) =~= before.update(i as int, (id@, dv)));
                }
                self.entries = es;
                true
            },
            None => false,
        }
    }

    /// Removes every object.
    pub fn clear(&mut self)
        ensures
            final(self)@ == Seq::<(Seq<char>, ObjectView)>::empty(),
            final(self).path() == old(self).path(),
            distinct_keys(final(self)@),
    {
        self.entries = Vec::new();
        proof {
            assert(self@ =~= Seq::<(Seq<char>, ObjectView)>::empty());
        }
    }

    fn put_object(&mut self, obj: ObjectData)
        ensures
            final(self)@ == put(old(self)@, obj@.id, obj@),
            final(self).path() == old(self).path(),
            distinct_keys(final(self)@),
    {
        proof {
            use_type_invariant(&*self);
        }
        let ghost before = self@;
        let ghost ov = obj@;
        proof {
            lemma_put_distinct(before, ov.id, ov);
        }
        match self.index_of(obj.id()) {
            Some(i) => {
                proof {
                    lemma_index_of_key(before, ov.id, i as int);
                }
                let key = owned(obj.id());
                let mut es: Vec<(String, ObjectData)> = Vec::new();
                std::mem::swap(&mut es, &mut self.entries);
                es.remove(i);
                es.insert(i, (key, obj));
                proof {
                    assert(entry_views(es@) =~= before.update(i as int, (ov.id, ov)));
                }
                self.entries = es;
            },
            None => {
                let key = owned(obj.id());
                let mut es: Vec<(String, ObjectData)> = Vec::new();
                std::mem::swap(&mut es, &mut self.entries);
                es.push((key, obj));
                proof {
                    assert(entry_views(es@) =~= before.push((ov.id, ov)));
                }
                self.entries = es;
            },
        }
    }

    /// Copies of all objects.
    pub fn serialize(&self) -> (r: Vec<ObjectData>)
        ensures
            object_views(r@) == self@.map_values(|e: (Seq<char>, ObjectView)| e.1),
    {
        let mut r: Vec<ObjectData> = Vec::new();
        let mut i: usize = 0;
        while i < self.entries.len()
            invariant
                i <= self.entries@.len(),
                object_views(r@) == self@.take(i as int).map_values(|e: (Seq<char>, ObjectView)| e.1),
            decreases self.entries.len() - i,
        {
            let ghost before = r@;
            let copy = self.entries[i].1.duplicate();
            r.push(copy);
            proof {
                assert(object_views(r@) =~= object_views(before).push(self@[i as int].1));
                assert(self@.take(i + 1).map_values(|e: (Seq<char>, ObjectView)| e.1) =~= self@.take(
                    i as int,
                ).map_values(|e: (Seq<char>, ObjectView)| e.1).push(self@[i as int].1));
            }
            i = i + 1;
        }
        proof {
            assert(self@.take(self@.len() as int) =~= self@);
        }
        r
    }

    /// Replaces the objects by `data`, each under its id (a later object with
    /// the id of an earlier one takes its place).
    pub fn deserialize(&mut self, data: Vec<ObjectData>)
        ensures
            final(self)@ == put_all(Seq::<(Seq<char>, ObjectView)>::empty(), object_views(data@)),
            final(self).path() == old(self).path(),
            distinct_keys(final(self)@),
    {
        self.clear();
        let ghost all = object_views(data@);
        let mut src = data;
        let n = src.len();
        let mut k: usize = 0;
        proof {
            assert(object_views(src@) =~= all.skip(0));
            assert(all.take(0) =~= Seq::<ObjectView>::empty());
        }
        while k < n
            invariant
                k <= n,
                n == all.len(),
                object_views(src@) == all.skip(k as int),
                self@ == put_all(Seq::<(Seq<char>, ObjectView)>::empty(), all.take(k as int)),
                self.path() == old(self).path(),
                distinct_keys(self@),
            decreases n - k,
        {
            proof {
                assert(object_views(src@).len() == n - k);
            }
            let ghost old_src = src@;
            let obj = src.remove(0);
            proof {
                assert(src@ =~= old_src.drop_first());
                assert(object_views(src@) =~= object_views(old_src).drop_first());
                assert(obj@ == all[k as int]) by {
                    assert(all.skip(k as int)[0] == all[k as int]);
                }
                assert(object_views(src@) =~= all.skip(k + 1));
                assert(all.take(k + 1).drop_last() =~= all.take(k as int));
                assert(all.take(k + 1).last() == all[k as int]);
            }
            self.put_object(obj);
            k = k + 1;
        }
        proof {
            assert(all.take(n as int) =~= all);
        }
    }

    /// A saved state: copies of all objects, version 1, and the present time
    /// in seconds since the epoch (the clock's; nothing is stated of it).
    pub fn snapshot(&self) -> (r: DesktopSnapshot)
        ensures
            object_views(r.objects@) == self@.map_values(|e: (Seq<char>, ObjectView)| e.1),
            r.version == 1,
    {
        let objects = self.serialize();
        let secs = crate::clock::now_unix_secs();
        DesktopSnapshot { objects, version: 1, timestamp: secs as i64 }
    }

    /// Replaces the objects by copies of a saved state's, each under its id.
    pub fn restore(&mut self, snapshot: &DesktopSnapshot) -> (r: Result<(), String>)
        ensures
            r is Ok,
            final(self)@ == put_all(Seq::<(Seq<char>, ObjectView)>::empty(), object_views(snapshot.objects@)),
            final(self).path() == old(self).path(),
            distinct_keys(final(self)@),
    {
        let copies = copy_objects(&snapshot.objects);
        self.deserialize(copies);
        Ok(())
    }
}

fn copy_objects(v: &Vec<ObjectData>) -> (r: Vec<ObjectData>)
    ensures
        object_views(r@) == object_views(v@),
{
    let mut copies: Vec<ObjectData> = Vec::new();
    let mut i: usize = 0;
    while i < v.len()
        invariant
            i <= v@.len(),
            object_views(copies@) == object_views(v@).take(i as int),
        decreases v.len() - i,
    {
        let ghost before = copies@;
        copies.push(v[i].duplicate());
        proof {
            assert(object_views(copies@) =~= object_views(before).push(v@[i as int]@));
            assert(object_views(v@).take(i + 1) =~= object_views(v@).take(i as int).push(v@[i as int]@));
        }
        i = i + 1;
    }
    proof {
        assert(object_views(v@).take(v@.len() as int) =~= object_views(v@));
    }
    copies
}

/// An object registered under a fresh id is found under it, and one
/// unregistered is gone; registering an id twice keeps the first object.
pub proof fn law_register_then_get(before: Seq<(Seq<char>, ObjectView)>, o: ObjectView)
    requires
        distinct_keys(before),
        !has_key(before, o.id),
    ensures
        lookup(before.push((o.id, o)), o.id) == Some(o),
        distinct_keys(before.push((o.id, o))),
        before.push((o.id, o)).len() == before.len() + 1,
{
    lemma_put_distinct(before, o.id, o);
    assert(put(before, o.id, o) == before.push((o.id, o)));
}

/// Restoring what `serialize` returned gives back the same objects under
/// their ids, when the registry's keys are its objects' ids.
pub proof fn law_serialize_restore(es: Seq<(Seq<char>, ObjectView)>)
    requires
        distinct_keys(es),
        forall|i: int| 0 <= i < es.len() ==> (#[trigger] es[i]).0 == es[i].1.id,
    ensures
        put_all(Seq::<(Seq<char>, ObjectView)>::empty(), es.map_values(|e: (Seq<char>, ObjectView)| e.1)) == es,
    decreases es.len(),
{
    if es.len() > 0 {
        let init = es.drop_last();
        assert forall|a: int, b: int| 0 <= a < b < init.len() implies (#[trigger] init[a]).0 != (#[trigger] init[b]).0 by {
            assert(init[a] == es[a] && init[b] == es[b]);
        }
        assert forall|i: int| 0 <= i < init.len() implies (#[trigger] init[i]).0 == init[i].1.id by {
            assert(init[i] == es[i]);
        }
        law_serialize_restore(init);
        let vals = es.map_values(|e: (Seq<char>, ObjectView)| e.1);
        assert(vals.drop_last() =~= init.map_values(|e: (Seq<char>, ObjectView)| e.1));
        let last = es.last();
        assert(!has_key(init, last.0)) by {
            if has_key(init, last.0) {
                let j = choose|j: int| 0 <= j < init.len() && (#[trigger] init[j]).0 == last.0;
                assert(es[j].0 != es[es.len() - 1].0);
            }
        }
        assert(vals.last() == last.1);
        assert(init.push((last.1.id, last.1)) =~= es);
    }
}

} // verus!
