//! The objects on the desktop: files, folders, applications, projects,
//! shortcuts, widgets, workspaces, volumes, recent documents, the trash and
//! network places; their names, icons and metadata.
use vstd::prelude::*;

use crate::app_registry::{lowercase, to_lowercase};
use crate::ids::{is_v4_uuid_text, new_uuid};
use crate::position::{desktop_position, DesktopObjectPosition};
use crate::text::{
    chars_of, concat_str, decimal, has_prefix, owned, split_chars, split_on, starts_with, str_eq,
    string_of, u64_to_string,
};

verus! {

/// A desktop object. The metadata is a list of key and value pairs, each key
/// at most once when built through `set_metadata`.
#[derive(Debug, Clone)]
pub enum ObjectData {
    File { id: String, name: String, path: String, position: DesktopObjectPosition, metadata: Vec<(String, String)> },
    Folder { id: String, name: String, path: String, position: DesktopObjectPosition, metadata: Vec<(String, String)> },
    Application {
        id: String,
        name: String,
        desktop_file: String,
        position: DesktopObjectPosition,
        metadata: Vec<(String, String)>,
    },
    Project { id: String, name: String, path: String, position: DesktopObjectPosition, metadata: Vec<(String, String)> },
    Shortcut { id: String, name: String, target: String, position: DesktopObjectPosition, metadata: Vec<(String, String)> },
    Widget { id: String, name: String, wtype: String, position: DesktopObjectPosition, metadata: Vec<(String, String)> },
    WorkspaceObject {
        id: String,
        name: String,
        workspace_id: u8,
        position: DesktopObjectPosition,
        metadata: Vec<(String, String)>,
    },
    VolumeObject {
        id: String,
        name: String,
        mount_path: String,
        filesystem: String,
        position: DesktopObjectPosition,
        metadata: Vec<(String, String)>,
    },
    RecentObject {
        id: String,
        name: String,
        path: String,
        accessed_at: i64,
        position: DesktopObjectPosition,
        metadata: Vec<(String, String)>,
    },
    TrashObject {
        id: String,
        name: String,
        item_count: u32,
        position: DesktopObjectPosition,
        metadata: Vec<(String, String)>,
    },
    NetworkObject {
        id: String,
        name: String,
        uri: String,
        protocol: String,
        position: DesktopObjectPosition,
        metadata: Vec<(String, String)>,
    },
}

/// A desktop object as a value of the specification: its type name, the
/// fields all objects have, and the texts and numbers of its own kind
/// (path; desktop file; target; widget type; workspace; mount path and file
/// system; path and access time; item count; address and protocol).
pub struct ObjectView {
    pub object_type: Seq<char>,
    pub id: Seq<char>,
    pub name: Seq<char>,
    pub position: DesktopObjectPosition,
    pub metadata: Seq<(Seq<char>, Seq<char>)>,
    pub texts: Seq<Seq<char>>,
    pub numbers: Seq<int>,
}

/// Metadata as pairs of texts.
pub open spec fn meta_view(m: Seq<(String, String)>) -> Seq<(Seq<char>, Seq<char>)> {
    m.map_values(|p: (String, String)| (p.0@, p.1@))
}

/// The view of an object of the given type.
pub open spec fn object_view(
    object_type: Seq<char>,
    id: String,
    name: String,
    position: DesktopObjectPosition,
    metadata: Vec<(String, String)>,
    texts: Seq<Seq<char>>,
    numbers: Seq<int>,
) -> ObjectView {
    ObjectView { object_type, id: id@, name: name@, position, metadata: meta_view(metadata@), texts, numbers }
}

impl View for ObjectData {
    type V = ObjectView;

    open spec fn view(&self) -> ObjectView {
        match *self {
            ObjectData::File { id, name, path, position, metadata } => object_view(
                "file"@,
                id,
                name,
                position,
                metadata,
                seq![path@],
                seq![],
            ),
            ObjectData::Folder { id, name, path, position, metadata } => object_view(
                "folder"@,
                id,
                name,
                position,
                metadata,
                seq![path@],
                seq![],
            ),
            ObjectData::Application { id, name, desktop_file, position, metadata } => object_view(
                "application"@,
                id,
                name,
                position,
                metadata,
                seq![desktop_file@],
                seq![],
            ),
            ObjectData::Project { id, name, path, position, metadata } => object_view(
                "project"@,
                id,
                name,
                position,
                metadata,
                seq![path@],
                seq![],
            ),
            ObjectData::Shortcut { id, name, target, position, metadata } => object_view(
                "shortcut"@,
                id,
                name,
                position,
                metadata,
                seq![target@],
                seq![],
            ),
            ObjectData::Widget { id, name, wtype, position, metadata } => object_view(
                "widget"@,
                id,
                name,
                position,
                metadata,
                seq![wtype@],
                seq![],
            ),
            ObjectData::WorkspaceObject { id, name, workspace_id, position, metadata } => object_view(
                "workspace_object"@,
                id,
                name,
                position,
                metadata,
                seq![],
                seq![workspace_id as int],
            ),
            ObjectData::VolumeObject { id, name, mount_path, filesystem, position, metadata } => object_view(
                "volume"@,
                id,
                name,
                position,
                metadata,
                seq![mount_path@, filesystem@],
                seq![],
            ),
            ObjectData::RecentObject { id, name, path, accessed_at, position, metadata } => object_view(
                "recent"@,
                id,
                name,
                position,
                metadata,
                seq![path@],
                seq![accessed_at as int],
            ),
            ObjectData::TrashObject { id, name, item_count, position, metadata } => object_view(
                "trash"@,
                id,
                name,
                position,
                metadata,
                seq![],
                seq![item_count as int],
            ),
            ObjectData::NetworkObject { id, name, uri, protocol, position, metadata } => object_view(
                "network"@,
                id,
                name,
                position,
                metadata,
                seq![uri@, protocol@],
                seq![],
            ),
        }
    }
}

// ── Icons and names ──────────────────────────────────────────────────────

/// The icon of a file by its lower-case extension.
pub open spec fn file_icon(ext: Seq<char>) -> Seq<char> {
    if ext == "png"@ || ext == "jpg"@ || ext == "jpeg"@ || ext == "webp"@ || ext == "avif"@ || ext == "gif"@ {
        "image-x-generic-symbolic"@
    } else if ext == "mp4"@ || ext == "webm"@ || ext == "mkv"@ || ext == "mov"@ {
        "video-x-generic-symbolic"@
    } else if ext == "mp3"@ || ext == "flac"@ || ext == "ogg"@ || ext == "wav"@ {
        "audio-x-generic-symbolic"@
    } else if ext == "pdf"@ {
        "application-pdf-symbolic"@
    } else if ext == "zip"@ || ext == "tar"@ || ext == "gz"@ || ext == "xz"@ || ext == "7z"@ {
        "application-x-archive-symbolic"@
    } else if ext == "rs"@ || ext == "py"@ || ext == "js"@ || ext == "ts"@ || ext == "go"@ || ext == "c"@
        || ext == "cpp"@ {
        "text-x-script-symbolic"@
    } else {
        "text-x-generic-symbolic"@
    }
}

/// The extension of a name: what follows its last '.', the whole name
/// without one (`str::rsplit('.').next()`).
pub open spec fn extension_of(name: Seq<char>) -> Seq<char> {
    split_on(name, '.').last()
}

/// The icon of a widget by its type.
pub open spec fn widget_icon(wtype: Seq<char>) -> Seq<char> {
    if wtype == "MiniClock"@ {
        "alarm-symbolic"@
    } else if wtype == "Calendar"@ {
        "calendar-symbolic"@
    } else if wtype == "SystemMonitor"@ {
        "utilities-system-monitor-symbolic"@
    } else {
        "x-office-spreadsheet-symbolic"@
    }
}

/// The icon of a volume by its file system.
pub open spec fn volume_icon(filesystem: Seq<char>) -> Seq<char> {
    if has_prefix(filesystem, "fuse"@) || filesystem == "tmpfs"@ {
        "drive-removable-media-symbolic"@
    } else {
        "drive-harddisk-symbolic"@
    }
}

/// The icon of a network place by its protocol.
pub open spec fn network_icon(protocol: Seq<char>) -> Seq<char> {
    if protocol == "smb"@ || protocol == "sftp"@ || protocol == "ssh"@ {
        "network-server-symbolic"@
    } else {
        "network-workgroup-symbolic"@
    }
}

/// The icon of an object.
pub open spec fn icon_of(o: ObjectData) -> Seq<char> {
    match o {
        ObjectData::File { name, .. } => file_icon(lowercase(extension_of(name@))),
        ObjectData::Folder { .. } => "folder-symbolic"@,
        ObjectData::Application { .. } => "application-x-executable-symbolic"@,
        ObjectData::Project { .. } => "folder-git-symbolic"@,
        ObjectData::Shortcut { .. } => "emblem-symbolic-link-symbolic"@,
        ObjectData::Widget { wtype, .. } => widget_icon(wtype@),
        ObjectData::WorkspaceObject { .. } => "view-paged-symbolic"@,
        ObjectData::VolumeObject { filesystem, .. } => volume_icon(filesystem@),
        ObjectData::RecentObject { .. } => "document-open-recent-symbolic"@,
        ObjectData::TrashObject { .. } => "user-trash-symbolic"@,
        ObjectData::NetworkObject { protocol, .. } => network_icon(protocol@),
    }
}

/// The name shown for an object: a volume with its mount path in
/// parentheses, a non-empty trash with its item count in parentheses, a
/// network place with its protocol in brackets, anything else by its name.
pub open spec fn display_of(o: ObjectData) -> Seq<char> {
    match o {
        ObjectData::VolumeObject { name, mount_path, .. } => name@ + " ("@ + mount_path@ + ")"@,
        ObjectData::TrashObject { name, item_count, .. } => if item_count == 0 {
            name@
        } else {
            name@ + " ("@ + decimal(item_count as nat) + ")"@
        },
        ObjectData::NetworkObject { name, protocol, .. } => name@ + " ["@ + protocol@ + "]"@,
        _ => o@.name,
    }
}

// ── Metadata ─────────────────────────────────────────────────────────────

/// The value of the first entry with key `k`.
pub open spec fn meta_get(m: Seq<(Seq<char>, Seq<char>)>, k: Seq<char>) -> Option<Seq<char>>
    decreases m.len(),
{
    if m.len() == 0 {
        None
    } else if m[0].0 == k {
        Some(m[0].1)
    } else {
        meta_get(m.drop_first(), k)
    }
}

/// The position of the first entry with key `k`, or the length.
pub open spec fn meta_index(m: Seq<(Seq<char>, Seq<char>)>, k: Seq<char>) -> int
    decreases m.len(),
{
    if m.len() == 0 {
        0
    } else if m[0].0 == k {
        0
    } else {
        1 + meta_index(m.drop_first(), k)
    }
}

/// The metadata with `k` set to `v` (`HashMap::insert`): the first entry
/// with that key takes the value; without one the pair is added.
pub open spec fn meta_set(m: Seq<(Seq<char>, Seq<char>)>, k: Seq<char>, v: Seq<char>) -> Seq<(Seq<char>, Seq<char>)> {
    let i = meta_index(m, k);
    if i < m.len() {
        m.update(i, (k, v))
    } else {
        m.push((k, v))
    }
}

proof fn lemma_meta_index(m: Seq<(Seq<char>, Seq<char>)>, k: Seq<char>)
    ensures
        0 <= meta_index(m, k) <= m.len(),
        meta_index(m, k) < m.len() ==> m[meta_index(m, k)].0 == k && meta_get(m, k) == Some(
            m[meta_index(m, k)].1,
        ),
        meta_index(m, k) == m.len() ==> meta_get(m, k) is None,
        forall|j: int| 0 <= j < meta_index(m, k) ==> (#[trigger] m[j]).0 != k,
    decreases m.len(),
{
    if m.len() > 0 && m[0].0 != k {
        lemma_meta_index(m.drop_first(), k);
        assert forall|j: int| 0 <= j < meta_index(m, k) implies (#[trigger] m[j]).0 != k by {
            if j > 0 {
                assert(m[j] == m.drop_first()[j - 1]);
            }
        }
    }
}

/// The value read back after setting it is the value set; the other keys
/// keep theirs.
pub proof fn law_metadata_read_after_write(m: Seq<(Seq<char>, Seq<char>)>, k: Seq<char>, v: Seq<char>, other: Seq<char>)
    requires
        other != k,
    ensures
        meta_get(meta_set(m, k, v), k) == Some(v),
        meta_get(meta_set(m, k, v), other) == meta_get(m, other),
    decreases m.len(),
{
    lemma_meta_index(m, k);
    let r = meta_set(m, k, v);
    if m.len() > 0 {
        if m[0].0 == k {
            assert(r.drop_first() =~= m.drop_first());
            assert(r[0] == (k, v));
        } else {
            law_metadata_read_after_write(m.drop_first(), k, v, other);
            lemma_meta_index(m.drop_first(), k);
            assert(r.drop_first() =~= meta_set(m.drop_first(), k, v));
            assert(r[0] == m[0]);
        }
    } else {
        assert(r =~= seq![(k, v)]);
        assert(r.drop_first() =~= Seq::<(Seq<char>, Seq<char>)>::empty());
        assert(meta_get(r.drop_first(), other) is None);
    }
}

fn meta_find(m: &Vec<(String, String)>, key: &str) -> (r: Option<usize>)
    ensures
        match r {
            Some(i) => i < m@.len() && i == meta_index(meta_view(m@), key@),
            None => meta_index(meta_view(m@), key@) == m@.len(),
        },
{
    let ghost mv = meta_view(m@);
    proof {
        lemma_meta_index(mv, key@);
    }
    let mut i: usize = 0;
    while i < m.len()
        invariant
            i <= m@.len(),
            mv == meta_view(m@),
            0 <= meta_index(mv, key@) <= mv.len(),
            forall|j: int| 0 <= j < meta_index(mv, key@) ==> (#[trigger] mv[j]).0 != key@,
            meta_index(mv, key@) < mv.len() ==> mv[meta_index(mv, key@)].0 == key@,
            forall|j: int| 0 <= j < i ==> (#[trigger] mv[j]).0 != key@,
        decreases m.len() - i,
    {
        if str_eq(m[i].0.as_str(), key) {
            proof {
                assert(mv[i as int].0 == key@);
                if meta_index(mv, key@) > i {
                    assert(mv[i as int].0 != key@);
                }
            }
            return Some(i);
        }
        i = i + 1;
    }
    None
}

fn file_icon_of(ext: &str) -> (r: String)
    ensures
        r@ == file_icon(ext@),
{
    if str_eq(ext, "png") || str_eq(ext, "jpg") || str_eq(ext, "jpeg") || str_eq(ext, "webp") || str_eq(ext, "avif") || str_eq(ext, "gif") {
        owned("image-x-generic-symbolic")
    } else if str_eq(ext, "mp4") || str_eq(ext, "webm") || str_eq(ext, "mkv") || str_eq(ext, "mov") {
        owned("video-x-generic-symbolic")
    } else if str_eq(ext, "mp3") || str_eq(ext, "flac") || str_eq(ext, "ogg") || str_eq(ext, "wav") {
        owned("audio-x-generic-symbolic")
    } else if str_eq(ext, "pdf") {
        owned("application-pdf-symbolic")
    } else if str_eq(ext, "zip") || str_eq(ext, "tar") || str_eq(ext, "gz") || str_eq(ext, "xz") || str_eq(ext, "7z") {
        owned("application-x-archive-symbolic")
    } else if str_eq(ext, "rs") || str_eq(ext, "py") || str_eq(ext, "js") || str_eq(ext, "ts") || str_eq(ext, "go") || str_eq(ext, "c") || str_eq(ext, "cpp") {
        owned("text-x-script-symbolic")
    } else {
        owned("text-x-generic-symbolic")
    }
}

fn extension(name: &str) -> (r: String)
    ensures
        r@ == extension_of(name@),
{
    let c = chars_of(name);
    let parts = split_chars(&c, '.');
    proof {
        crate::text::lemma_split_on_nonempty(name@, '.');
        assert(crate::text::views(parts@)[parts@.len() - 1] == parts@[parts@.len() - 1]@);
    }
    string_of(&parts[parts.len() - 1])
}

impl ObjectData {
    /// The object's id.
    pub fn id(&self) -> (r: &str)
        ensures
            r@ == self@.id,
    {
        match self {
            ObjectData::File { id, .. } => id.as_str(),
            ObjectData::Folder { id, .. } => id.as_str(),
            ObjectData::Application { id, .. } => id.as_str(),
            ObjectData::Project { id, .. } => id.as_str(),
            ObjectData::Shortcut { id, .. } => id.as_str(),
            ObjectData::Widget { id, .. } => id.as_str(),
            ObjectData::WorkspaceObject { id, .. } => id.as_str(),
            ObjectData::VolumeObject { id, .. } => id.as_str(),
            ObjectData::RecentObject { id, .. } => id.as_str(),
            ObjectData::TrashObject { id, .. } => id.as_str(),
            ObjectData::NetworkObject { id, .. } => id.as_str(),
        }
    }

    /// The object's name.
    pub fn name(&self) -> (r: &str)
        ensures
            r@ == self@.name,
    {
        match self {
            ObjectData::File { name, .. } => name.as_str(),
            ObjectData::Folder { name, .. } => name.as_str(),
            ObjectData::Application { name, .. } => name.as_str(),
            ObjectData::Project { name, .. } => name.as_str(),
            ObjectData::Shortcut { name, .. } => name.as_str(),
            ObjectData::Widget { name, .. } => name.as_str(),
            ObjectData::WorkspaceObject { name, .. } => name.as_str(),
            ObjectData::VolumeObject { name, .. } => name.as_str(),
            ObjectData::RecentObject { name, .. } => name.as_str(),
            ObjectData::TrashObject { name, .. } => name.as_str(),
            ObjectData::NetworkObject { name, .. } => name.as_str(),
        }
    }

    /// The name of the object's type.
    pub fn object_type(&self) -> (r: &'static str)
        ensures
            r@ == self@.object_type,
    {
        match self {
            ObjectData::File { .. } => "file",
            ObjectData::Folder { .. } => "folder",
            ObjectData::Application { .. } => "application",
            ObjectData::Project { .. } => "project",
            ObjectData::Shortcut { .. } => "shortcut",
            ObjectData::Widget { .. } => "widget",
            ObjectData::WorkspaceObject { .. } => "workspace_object",
            ObjectData::VolumeObject { .. } => "volume",
            ObjectData::RecentObject { .. } => "recent",
            ObjectData::TrashObject { .. } => "trash",
            ObjectData::NetworkObject { .. } => "network",
        }
    }

    /// The object's position.
    pub fn position(&self) -> (r: &DesktopObjectPosition)
        ensures
            *r == self@.position,
    {
        match self {
            ObjectData::File { position, .. } => position,
            ObjectData::Folder { position, .. } => position,
            ObjectData::Application { position, .. } => position,
            ObjectData::Project { position, .. } => position,
            ObjectData::Shortcut { position, .. } => position,
            ObjectData::Widget { position, .. } => position,
            ObjectData::WorkspaceObject { position, .. } => position,
            ObjectData::VolumeObject { position, .. } => position,
            ObjectData::RecentObject { position, .. } => position,
            ObjectData::TrashObject { position, .. } => position,
            ObjectData::NetworkObject { position, .. } => position,
        }
    }

    /// The object's metadata.
    pub fn metadata(&self) -> (r: &Vec<(String, String)>)
        ensures
            meta_view(r@) == self@.metadata,
    {
        match self {
            ObjectData::File { metadata, .. } => metadata,
            ObjectData::Folder { metadata, .. } => metadata,
            ObjectData::Application { metadata, .. } => metadata,
            ObjectData::Project { metadata, .. } => metadata,
            ObjectData::Shortcut { metadata, .. } => metadata,
            ObjectData::Widget { metadata, .. } => metadata,
            ObjectData::WorkspaceObject { metadata, .. } => metadata,
            ObjectData::VolumeObject { metadata, .. } => metadata,
            ObjectData::RecentObject { metadata, .. } => metadata,
            ObjectData::TrashObject { metadata, .. } => metadata,
            ObjectData::NetworkObject { metadata, .. } => metadata,
        }
    }

    /// The metadata value of `key`.
    pub fn metadata_value(&self, key: &str) -> (r: Option<&str>)
        ensures
            match r {
                Some(v) => meta_get(self@.metadata, key@) == Some(v@),
                None => meta_get(self@.metadata, key@) is None,
            },
    {
        let m = self.metadata();
        proof {
            lemma_meta_index(meta_view(m@), key@);
        }
        match meta_find(m, key) {
            Some(i) => Some(m[i].1.as_str()),
            None => None,
        }
    }

    /// The name shown for the object.
    pub fn display_name(&self) -> (r: String)
        ensures
            r@ == display_of(*self),
    {
        match self {
            ObjectData::VolumeObject { name, mount_path, .. } => {
                let a = concat_str(name.as_str(), " (");
                let b = concat_str(a.as_str(), mount_path.as_str());
                concat_str(b.as_str(), ")")
            },
            ObjectData::TrashObject { name, item_count, .. } => {
                if *item_count == 0 {
                    name.clone()
                } else {
                    let a = concat_str(name.as_str(), " (");
                    let n = u64_to_string(*item_count as u64);
                    let b = concat_str(a.as_str(), n.as_str());
                    concat_str(b.as_str(), ")")
                }
            },
            ObjectData::NetworkObject { name, protocol, .. } => {
                let a = concat_str(name.as_str(), " [");
                let b = concat_str(a.as_str(), protocol.as_str());
                concat_str(b.as_str(), "]")
            },
            _ => owned(self.name()),
        }
    }

    /// The icon of the object: for a file by its extension (in lower case),
    /// for a widget by its type, for a volume by its file system, for a
    /// network place by its protocol, else by its kind.
    pub fn icon_name(&self) -> (r: String)
        ensures
            r@ == icon_of(*self),
    {
        match self {
            ObjectData::File { name, .. } => {
                let ext = extension(name.as_str());
                let lower = to_lowercase(ext.as_str());
                file_icon_of(lower.as_str())
            },
            ObjectData::Folder { .. } => owned("folder-symbolic"),
            ObjectData::Application { .. } => owned("application-x-executable-symbolic"),
            ObjectData::Project { .. } => owned("folder-git-symbolic"),
            ObjectData::Shortcut { .. } => owned("emblem-symbolic-link-symbolic"),
            ObjectData::Widget { wtype, .. } => {
                if str_eq(wtype.as_str(), "MiniClock") {
                    owned("alarm-symbolic")
                } else if str_eq(wtype.as_str(), "Calendar") {
                    owned("calendar-symbolic")
                } else if str_eq(wtype.as_str(), "SystemMonitor") {
                    owned("utilities-system-monitor-symbolic")
                } else {
                    owned("x-office-spreadsheet-symbolic")
                }
            },
            ObjectData::WorkspaceObject { .. } => owned("view-paged-symbolic"),
            ObjectData::VolumeObject { filesystem, .. } => {
                let fs = chars_of(filesystem.as_str());
                let fuse = chars_of("fuse");
                if starts_with(&fs, &fuse) || str_eq(filesystem.as_str(), "tmpfs") {
                    owned("drive-removable-media-symbolic")
                } else {
                    owned("drive-harddisk-symbolic")
                }
            },
            ObjectData::RecentObject { .. } => owned("document-open-recent-symbolic"),
            ObjectData::TrashObject { .. } => owned("user-trash-symbolic"),
            ObjectData::NetworkObject { protocol, .. } => {
                if str_eq(protocol.as_str(), "smb") || str_eq(protocol.as_str(), "sftp") || str_eq(
                    protocol.as_str(),
                    "ssh",
                ) {
                    owned("network-server-symbolic")
                } else {
                    owned("network-workgroup-symbolic")
                }
            },
        }
    }

    /// Moves the object; nothing else changes.
    pub fn set_position(&mut self, new_pos: DesktopObjectPosition)
        ensures
            final(self)@ == (ObjectView { position: new_pos, ..old(self)@ }),
    {
        match self {
            ObjectData::File { position, .. } => *position = new_pos,
            ObjectData::Folder { position, .. } => *position = new_pos,
            ObjectData::Application { position, .. } => *position = new_pos,
            ObjectData::Project { position, .. } => *position = new_pos,
            ObjectData::Shortcut { position, .. } => *position = new_pos,
            ObjectData::Widget { position, .. } => *position = new_pos,
            ObjectData::WorkspaceObject { position, .. } => *position = new_pos,
            ObjectData::VolumeObject { position, .. } => *position = new_pos,
            ObjectData::RecentObject { position, .. } => *position = new_pos,
            ObjectData::TrashObject { position, .. } => *position = new_pos,
            ObjectData::NetworkObject { position, .. } => *position = new_pos,
        }
    }

    /// The object's position, to change in place; nothing else changes.
    pub fn position_mut(&mut self) -> (r: &mut DesktopObjectPosition)
        ensures
            *r == old(self)@.position,
            final(self)@ == (ObjectView { position: *final(r), ..old(self)@ }),
    {
        match self {
            ObjectData::File { position, .. } => position,
            ObjectData::Folder { position, .. } => position,
            ObjectData::Application { position, .. } => position,
            ObjectData::Project { position, .. } => position,
            ObjectData::Shortcut { position, .. } => position,
            ObjectData::Widget { position, .. } => position,
            ObjectData::WorkspaceObject { position, .. } => position,
            ObjectData::VolumeObject { position, .. } => position,
            ObjectData::RecentObject { position, .. } => position,
            ObjectData::TrashObject { position, .. } => position,
            ObjectData::NetworkObject { position, .. } => position,
        }
    }

    /// The object's metadata, to change in place; nothing else changes.
    pub fn metadata_mut(&mut self) -> (r: &mut Vec<(String, String)>)
        ensures
            meta_view(r@) == old(self)@.metadata,
            final(self)@ == (ObjectView { metadata: meta_view(final(r)@), ..old(self)@ }),
    {
        match self {
            ObjectData::File { metadata, .. } => metadata,
            ObjectData::Folder { metadata, .. } => metadata,
            ObjectData::Application { metadata, .. } => metadata,
            ObjectData::Project { metadata, .. } => metadata,
            ObjectData::Shortcut { metadata, .. } => metadata,
            ObjectData::Widget { metadata, .. } => metadata,
            ObjectData::WorkspaceObject { metadata, .. } => metadata,
            ObjectData::VolumeObject { metadata, .. } => metadata,
            ObjectData::RecentObject { metadata, .. } => metadata,
            ObjectData::TrashObject { metadata, .. } => metadata,
            ObjectData::NetworkObject { metadata, .. } => metadata,
        }
    }

    /// Sets the metadata value of `key`; nothing else changes.
    pub fn set_metadata(&mut self, key: &str, value: &str)
        ensures
            final(self)@ == (ObjectView { metadata: meta_set(old(self)@.metadata, key@, value@), ..old(self)@ }),
    {
        match self {
            ObjectData::File { metadata, .. } => set_entry(metadata, key, value),
            ObjectData::Folder { metadata, .. } => set_entry(metadata, key, value),
            ObjectData::Application { metadata, .. } => set_entry(metadata, key, value),
            ObjectData::Project { metadata, .. } => set_entry(metadata, key, value),
            ObjectData::Shortcut { metadata, .. } => set_entry(metadata, key, value),
            ObjectData::Widget { metadata, .. } => set_entry(metadata, key, value),
            ObjectData::WorkspaceObject { metadata, .. } => set_entry(metadata, key, value),
            ObjectData::VolumeObject { metadata, .. } => set_entry(metadata, key, value),
            ObjectData::RecentObject { metadata, .. } => set_entry(metadata, key, value),
            ObjectData::TrashObject { metadata, .. } => set_entry(metadata, key, value),
            ObjectData::NetworkObject { metadata, .. } => set_entry(metadata, key, value),
        }
    }

    /// An identical copy.
    pub fn duplicate(&self) -> (r: Self)
        ensures
            r@ == self@,
    {
        match self {
            ObjectData::File { id, name, path, position, metadata } => ObjectData::File {
                id: id.clone(),
                name: name.clone(),
                path: path.clone(),
                position: position.duplicate(),
                metadata: copy_entries(metadata),
            },
            ObjectData::Folder { id, name, path, position, metadata } => ObjectData::Folder {
                id: id.clone(),
                name: name.clone(),
                path: path.clone(),
                position: position.duplicate(),
                metadata: copy_entries(metadata),
            },
            ObjectData::Application { id, name, desktop_file, position, metadata } => ObjectData::Application {
                id: id.clone(),
                name: name.clone(),
                desktop_file: desktop_file.clone(),
                position: position.duplicate(),
                metadata: copy_entries(metadata),
            },
            ObjectData::Project { id, name, path, position, metadata } => ObjectData::Project {
                id: id.clone(),
                name: name.clone(),
                path: path.clone(),
                position: position.duplicate(),
                metadata: copy_entries(metadata),
            },
            ObjectData::Shortcut { id, name, target, position, metadata } => ObjectData::Shortcut {
                id: id.clone(),
                name: name.clone(),
                target: target.clone(),
                position: position.duplicate(),
                metadata: copy_entries(metadata),
            },
            ObjectData::Widget { id, name, wtype, position, metadata } => ObjectData::Widget {
                id: id.clone(),
                name: name.clone(),
                wtype: wtype.clone(),
                position: position.duplicate(),
                metadata: copy_entries(metadata),
            },
            ObjectData::WorkspaceObject { id, name, workspace_id, position, metadata } => ObjectData::WorkspaceObject {
                id: id.clone(),
                name: name.clone(),
                workspace_id: *workspace_id,
                position: position.duplicate(),
                metadata: copy_entries(metadata),
            },
            ObjectData::VolumeObject { id, name, mount_path, filesystem, position, metadata } => ObjectData::VolumeObject {
                id: id.clone(),
                name: name.clone(),
                mount_path: mount_path.clone(),
                filesystem: filesystem.clone(),
                position: position.duplicate(),
                metadata: copy_entries(metadata),
            },
            ObjectData::RecentObject { id, name, path, accessed_at, position, metadata } => ObjectData::RecentObject {
                id: id.clone(),
                name: name.clone(),
                path: path.clone(),
                accessed_at: *accessed_at,
                position: position.duplicate(),
                metadata: copy_entries(metadata),
            },
            ObjectData::TrashObject { id, name, item_count, position, metadata } => ObjectData::TrashObject {
                id: id.clone(),
                name: name.clone(),
                item_count: *item_count,
                position: position.duplicate(),
                metadata: copy_entries(metadata),
            },
            ObjectData::NetworkObject { id, name, uri, protocol, position, metadata } => ObjectData::NetworkObject {
                id: id.clone(),
                name: name.clone(),
                uri: uri.clone(),
                protocol: protocol.clone(),
                position: position.duplicate(),
                metadata: copy_entries(metadata),
            },
        }
    }
}

fn set_entry(m: &mut Vec<(String, String)>, key: &str, value: &str)
    ensures
        meta_view(final(m)@) == meta_set(meta_view(old(m)@), key@, value@),
{
    proof {
        lemma_meta_index(meta_view(m@), key@);
    }
    match meta_find(m, key) {
        Some(i) => {
            let ghost before = meta_view(m@);
            m.remove(i);
            m.insert(i, (owned(key), owned(value)));
            proof {
                assert(meta_view(m@) =~= before.update(i as int, (key@, value@)));
            }
        },
        None => {
            let ghost before = meta_view(m@);
            m.push((owned(key), owned(value)));
            proof {
                assert(meta_view(m@) =~= before.push((key@, value@)));
            }
        },
    }
}

fn copy_entries(m: &Vec<(String, String)>) -> (r: Vec<(String, String)>)
    ensures
        meta_view(r@) == meta_view(m@),
{
    let mut r: Vec<(String, String)> = Vec::new();
    let mut i: usize = 0;
    while i < m.len()
        invariant
            i <= m@.len(),
            meta_view(r@) == meta_view(m@).take(i as int),
        decreases m.len() - i,
    {
        let ghost before = meta_view(r@);
        r.push((m[i].0.clone(), m[i].1.clone()));
        proof {
            assert(meta_view(r@) =~= before.push(meta_view(m@)[i as int]));
            assert(meta_view(m@).take(i + 1) =~= meta_view(m@).take(i as int).push(meta_view(m@)[i as int]));
        }
        i = i + 1;
    }
    proof {
        assert(meta_view(m@).take(m@.len() as int) =~= meta_view(m@));
    }
    r
}

// ── Making objects ───────────────────────────────────────────────────────

/// `o` is a new object of the given type: a fresh random id, the name, a
/// default position at (x, y), no metadata, and its own texts and numbers.
pub open spec fn is_new_object(
    o: ObjectView,
    object_type: Seq<char>,
    name: Seq<char>,
    position: DesktopObjectPosition,
    texts: Seq<Seq<char>>,
    numbers: Seq<int>,
) -> bool {
    &&& o.object_type == object_type
    &&& is_v4_uuid_text(o.id)
    &&& o.name == name
    &&& o.position == position
    &&& o.metadata.len() == 0
    &&& o.texts == texts
    &&& o.numbers == numbers
}

/// A file object.
pub fn new_file(name: &str, path: &str, x_bits: u64, y_bits: u64) -> (r: ObjectData)
    ensures
        is_new_object(r@, "file"@, name@, desktop_position(x_bits, y_bits), seq![path@], seq![]),
{
    let r = ObjectData::File {
        id: new_uuid(),
        name: owned(name),
        path: owned(path),
        position: DesktopObjectPosition::desktop(x_bits, y_bits),
        metadata: Vec::new(),
    };
    proof {
        assert(r@.texts =~= seq![path@]);
    }
    r
}

/// A folder object.
pub fn new_folder(name: &str, path: &str, x_bits: u64, y_bits: u64) -> (r: ObjectData)
    ensures
        is_new_object(r@, "folder"@, name@, desktop_position(x_bits, y_bits), seq![path@], seq![]),
{
    ObjectData::Folder {
        id: new_uuid(),
        name: owned(name),
        path: owned(path),
        position: DesktopObjectPosition::desktop(x_bits, y_bits),
        metadata: Vec::new(),
    }
}

/// An application object.
pub fn new_application(name: &str, desktop_file: &str, x_bits: u64, y_bits: u64) -> (r: ObjectData)
    ensures
        is_new_object(
            r@,
            "application"@,
            name@,
            desktop_position(x_bits, y_bits),
            seq![desktop_file@],
            seq![],
        ),
{
    ObjectData::Application {
        id: new_uuid(),
        name: owned(name),
        desktop_file: owned(desktop_file),
        position: DesktopObjectPosition::desktop(x_bits, y_bits),
        metadata: Vec::new(),
    }
}

/// A project object.
pub fn new_project(name: &str, path: &str, x_bits: u64, y_bits: u64) -> (r: ObjectData)
    ensures
        is_new_object(r@, "project"@, name@, desktop_position(x_bits, y_bits), seq![path@], seq![]),
{
    ObjectData::Project {
        id: new_uuid(),
        name: owned(name),
        path: owned(path),
        position: DesktopObjectPosition::desktop(x_bits, y_bits),
        metadata: Vec::new(),
    }
}

/// A shortcut object.
pub fn new_shortcut(name: &str, target: &str, x_bits: u64, y_bits: u64) -> (r: ObjectData)
    ensures
        is_new_object(r@, "shortcut"@, name@, desktop_position(x_bits, y_bits), seq![target@], seq![]),
{
    ObjectData::Shortcut {
        id: new_uuid(),
        name: owned(name),
        target: owned(target),
        position: DesktopObjectPosition::desktop(x_bits, y_bits),
        metadata: Vec::new(),
    }
}

/// A widget object of the given size.
pub fn new_widget(name: &str, wtype: &str, x_bits: u64, y_bits: u64, width_bits: u64, height_bits: u64) -> (r:
    ObjectData)
    ensures
        is_new_object(
            r@,
            "widget"@,
            name@,
            (DesktopObjectPosition { width_bits, height_bits, ..desktop_position(x_bits, y_bits) }),
            seq![wtype@],
            seq![],
        ),
{
    ObjectData::Widget {
        id: new_uuid(),
        name: owned(name),
        wtype: owned(wtype),
        position: DesktopObjectPosition::desktop(x_bits, y_bits).with_size(width_bits, height_bits),
        metadata: Vec::new(),
    }
}

/// A workspace object, placed on its workspace.
pub fn new_workspace_object(name: &str, workspace_id: u8, x_bits: u64, y_bits: u64) -> (r: ObjectData)
    ensures
        is_new_object(
            r@,
            "workspace_object"@,
            name@,
            (DesktopObjectPosition { workspace_id: Some(workspace_id), ..desktop_position(x_bits, y_bits) }),
            seq![],
            seq![workspace_id as int],
        ),
{
    ObjectData::WorkspaceObject {
        id: new_uuid(),
        name: owned(name),
        workspace_id,
        position: DesktopObjectPosition::desktop(x_bits, y_bits).on_workspace(workspace_id),
        metadata: Vec::new(),
    }
}

/// A volume object.
pub fn new_volume(name: &str, mount_path: &str, filesystem: &str, x_bits: u64, y_bits: u64) -> (r: ObjectData)
    ensures
        is_new_object(
            r@,
            "volume"@,
            name@,
            desktop_position(x_bits, y_bits),
            seq![mount_path@, filesystem@],
            seq![],
        ),
{
    ObjectData::VolumeObject {
        id: new_uuid(),
        name: owned(name),
        mount_path: owned(mount_path),
        filesystem: owned(filesystem),
        position: DesktopObjectPosition::desktop(x_bits, y_bits),
        metadata: Vec::new(),
    }
}

/// A recent document object.
pub fn new_recent(name: &str, path: &str, accessed_at: i64, x_bits: u64, y_bits: u64) -> (r: ObjectData)
    ensures
        is_new_object(
            r@,
            "recent"@,
            name@,
            desktop_position(x_bits, y_bits),
            seq![path@],
            seq![accessed_at as int],
        ),
{
    ObjectData::RecentObject {
        id: new_uuid(),
        name: owned(name),
        path: owned(path),
        accessed_at,
        position: DesktopObjectPosition::desktop(x_bits, y_bits),
        metadata: Vec::new(),
    }
}

/// A trash object.
pub fn new_trash(name: &str, item_count: u32, x_bits: u64, y_bits: u64) -> (r: ObjectData)
    ensures
        is_new_object(
            r@,
            "trash"@,
            name@,
            desktop_position(x_bits, y_bits),
            seq![],
            seq![item_count as int],
        ),
{
    ObjectData::TrashObject {
        id: new_uuid(),
        name: owned(name),
        item_count,
        position: DesktopObjectPosition::desktop(x_bits, y_bits),
        metadata: Vec::new(),
    }
}

/// A network place object.
pub fn new_network(name: &str, uri: &str, protocol: &str, x_bits: u64, y_bits: u64) -> (r: ObjectData)
    ensures
        is_new_object(
            r@,
            "network"@,
            name@,
            desktop_position(x_bits, y_bits),
            seq![uri@, protocol@],
            seq![],
        ),
{
    ObjectData::NetworkObject {
        id: new_uuid(),
        name: owned(name),
        uri: owned(uri),
        protocol: owned(protocol),
        position: DesktopObjectPosition::desktop(x_bits, y_bits),
        metadata: Vec::new(),
    }
}

} // verus!
