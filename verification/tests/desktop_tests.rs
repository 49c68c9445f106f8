use xarph_sdk::desktop_object::{
    new_application, new_file, new_folder, new_network, new_trash, new_volume, new_widget, ObjectData,
};
use xarph_sdk::desktop_registry::{DesktopRegistry, DesktopSnapshot};
use xarph_sdk::position::{DesktopObjectPosition, DesktopZone};

fn bits(v: f64) -> u64 {
    v.to_bits()
}

fn test_registry() -> DesktopRegistry {
    DesktopRegistry::new("/tmp/xarph_test_registry/objects.json".to_string())
}

#[test]
fn test_desktop_position() {
    let pos = DesktopObjectPosition::desktop(bits(100.0), bits(200.0));
    assert_eq!(f64::from_bits(pos.x_bits), 100.0);
    assert_eq!(f64::from_bits(pos.y_bits), 200.0);
    assert_eq!(pos.zone, DesktopZone::Main);
    assert_eq!(pos.workspace_id, None);
}

#[test]
fn test_with_size() {
    let pos = DesktopObjectPosition::desktop(bits(0.0), bits(0.0)).with_size(bits(200.0), bits(100.0));
    assert_eq!(f64::from_bits(pos.width_bits), 200.0);
    assert_eq!(f64::from_bits(pos.height_bits), 100.0);
}

#[test]
fn test_on_workspace() {
    let pos = DesktopObjectPosition::desktop(bits(0.0), bits(0.0)).on_workspace(3);
    assert_eq!(pos.workspace_id, Some(3));
}

#[test]
fn default_position_is_eighty_pixels_square_at_the_origin() {
    let pos = DesktopObjectPosition::default();
    assert_eq!(f64::from_bits(pos.x_bits), 0.0);
    assert_eq!(f64::from_bits(pos.width_bits), 80.0);
    assert_eq!(f64::from_bits(pos.height_bits), 80.0);
    let moved = pos.in_zone(DesktopZone::Dock).with_z_index(4);
    assert_eq!(moved.zone, DesktopZone::Dock);
    assert_eq!(moved.z_index, 4);
}

#[test]
fn test_object_data_type() {
    let f = new_file("test.rs", "/tmp/test.rs", bits(10.0), bits(20.0));
    assert_eq!(f.object_type(), "file");
    assert_eq!(f.name(), "test.rs");
}

#[test]
fn test_folder_icon() {
    let f = new_folder("My Folder", "/tmp/my-folder", bits(10.0), bits(20.0));
    assert_eq!(f.icon_name(), "folder-symbolic");
}

#[test]
fn test_position_mutation() {
    let mut f = new_file("test.rs", "/tmp/test.rs", bits(0.0), bits(0.0));
    f.set_position(DesktopObjectPosition::desktop(bits(100.0), bits(200.0)));
    assert_eq!(f64::from_bits(f.position().x_bits), 100.0);
    assert_eq!(f64::from_bits(f.position().y_bits), 200.0);
}

#[test]
fn file_icons_follow_the_extension_in_any_case() {
    let icon = |n: &str| new_file(n, "/x", 0, 0).icon_name();
    assert_eq!(icon("photo.PNG"), "image-x-generic-symbolic");
    assert_eq!(icon("clip.mkv"), "video-x-generic-symbolic");
    assert_eq!(icon("song.flac"), "audio-x-generic-symbolic");
    assert_eq!(icon("paper.pdf"), "application-pdf-symbolic");
    assert_eq!(icon("backup.tar.gz"), "application-x-archive-symbolic");
    assert_eq!(icon("main.rs"), "text-x-script-symbolic");
    assert_eq!(icon("README"), "text-x-generic-symbolic");
    assert_eq!(icon("c"), "text-x-script-symbolic");
}

#[test]
fn other_icons_follow_the_kind() {
    assert_eq!(new_widget("w", "Calendar", 0, 0, 0, 0).icon_name(), "calendar-symbolic");
    assert_eq!(new_widget("w", "Other", 0, 0, 0, 0).icon_name(), "x-office-spreadsheet-symbolic");
    assert_eq!(new_volume("USB", "/mnt", "fuseblk", 0, 0).icon_name(), "drive-removable-media-symbolic");
    assert_eq!(new_volume("tmp", "/tmp", "tmpfs", 0, 0).icon_name(), "drive-removable-media-symbolic");
    assert_eq!(new_volume("Disk", "/", "ext4", 0, 0).icon_name(), "drive-harddisk-symbolic");
    assert_eq!(new_network("NAS", "smb://nas", "smb", 0, 0).icon_name(), "network-server-symbolic");
    assert_eq!(new_network("Web", "http://x", "http", 0, 0).icon_name(), "network-workgroup-symbolic");
    assert_eq!(new_application("Term", "term.desktop", 0, 0).icon_name(), "application-x-executable-symbolic");
}

#[test]
fn display_names() {
    assert_eq!(new_volume("USB", "/mnt/usb", "vfat", 0, 0).display_name(), "USB (/mnt/usb)");
    assert_eq!(new_trash("Trash", 0, 0, 0).display_name(), "Trash");
    assert_eq!(new_trash("Trash", 12, 0, 0).display_name(), "Trash (12)");
    assert_eq!(new_network("NAS", "smb://nas", "smb", 0, 0).display_name(), "NAS [smb]");
    assert_eq!(new_file("a.txt", "/a.txt", 0, 0).display_name(), "a.txt");
}

#[test]
fn new_objects_have_fresh_random_ids() {
    let a = new_file("a", "/a", 0, 0);
    let b = new_file("a", "/a", 0, 0);
    assert_eq!(a.id().len(), 36);
    assert_eq!(&a.id()[14..15], "4");
    assert_ne!(a.id(), b.id());
}

#[test]
fn metadata_reads_back_what_was_set() {
    let mut f = new_file("a", "/a", 0, 0);
    f.set_metadata("tag", "red");
    f.set_metadata("owner", "me");
    f.set_metadata("tag", "blue");
    assert_eq!(f.metadata_value("tag"), Some("blue"));
    assert_eq!(f.metadata_value("owner"), Some("me"));
    assert_eq!(f.metadata_value("none"), None);
    assert_eq!(f.metadata().len(), 2);
}

#[test]
fn test_register_and_get() {
    let mut reg = test_registry();
    let file = new_file("test.rs", "/tmp/test.rs", bits(10.0), bits(20.0));
    let id = file.id().to_string();
    assert!(reg.register(file));
    assert!(reg.get(&id).is_some());
    assert_eq!(reg.len(), 1);
}

#[test]
fn test_unregister() {
    let mut reg = test_registry();
    let file = new_file("test.rs", "/tmp/test.rs", bits(10.0), bits(20.0));
    let id = file.id().to_string();
    reg.register(file);
    let removed = reg.unregister(&id);
    assert!(removed.is_some());
    assert!(reg.is_empty());
}

#[test]
fn test_find_by_type() {
    let mut reg = test_registry();
    reg.register(new_file("a.rs", "/a", bits(0.0), bits(0.0)));
    reg.register(new_file("b.rs", "/b", bits(0.0), bits(0.0)));
    assert_eq!(reg.find_by_type("file").len(), 2);
    assert_eq!(reg.find_by_type("folder").len(), 0);
}

#[test]
fn test_persistence_roundtrip() {
    let mut reg = test_registry();
    reg.register(new_file("test.rs", "/tmp/test.rs", bits(10.0), bits(20.0)));
    let saved = reg.serialize();

    let mut reg2 = DesktopRegistry::new(reg.persistence_path().to_string());
    reg2.deserialize(saved);
    assert_eq!(reg2.len(), 1);
}

#[test]
fn registering_an_id_twice_keeps_the_first_object() {
    let mut reg = test_registry();
    let a = new_file("a", "/a", 0, 0);
    let id = a.id().to_string();
    let mut b = a.clone();
    if let ObjectData::File { name, .. } = &mut b {
        *name = "b".to_string();
    }
    assert!(reg.register(a));
    assert!(!reg.register(b));
    assert_eq!(reg.get(&id).unwrap().name(), "a");
    assert!(reg.contains(&id));
    assert!(!reg.update("missing", new_folder("f", "/f", 0, 0)));
    assert!(reg.update(&id, new_folder("f", "/f", 0, 0)));
    assert_eq!(reg.get(&id).unwrap().object_type(), "folder");
    assert_eq!(reg.all_ids(), vec![id.as_str()]);
}

#[test]
fn selections() {
    let mut reg = test_registry();
    let mut a = new_file("a", "/a", 0, 0);
    a.set_metadata("color", "red");
    let mut b = new_file("b", "/b", 0, 0);
    b.set_position(DesktopObjectPosition::desktop(0, 0).on_workspace(2).in_zone(DesktopZone::Dock));
    reg.register(a);
    reg.register(b);
    reg.register(new_folder("a", "/c", 0, 0));
    assert_eq!(reg.find_by_name("a").len(), 2);
    assert_eq!(reg.find_by_metadata("color", "red").len(), 1);
    assert_eq!(reg.find_by_metadata("color", "blue").len(), 0);
    assert_eq!(reg.on_workspace(2).len(), 1);
    assert_eq!(reg.in_zone(DesktopZone::Dock).len(), 1);
    assert_eq!(reg.in_zone(DesktopZone::Main).len(), 2);
    assert_eq!(reg.in_container("box").len(), 0);
    assert_eq!(reg.all().len(), 3);
    reg.clear();
    assert!(reg.is_empty());
}

#[test]
fn snapshot_and_restore() {
    let mut reg = test_registry();
    reg.register(new_file("a", "/a", 0, 0));
    reg.register(new_trash("Trash", 1, 0, 0));
    let snap: DesktopSnapshot = reg.snapshot();
    assert_eq!(snap.version, 1);
    assert_eq!(snap.objects.len(), 2);
    let mut other = test_registry();
    assert!(other.restore(&snap).is_ok());
    assert_eq!(other.len(), 2);
    assert_eq!(other.find_by_type("trash").len(), 1);
}

#[test]
fn positions_and_metadata_change_in_place() {
    let mut f = new_file("test.rs", "/tmp/test.rs", bits(1.0), bits(2.0));
    f.position_mut().z_index = 7;
    f.position_mut().workspace_id = Some(3);
    assert_eq!(f.position().z_index, 7);
    assert_eq!(f.position().workspace_id, Some(3));
    assert_eq!(f64::from_bits(f.position().x_bits), 1.0);
    f.metadata_mut().push(("tag".to_string(), "red".to_string()));
    assert_eq!(f.metadata_value("tag"), Some("red"));
    assert_eq!(f.name(), "test.rs");
}
