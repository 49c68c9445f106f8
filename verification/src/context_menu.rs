//! Context menus of the desktop: the menu item model and the menus offered
//! for each kind of desktop object.
use vstd::prelude::*;

use crate::desktop_object::ObjectData;

use crate::text::owned;

verus! {

/// An entry of a context menu.
pub enum MenuItem {
    Action {
        id: String,
        label: String,
        icon: Option<String>,
        shortcut: Option<String>,
        enabled: bool,
    },
    Separator,
    Submenu {
        label: String,
        icon: Option<String>,
        items: Vec<MenuItem>,
    },
    Info {
        label: String,
    },
}

/// What a menu entry is, with its texts as character sequences.
pub enum MenuView {
    Action {
        id: Seq<char>,
        label: Seq<char>,
        icon: Option<Seq<char>>,
        shortcut: Option<Seq<char>>,
        enabled: bool,
    },
    Separator,
    Submenu {
        label: Seq<char>,
        icon: Option<Seq<char>>,
        items: Seq<MenuView>,
    },
    Info {
        label: Seq<char>,
    },
}

/// The characters of an optional string.
pub open spec fn opt_view(s: Option<String>) -> Option<Seq<char>> {
    match s {
        Some(t) => Some(t@),
        None => None,
    }
}

/// What `m` is.
pub open spec fn menu_view(m: MenuItem) -> MenuView
    decreases m, 1int,
{
    match m {
        MenuItem::Action { id, label, icon, shortcut, enabled } => MenuView::Action {
            id: id@,
            label: label@,
            icon: opt_view(icon),
            shortcut: opt_view(shortcut),
            enabled,
        },
        MenuItem::Separator => MenuView::Separator,
        MenuItem::Submenu { label, icon, items } => {
            MenuView::Submenu { label: label@, icon: opt_view(icon), items: menu_views(items@) }
        },
        MenuItem::Info { label } => MenuView::Info { label: label@ },
    }
}

/// What each entry of a menu is, in order.
pub open spec fn menu_views(s: Seq<MenuItem>) -> Seq<MenuView>
    decreases s, 0int,
{
    if s.len() == 0 {
        Seq::empty()
    } else {
        proof {
            assert(decreases_to!(s => s[s.len() - 1]));
            assert(decreases_to!(s => s.subrange(0, s.len() - 1)));
        }
        menu_views(s.subrange(0, s.len() - 1)).push(menu_view(s[s.len() - 1]))
    }
}

pub broadcast proof fn lemma_menu_views_push(s: Seq<MenuItem>, m: MenuItem)
    ensures
        #[trigger] menu_views(s.push(m)) == menu_views(s).push(menu_view(m)),
{
    assert(s.push(m).subrange(0, s.len() as int) =~= s);
}

/// An enabled action with an icon and no shortcut.
pub open spec fn act(id: Seq<char>, label: Seq<char>, icon: Seq<char>) -> MenuView {
    MenuView::Action { id, label, icon: Some(icon), shortcut: None, enabled: true }
}

/// An enabled action without icon or shortcut.
pub open spec fn plain_act(id: Seq<char>, label: Seq<char>) -> MenuView {
    MenuView::Action { id, label, icon: None, shortcut: None, enabled: true }
}

pub open spec fn file_menu(name: Seq<char>) -> Seq<MenuView> {
    seq![
        MenuView::Info { label: name },
        MenuView::Separator,
        act("open"@, "Open"@, "document-open-symbolic"@),
        act("open_with"@, "Open With..."@, "document-open-symbolic"@),
        MenuView::Separator,
        act("copy"@, "Copy"@, "edit-copy-symbolic"@),
        act("cut"@, "Cut"@, "edit-cut-symbolic"@),
        act("paste"@, "Paste"@, "edit-paste-symbolic"@),
        MenuView::Separator,
        act("rename"@, "Rename"@, "document-edit-symbolic"@),
        act("delete"@, "Delete"@, "edit-delete-symbolic"@),
        MenuView::Separator,
        act("properties"@, "Properties"@, "document-properties-symbolic"@),
    ]
}

pub open spec fn folder_menu(name: Seq<char>) -> Seq<MenuView> {
    seq![
        MenuView::Info { label: name },
        MenuView::Separator,
        act("open"@, "Open"@, "folder-open-symbolic"@),
        act("open_in_terminal"@, "Open in Terminal"@, "utilities-terminal-symbolic"@),
        MenuView::Separator,
        act("copy"@, "Copy"@, "edit-copy-symbolic"@),
        act("cut"@, "Cut"@, "edit-cut-symbolic"@),
        MenuView::Separator,
        act("rename"@, "Rename"@, "document-edit-symbolic"@),
        act("delete"@, "Delete"@, "edit-delete-symbolic"@),
        MenuView::Separator,
        act("properties"@, "Properties"@, "document-properties-symbolic"@),
    ]
}

pub open spec fn application_menu(name: Seq<char>) -> Seq<MenuView> {
    seq![
        MenuView::Info { label: name },
        MenuView::Separator,
        act("launch"@, "Launch"@, "system-run-symbolic"@),
        act("launch_terminal"@, "Launch in Terminal"@, "utilities-terminal-symbolic"@),
        MenuView::Separator,
        act("pin_to_desktop"@, "Pin to Desktop"@, "view-pin-symbolic"@),
        act("add_to_favorites"@, "Add to Favorites"@, "starred-symbolic"@),
        MenuView::Separator,
        act("properties"@, "Properties"@, "document-properties-symbolic"@),
    ]
}

pub open spec fn project_menu(name: Seq<char>) -> Seq<MenuView> {
    seq![
        MenuView::Info { label: name },
        MenuView::Separator,
        act("open"@, "Open"@, "folder-open-symbolic"@),
        act("open_in_terminal"@, "Open in Terminal"@, "utilities-terminal-symbolic"@),
        MenuView::Separator,
        act("open_in_editor"@, "Open in Editor"@, "text-editor-symbolic"@),
        MenuView::Separator,
        act("rename"@, "Rename"@, "document-edit-symbolic"@),
        act("delete"@, "Delete"@, "edit-delete-symbolic"@),
        MenuView::Separator,
        act("properties"@, "Properties"@, "document-properties-symbolic"@),
    ]
}

pub open spec fn shortcut_menu(name: Seq<char>) -> Seq<MenuView> {
    seq![
        MenuView::Info { label: name },
        MenuView::Separator,
        act("open_target"@, "Open Target"@, "go-jump-symbolic"@),
        MenuView::Separator,
        act("rename"@, "Rename"@, "document-edit-symbolic"@),
        act("delete"@, "Delete"@, "edit-delete-symbolic"@),
        MenuView::Separator,
        act("properties"@, "Properties"@, "document-properties-symbolic"@),
    ]
}

pub open spec fn widget_menu(name: Seq<char>) -> Seq<MenuView> {
    seq![
        MenuView::Info { label: name },
        MenuView::Separator,
        act("configure"@, "Configure"@, "preferences-system-symbolic"@),
        act("move"@, "Move"@, "view-dual-symbolic"@),
        act("resize"@, "Resize"@, "view-fullscreen-symbolic"@),
        MenuView::Separator,
        act("duplicate"@, "Duplicate"@, "edit-copy-symbolic"@),
        MenuView::Separator,
        act("remove"@, "Remove from Desktop"@, "edit-delete-symbolic"@),
    ]
}

pub open spec fn add_widget_items() -> Seq<MenuView> {
    seq![
        plain_act("add_clock"@, "Clock"@),
        plain_act("add_calendar"@, "Calendar"@),
        plain_act("add_system_monitor"@, "System Monitor"@),
        plain_act("add_notes"@, "Notes"@),
        plain_act("add_weather"@, "Weather"@),
    ]
}

pub open spec fn desktop_menu() -> Seq<MenuView> {
    seq![
        act("new_folder"@, "New Folder"@, "folder-new-symbolic"@),
        act("new_file"@, "New File"@, "document-new-symbolic"@),
        MenuView::Separator,
        MenuView::Submenu { label: "Add Widget"@, icon: None, items: add_widget_items() },
        MenuView::Separator,
        act(
            "change_wallpaper"@,
            "Change Wallpaper"@,
            "preferences-desktop-wallpaper-symbolic"@,
        ),
        act("display_settings"@, "Display Settings"@, "video-display-symbolic"@),
        act("desktop_settings"@, "Desktop Settings"@, "preferences-desktop-symbolic"@),
        MenuView::Separator,
        act("open_terminal"@, "Open Terminal"@, "utilities-terminal-symbolic"@),
    ]
}

pub open spec fn volume_menu(name: Seq<char>) -> Seq<MenuView> {
    seq![
        MenuView::Info { label: name },
        MenuView::Separator,
        act("open"@, "Open"@, "folder-open-symbolic"@),
        act("eject"@, "Eject"@, "media-eject-symbolic"@),
        act("unmount"@, "Unmount"@, "media-eject-symbolic"@),
        MenuView::Separator,
        act("properties"@, "Properties"@, "document-properties-symbolic"@),
    ]
}

pub open spec fn trash_menu() -> Seq<MenuView> {
    seq![
        act("open"@, "Open Trash"@, "user-trash-symbolic"@),
        act("empty"@, "Empty Trash"@, "edit-clear-all-symbolic"@),
        MenuView::Separator,
        act("properties"@, "Properties"@, "document-properties-symbolic"@),
    ]
}

pub open spec fn network_menu(name: Seq<char>) -> Seq<MenuView> {
    seq![
        MenuView::Info { label: name },
        MenuView::Separator,
        act("connect"@, "Connect"@, "network-connect-symbolic"@),
        act("disconnect"@, "Disconnect"@, "network-disconnect-symbolic"@),
        MenuView::Separator,
        act("properties"@, "Properties"@, "document-properties-symbolic"@),
    ]
}

pub open spec fn workspace_menu(name: Seq<char>) -> Seq<MenuView> {
    seq![
        MenuView::Info { label: name },
        MenuView::Separator,
        act("switch_to"@, "Switch to Workspace"@, "go-jump-symbolic"@),
        MenuView::Separator,
        act("configure"@, "Configure"@, "preferences-system-symbolic"@),
    ]
}

impl MenuItem {
    /// An enabled action without icon or shortcut.
    pub fn action(id: &str, label: &str) -> (r: MenuItem)
        ensures
            menu_view(r) == plain_act(id@, label@),
    {
        MenuItem::Action { id: owned(id), label: owned(label), icon: None, shortcut: None, enabled: true }
    }

    /// An enabled action with an icon.
    pub fn action_with_icon(id: &str, label: &str, icon: &str) -> (r: MenuItem)
        ensures
            menu_view(r) == act(id@, label@, icon@),
    {
        MenuItem::Action {
            id: owned(id),
            label: owned(label),
            icon: Some(owned(icon)),
            shortcut: None,
            enabled: true,
        }
    }

    /// A disabled action without icon or shortcut.
    pub fn action_disabled(id: &str, label: &str) -> (r: MenuItem)
        ensures
            menu_view(r) == (MenuView::Action {
                id: id@,
                label: label@,
                icon: None,
                shortcut: None,
                enabled: false,
            }),
    {
        MenuItem::Action { id: owned(id), label: owned(label), icon: None, shortcut: None, enabled: false }
    }

    /// The same item with `shortcut` as its shortcut if it is an action;
    /// any other item is returned unchanged.
    pub fn with_shortcut(self, shortcut: &str) -> (r: MenuItem)
        ensures
            menu_view(r) == (match menu_view(self) {
                MenuView::Action { id, label, icon, shortcut: _, enabled } => MenuView::Action {
                    id,
                    label,
                    icon,
                    shortcut: Some(shortcut@),
                    enabled,
                },
                other => other,
            }),
    {
        match self {
            MenuItem::Action { id, label, icon, shortcut: _, enabled } => MenuItem::Action {
                id,
                label,
                icon,
                shortcut: Some(owned(shortcut)),
                enabled,
            },
            other => other,
        }
    }

    /// A submenu without icon.
    pub fn submenu(label: &str, items: Vec<MenuItem>) -> (r: MenuItem)
        ensures
            menu_view(r) == (MenuView::Submenu {
                label: label@,
                icon: None,
                items: menu_views(items@),
            }),
    {
        MenuItem::Submenu { label: owned(label), icon: None, items }
    }

    /// A non-interactive line of text.
    pub fn info(label: &str) -> (r: MenuItem)
        ensures
            menu_view(r) == (MenuView::Info { label: label@ }),
    {
        MenuItem::Info { label: owned(label) }
    }

    /// Whether this item is the action `id`.
    pub fn is_action_with_id(&self, id: &str) -> (r: bool)
        ensures
            r == (menu_view(*self) matches MenuView::Action { id: i, .. } && i == id@),
    {
        match self {
            MenuItem::Action { id: i, .. } => crate::text::str_eq(i.as_str(), id),
            _ => false,
        }
    }
}

/// The menu of a file called `object_name`.
pub fn build_file_menu(object_name: &str) -> (r: Vec<MenuItem>)
    ensures
        menu_views(r@) == file_menu(object_name@),
{
    broadcast use lemma_menu_views_push;
    let mut v: Vec<MenuItem> = Vec::new();
    v.push(MenuItem::info(object_name));
    v.push(MenuItem::Separator);
    v.push(MenuItem::action_with_icon("open", "Open", "document-open-symbolic"));
    v.push(MenuItem::action_with_icon("open_with", "Open With...", "document-open-symbolic"));
    v.push(MenuItem::Separator);
    v.push(MenuItem::action_with_icon("copy", "Copy", "edit-copy-symbolic"));
    v.push(MenuItem::action_with_icon("cut", "Cut", "edit-cut-symbolic"));
    v.push(MenuItem::action_with_icon("paste", "Paste", "edit-paste-symbolic"));
    v.push(MenuItem::Separator);
    v.push(MenuItem::action_with_icon("rename", "Rename", "document-edit-symbolic"));
    v.push(MenuItem::action_with_icon("delete", "Delete", "edit-delete-symbolic"));
    v.push(MenuItem::Separator);
    v.push(MenuItem::action_with_icon("properties", "Properties", "document-properties-symbolic"));
    proof {
        assert(menu_views(Seq::<MenuItem>::empty()) == Seq::<MenuView>::empty());
        assert(menu_views(v@) =~= file_menu(object_name@));
    }
    v
}

/// The menu of a folder called `object_name`.
pub fn build_folder_menu(object_name: &str) -> (r: Vec<MenuItem>)
    ensures
        menu_views(r@) == folder_menu(object_name@),
{
    broadcast use lemma_menu_views_push;
    let mut v: Vec<MenuItem> = Vec::new();
    v.push(MenuItem::info(object_name));
    v.push(MenuItem::Separator);
    v.push(MenuItem::action_with_icon("open", "Open", "folder-open-symbolic"));
    v.push(MenuItem::action_with_icon("open_in_terminal", "Open in Terminal", "utilities-terminal-symbolic"));
    v.push(MenuItem::Separator);
    v.push(MenuItem::action_with_icon("copy", "Copy", "edit-copy-symbolic"));
    v.push(MenuItem::action_with_icon("cut", "Cut", "edit-cut-symbolic"));
    v.push(MenuItem::Separator);
    v.push(MenuItem::action_with_icon("rename", "Rename", "document-edit-symbolic"));
    v.push(MenuItem::action_with_icon("delete", "Delete", "edit-delete-symbolic"));
    v.push(MenuItem::Separator);
    v.push(MenuItem::action_with_icon("properties", "Properties", "document-properties-symbolic"));
    proof {
        assert(menu_views(Seq::<MenuItem>::empty()) == Seq::<MenuView>::empty());
        assert(menu_views(v@) =~= folder_menu(object_name@));
    }
    v
}

/// The menu of an application called `object_name`.
pub fn build_application_menu(object_name: &str) -> (r: Vec<MenuItem>)
    ensures
        menu_views(r@) == application_menu(object_name@),
{
    broadcast use lemma_menu_views_push;
    let mut v: Vec<MenuItem> = Vec::new();
    v.push(MenuItem::info(object_name));
    v.push(MenuItem::Separator);
    v.push(MenuItem::action_with_icon("launch", "Launch", "system-run-symbolic"));
    v.push(MenuItem::action_with_icon("launch_terminal", "Launch in Terminal", "utilities-terminal-symbolic"));
    v.push(MenuItem::Separator);
    v.push(MenuItem::action_with_icon("pin_to_desktop", "Pin to Desktop", "view-pin-symbolic"));
    v.push(MenuItem::action_with_icon("add_to_favorites", "Add to Favorites", "starred-symbolic"));
    v.push(MenuItem::Separator);
    v.push(MenuItem::action_with_icon("properties", "Properties", "document-properties-symbolic"));
    proof {
        assert(menu_views(Seq::<MenuItem>::empty()) == Seq::<MenuView>::empty());
        assert(menu_views(v@) =~= application_menu(object_name@));
    }
    v
}

/// The menu of a project called `object_name`.
pub fn build_project_menu(object_name: &str) -> (r: Vec<MenuItem>)
    ensures
        menu_views(r@) == project_menu(object_name@),
{
    broadcast use lemma_menu_views_push;
    let mut v: Vec<MenuItem> = Vec::new();
    v.push(MenuItem::info(object_name));
    v.push(MenuItem::Separator);
    v.push(MenuItem::action_with_icon("open", "Open", "folder-open-symbolic"));
    v.push(MenuItem::action_with_icon("open_in_terminal", "Open in Terminal", "utilities-terminal-symbolic"));
    v.push(MenuItem::Separator);
    v.push(MenuItem::action_with_icon("open_in_editor", "Open in Editor", "text-editor-symbolic"));
    v.push(MenuItem::Separator);
    v.push(MenuItem::action_with_icon("rename", "Rename", "document-edit-symbolic"));
    v.push(MenuItem::action_with_icon("delete", "Delete", "edit-delete-symbolic"));
    v.push(MenuItem::Separator);
    v.push(MenuItem::action_with_icon("properties", "Properties", "document-properties-symbolic"));
    proof {
        assert(menu_views(Seq::<MenuItem>::empty()) == Seq::<MenuView>::empty());
        assert(menu_views(v@) =~= project_menu(object_name@));
    }
    v
}

/// The menu of a shortcut called `object_name`.
pub fn build_shortcut_menu(object_name: &str) -> (r: Vec<MenuItem>)
    ensures
        menu_views(r@) == shortcut_menu(object_name@),
{
    broadcast use lemma_menu_views_push;
    let mut v: Vec<MenuItem> = Vec::new();
    v.push(MenuItem::info(object_name));
    v.push(MenuItem::Separator);
    v.push(MenuItem::action_with_icon("open_target", "Open Target", "go-jump-symbolic"));
    v.push(MenuItem::Separator);
    v.push(MenuItem::action_with_icon("rename", "Rename", "document-edit-symbolic"));
    v.push(MenuItem::action_with_icon("delete", "Delete", "edit-delete-symbolic"));
    v.push(MenuItem::Separator);
    v.push(MenuItem::action_with_icon("properties", "Properties", "document-properties-symbolic"));
    proof {
        assert(menu_views(Seq::<MenuItem>::empty()) == Seq::<MenuView>::empty());
        assert(menu_views(v@) =~= shortcut_menu(object_name@));
    }
    v
}

/// The menu of a desktop widget called `widget_name`.
pub fn build_widget_menu(widget_name: &str) -> (r: Vec<MenuItem>)
    ensures
        menu_views(r@) == widget_menu(widget_name@),
{
    broadcast use lemma_menu_views_push;
    let mut v: Vec<MenuItem> = Vec::new();
    v.push(MenuItem::info(widget_name));
    v.push(MenuItem::Separator);
    v.push(MenuItem::action_with_icon("configure", "Configure", "preferences-system-symbolic"));
    v.push(MenuItem::action_with_icon("move", "Move", "view-dual-symbolic"));
    v.push(MenuItem::action_with_icon("resize", "Resize", "view-fullscreen-symbolic"));
    v.push(MenuItem::Separator);
    v.push(MenuItem::action_with_icon("duplicate", "Duplicate", "edit-copy-symbolic"));
    v.push(MenuItem::Separator);
    v.push(MenuItem::action_with_icon("remove", "Remove from Desktop", "edit-delete-symbolic"));
    proof {
        assert(menu_views(Seq::<MenuItem>::empty()) == Seq::<MenuView>::empty());
        assert(menu_views(v@) =~= widget_menu(widget_name@));
    }
    v
}

/// The menu of a mounted volume called `volume_name`.
pub fn build_volume_menu(volume_name: &str) -> (r: Vec<MenuItem>)
    ensures
        menu_views(r@) == volume_menu(volume_name@),
{
    broadcast use lemma_menu_views_push;
    let mut v: Vec<MenuItem> = Vec::new();
    v.push(MenuItem::info(volume_name));
    v.push(MenuItem::Separator);
    v.push(MenuItem::action_with_icon("open", "Open", "folder-open-symbolic"));
    v.push(MenuItem::action_with_icon("eject", "Eject", "media-eject-symbolic"));
    v.push(MenuItem::action_with_icon("unmount", "Unmount", "media-eject-symbolic"));
    v.push(MenuItem::Separator);
    v.push(MenuItem::action_with_icon("properties", "Properties", "document-properties-symbolic"));
    proof {
        assert(menu_views(Seq::<MenuItem>::empty()) == Seq::<MenuView>::empty());
        assert(menu_views(v@) =~= volume_menu(volume_name@));
    }
    v
}

/// The menu of the trash.
pub fn build_trash_menu() -> (r: Vec<MenuItem>)
    ensures
        menu_views(r@) == trash_menu(),
{
    broadcast use lemma_menu_views_push;
    let mut v: Vec<MenuItem> = Vec::new();
    v.push(MenuItem::action_with_icon("open", "Open Trash", "user-trash-symbolic"));
    v.push(MenuItem::action_with_icon("empty", "Empty Trash", "edit-clear-all-symbolic"));
    v.push(MenuItem::Separator);
    v.push(MenuItem::action_with_icon("properties", "Properties", "document-properties-symbolic"));
    proof {
        assert(menu_views(Seq::<MenuItem>::empty()) == Seq::<MenuView>::empty());
        assert(menu_views(v@) =~= trash_menu());
    }
    v
}

/// The menu of a network location called `object_name`.
pub fn build_network_menu(object_name: &str) -> (r: Vec<MenuItem>)
    ensures
        menu_views(r@) == network_menu(object_name@),
{
    broadcast use lemma_menu_views_push;
    let mut v: Vec<MenuItem> = Vec::new();
    v.push(MenuItem::info(object_name));
    v.push(MenuItem::Separator);
    v.push(MenuItem::action_with_icon("connect", "Connect", "network-connect-symbolic"));
    v.push(MenuItem::action_with_icon("disconnect", "Disconnect", "network-disconnect-symbolic"));
    v.push(MenuItem::Separator);
    v.push(MenuItem::action_with_icon("properties", "Properties", "document-properties-symbolic"));
    proof {
        assert(menu_views(Seq::<MenuItem>::empty()) == Seq::<MenuView>::empty());
        assert(menu_views(v@) =~= network_menu(object_name@));
    }
    v
}

/// The menu of a workspace object called `object_name`.
fn build_workspace_menu(object_name: &str) -> (r: Vec<MenuItem>)
    ensures
        menu_views(r@) == workspace_menu(object_name@),
{
    broadcast use lemma_menu_views_push;
    let mut v: Vec<MenuItem> = Vec::new();
    v.push(MenuItem::info(object_name));
    v.push(MenuItem::Separator);
    v.push(MenuItem::action_with_icon("switch_to", "Switch to Workspace", "go-jump-symbolic"));
    v.push(MenuItem::Separator);
    v.push(MenuItem::action_with_icon("configure", "Configure", "preferences-system-symbolic"));
    proof {
        assert(menu_views(Seq::<MenuItem>::empty()) == Seq::<MenuView>::empty());
        assert(menu_views(v@) =~= workspace_menu(object_name@));
    }
    v
}

/// The menu of the desktop background.
pub fn build_desktop_context_menu() -> (r: Vec<MenuItem>)
    ensures
        menu_views(r@) == desktop_menu(),
{
    broadcast use lemma_menu_views_push;
    let mut widgets: Vec<MenuItem> = Vec::new();
    widgets.push(MenuItem::action("add_clock", "Clock"));
    widgets.push(MenuItem::action("add_calendar", "Calendar"));
    widgets.push(MenuItem::action("add_system_monitor", "System Monitor"));
    widgets.push(MenuItem::action("add_notes", "Notes"));
    widgets.push(MenuItem::action("add_weather", "Weather"));
    proof {
        assert(menu_views(Seq::<MenuItem>::empty()) == Seq::<MenuView>::empty());
        assert(menu_views(widgets@) =~= add_widget_items());
    }
    let mut v: Vec<MenuItem> = Vec::new();
    v.push(MenuItem::action_with_icon("new_folder", "New Folder", "folder-new-symbolic"));
    v.push(MenuItem::action_with_icon("new_file", "New File", "document-new-symbolic"));
    v.push(MenuItem::Separator);
    v.push(MenuItem::submenu("Add Widget", widgets));
    v.push(MenuItem::Separator);
    v.push(
        MenuItem::action_with_icon(
            "change_wallpaper",
            "Change Wallpaper",
            "preferences-desktop-wallpaper-symbolic",
        ),
    );
    v.push(MenuItem::action_with_icon("display_settings", "Display Settings", "video-display-symbolic"));
    v.push(
        MenuItem::action_with_icon("desktop_settings", "Desktop Settings", "preferences-desktop-symbolic"),
    );
    v.push(MenuItem::Separator);
    v.push(MenuItem::action_with_icon("open_terminal", "Open Terminal", "utilities-terminal-symbolic"));
    proof {
        assert(menu_views(v@) =~= desktop_menu());
    }
    v
}

/// The separators of a menu only ever stand between two other entries:
/// never first, never last, never two in a row.
pub open spec fn separators_between(s: Seq<MenuView>) -> bool {
    &&& s.len() > 0 ==> s[0] !is Separator && s.last() !is Separator
    &&& forall|i: int| 0 < i < s.len() ==> !(s[i - 1] is Separator && #[trigger] s[i] is Separator)
}

/// The ids of the actions of a menu, in order.
pub open spec fn action_ids(s: Seq<MenuView>) -> Seq<Seq<char>>
    decreases s.len(),
{
    if s.len() == 0 {
        Seq::empty()
    } else {
        let rest = action_ids(s.drop_last());
        match s.last() {
            MenuView::Action { id, .. } => rest.push(id),
            _ => rest,
        }
    }
}

/// Every action of the menu is enabled and has an icon and no shortcut.
pub open spec fn actions_plain_with_icons(s: Seq<MenuView>) -> bool {
    forall|i: int|
        0 <= i < s.len() ==> (#[trigger] s[i] matches MenuView::Action { icon, shortcut, enabled, .. } ==> (
        enabled && icon is Some && shortcut is None))
}

/// The menu of a folder opens with the folder's name and a separator; its
/// separators only stand between other entries; its actions are open, open
/// in a terminal, copy, cut, rename, delete and properties, in that order,
/// each enabled, with an icon and no shortcut.
pub proof fn law_folder_menu_shape(name: Seq<char>)
    ensures
        folder_menu(name)[0] == (MenuView::Info { label: name }),
        folder_menu(name)[1] is Separator,
        separators_between(folder_menu(name)),
        action_ids(folder_menu(name)) == seq![
            "open"@,
            "open_in_terminal"@,
            "copy"@,
            "cut"@,
            "rename"@,
            "delete"@,
            "properties"@,
        ],
        actions_plain_with_icons(folder_menu(name)),
{
    let m = folder_menu(name);
    reveal_with_fuel(action_ids, 13);
    assert(m.drop_last() =~= m.subrange(0, 11));
    assert(action_ids(m) =~= seq![
        "open"@,
        "open_in_terminal"@,
        "copy"@,
        "cut"@,
        "rename"@,
        "delete"@,
        "properties"@,
    ]);
}

/// Whether some entry of `menu` is the action `id`.
pub fn menu_has_action(menu: &Vec<MenuItem>, id: &str) -> (r: bool)
    ensures
        r == exists|i: int|
            0 <= i < menu@.len() && (#[trigger] menu_view(menu@[i]) matches MenuView::Action {
                id: x,
                ..
            } && x == id@),
{
    let mut i: usize = 0;
    while i < menu.len()
        invariant
            i <= menu.len(),
            forall|j: int|
                0 <= j < i ==> !(#[trigger] menu_view(menu@[j]) matches MenuView::Action {
                    id: x,
                    ..
                } && x == id@),
        decreases menu.len() - i,
    {
        if menu[i].is_action_with_id(id) {
            return true;
        }
        i = i + 1;
    }
    false
}

/// The menu of a desktop object, by its kind.
pub open spec fn object_menu(o: ObjectData) -> Seq<MenuView> {
    match o {
        ObjectData::File { name, .. } => file_menu(name@),
        ObjectData::Folder { name, .. } => folder_menu(name@),
        ObjectData::Application { name, .. } => application_menu(name@),
        ObjectData::Project { name, .. } => project_menu(name@),
        ObjectData::Shortcut { name, .. } => shortcut_menu(name@),
        ObjectData::Widget { name, .. } => widget_menu(name@),
        ObjectData::VolumeObject { name, .. } => volume_menu(name@),
        ObjectData::TrashObject { .. } => trash_menu(),
        ObjectData::NetworkObject { name, .. } => network_menu(name@),
        ObjectData::WorkspaceObject { name, .. } => workspace_menu(name@),
        ObjectData::RecentObject { name, .. } => file_menu(name@),
    }
}

/// The action ids a desktop object's menu offers, by the object's kind.
pub open spec fn object_action_ids(o: ObjectData) -> Seq<Seq<char>> {
    match o {
        ObjectData::File { .. } | ObjectData::RecentObject { .. } => seq![
            "open"@,
            "open_with"@,
            "copy"@,
            "cut"@,
            "paste"@,
            "rename"@,
            "delete"@,
            "properties"@,
        ],
        ObjectData::Folder { .. } => seq![
            "open"@,
            "open_in_terminal"@,
            "copy"@,
            "cut"@,
            "rename"@,
            "delete"@,
            "properties"@,
        ],
        ObjectData::Application { .. } => seq![
            "launch"@,
            "launch_terminal"@,
            "pin_to_desktop"@,
            "add_to_favorites"@,
            "properties"@,
        ],
        ObjectData::Project { .. } => seq![
            "open"@,
            "open_in_terminal"@,
            "open_in_editor"@,
            "rename"@,
            "delete"@,
            "properties"@,
        ],
        ObjectData::Shortcut { .. } => seq!["open_target"@, "rename"@, "delete"@, "properties"@],
        ObjectData::Widget { .. } => seq!["configure"@, "move"@, "resize"@, "duplicate"@, "remove"@],
        ObjectData::VolumeObject { .. } => seq!["open"@, "eject"@, "unmount"@, "properties"@],
        ObjectData::TrashObject { .. } => seq!["open"@, "empty"@, "properties"@],
        ObjectData::NetworkObject { .. } => seq!["connect"@, "disconnect"@, "properties"@],
        ObjectData::WorkspaceObject { .. } => seq!["switch_to"@, "configure"@],
    }
}

/// The name a desktop object's menu opens with; the trash has none.
pub open spec fn object_heading(o: ObjectData) -> Option<Seq<char>> {
    match o {
        ObjectData::File { name, .. } => Some(name@),
        ObjectData::Folder { name, .. } => Some(name@),
        ObjectData::Application { name, .. } => Some(name@),
        ObjectData::Project { name, .. } => Some(name@),
        ObjectData::Shortcut { name, .. } => Some(name@),
        ObjectData::Widget { name, .. } => Some(name@),
        ObjectData::VolumeObject { name, .. } => Some(name@),
        ObjectData::TrashObject { .. } => None,
        ObjectData::NetworkObject { name, .. } => Some(name@),
        ObjectData::WorkspaceObject { name, .. } => Some(name@),
        ObjectData::RecentObject { name, .. } => Some(name@),
    }
}

/// The menu of an application offers to launch it (directly, then in a
/// terminal), pin it to the desktop, add it to the favourites, and show its
/// properties; it opens with the application's name and a separator, and
/// its separators only stand between other entries.
pub proof fn law_application_menu_shape(name: Seq<char>)
    ensures
        application_menu(name)[0] == (MenuView::Info { label: name }),
        application_menu(name)[1] is Separator,
        separators_between(application_menu(name)),
        action_ids(application_menu(name)) == seq![
            "launch"@,
            "launch_terminal"@,
            "pin_to_desktop"@,
            "add_to_favorites"@,
            "properties"@,
        ],
        actions_plain_with_icons(application_menu(name)),
{
    reveal_with_fuel(action_ids, 10);
    assert(action_ids(application_menu(name)) =~= seq![
        "launch"@,
        "launch_terminal"@,
        "pin_to_desktop"@,
        "add_to_favorites"@,
        "properties"@,
    ]);
}

proof fn lemma_file_menu_shape(name: Seq<char>)
    ensures
        file_menu(name)[0] == (MenuView::Info { label: name }),
        file_menu(name)[1] is Separator,
        separators_between(file_menu(name)),
        action_ids(file_menu(name)) == seq!["open"@, "open_with"@, "copy"@, "cut"@, "paste"@, "rename"@, "delete"@, "properties"@],
        actions_plain_with_icons(file_menu(name)),
{
    reveal_with_fuel(action_ids, 14);
    assert(action_ids(file_menu(name)) =~= seq!["open"@, "open_with"@, "copy"@, "cut"@, "paste"@, "rename"@, "delete"@, "properties"@]);
}

proof fn lemma_project_menu_shape(name: Seq<char>)
    ensures
        project_menu(name)[0] == (MenuView::Info { label: name }),
        project_menu(name)[1] is Separator,
        separators_between(project_menu(name)),
        action_ids(project_menu(name)) == seq!["open"@, "open_in_terminal"@, "open_in_editor"@, "rename"@, "delete"@, "properties"@],
        actions_plain_with_icons(project_menu(name)),
{
    reveal_with_fuel(action_ids, 13);
    assert(action_ids(project_menu(name)) =~= seq!["open"@, "open_in_terminal"@, "open_in_editor"@, "rename"@, "delete"@, "properties"@]);
}

proof fn lemma_shortcut_menu_shape(name: Seq<char>)
    ensures
        shortcut_menu(name)[0] == (MenuView::Info { label: name }),
        shortcut_menu(name)[1] is Separator,
        separators_between(shortcut_menu(name)),
        action_ids(shortcut_menu(name)) == seq!["open_target"@, "rename"@, "delete"@, "properties"@],
        actions_plain_with_icons(shortcut_menu(name)),
{
    reveal_with_fuel(action_ids, 9);
    assert(action_ids(shortcut_menu(name)) =~= seq!["open_target"@, "rename"@, "delete"@, "properties"@]);
}

proof fn lemma_widget_menu_shape(name: Seq<char>)
    ensures
        widget_menu(name)[0] == (MenuView::Info { label: name }),
        widget_menu(name)[1] is Separator,
        separators_between(widget_menu(name)),
        action_ids(widget_menu(name)) == seq!["configure"@, "move"@, "resize"@, "duplicate"@, "remove"@],
        actions_plain_with_icons(widget_menu(name)),
{
    reveal_with_fuel(action_ids, 10);
    assert(action_ids(widget_menu(name)) =~= seq!["configure"@, "move"@, "resize"@, "duplicate"@, "remove"@]);
}

proof fn lemma_volume_menu_shape(name: Seq<char>)
    ensures
        volume_menu(name)[0] == (MenuView::Info { label: name }),
        volume_menu(name)[1] is Separator,
        separators_between(volume_menu(name)),
        action_ids(volume_menu(name)) == seq!["open"@, "eject"@, "unmount"@, "properties"@],
        actions_plain_with_icons(volume_menu(name)),
{
    reveal_with_fuel(action_ids, 8);
    assert(action_ids(volume_menu(name)) =~= seq!["open"@, "eject"@, "unmount"@, "properties"@]);
}

proof fn lemma_trash_menu_shape()
    ensures
        separators_between(trash_menu()),
        action_ids(trash_menu()) == seq!["open"@, "empty"@, "properties"@],
        actions_plain_with_icons(trash_menu()),
{
    reveal_with_fuel(action_ids, 5);
    assert(action_ids(trash_menu()) =~= seq!["open"@, "empty"@, "properties"@]);
}

proof fn lemma_network_menu_shape(name: Seq<char>)
    ensures
        network_menu(name)[0] == (MenuView::Info { label: name }),
        network_menu(name)[1] is Separator,
        separators_between(network_menu(name)),
        action_ids(network_menu(name)) == seq!["connect"@, "disconnect"@, "properties"@],
        actions_plain_with_icons(network_menu(name)),
{
    reveal_with_fuel(action_ids, 7);
    assert(action_ids(network_menu(name)) =~= seq!["connect"@, "disconnect"@, "properties"@]);
}

proof fn lemma_workspace_menu_shape(name: Seq<char>)
    ensures
        workspace_menu(name)[0] == (MenuView::Info { label: name }),
        workspace_menu(name)[1] is Separator,
        separators_between(workspace_menu(name)),
        action_ids(workspace_menu(name)) == seq!["switch_to"@, "configure"@],
        actions_plain_with_icons(workspace_menu(name)),
{
    reveal_with_fuel(action_ids, 6);
    assert(action_ids(workspace_menu(name)) =~= seq!["switch_to"@, "configure"@]);
}

/// What the menu of each kind of desktop object offers: its actions, in
/// order, are those of its kind (an application is launched, a file or a
/// recent document opened, ...), each enabled with an icon and no shortcut;
/// it opens with the object's name and a separator (the trash's with its
/// actions), and its separators only stand between other entries.
pub proof fn law_object_menu_by_kind(o: ObjectData)
    ensures
        action_ids(object_menu(o)) == object_action_ids(o),
        actions_plain_with_icons(object_menu(o)),
        separators_between(object_menu(o)),
        object_heading(o) matches Some(n) ==> object_menu(o)[0] == (MenuView::Info { label: n })
            && object_menu(o)[1] is Separator,
{
    match o {
        ObjectData::File { name, .. } => lemma_file_menu_shape(name@),
        ObjectData::Folder { name, .. } => law_folder_menu_shape(name@),
        ObjectData::Application { name, .. } => law_application_menu_shape(name@),
        ObjectData::Project { name, .. } => lemma_project_menu_shape(name@),
        ObjectData::Shortcut { name, .. } => lemma_shortcut_menu_shape(name@),
        ObjectData::Widget { name, .. } => lemma_widget_menu_shape(name@),
        ObjectData::VolumeObject { name, .. } => lemma_volume_menu_shape(name@),
        ObjectData::TrashObject { .. } => lemma_trash_menu_shape(),
        ObjectData::NetworkObject { name, .. } => lemma_network_menu_shape(name@),
        ObjectData::WorkspaceObject { name, .. } => lemma_workspace_menu_shape(name@),
        ObjectData::RecentObject { name, .. } => lemma_file_menu_shape(name@),
    }
}

/// The context menu of a desktop object: a recent document has a file's
/// menu, a workspace its own.
pub fn menu_for_object(obj: &ObjectData) -> (r: Vec<MenuItem>)
    ensures
        menu_views(r@) == object_menu(*obj),
{
    match obj {
        ObjectData::File { name, .. } => build_file_menu(name.as_str()),
        ObjectData::Folder { name, .. } => build_folder_menu(name.as_str()),
        ObjectData::Application { name, .. } => build_application_menu(name.as_str()),
        ObjectData::Project { name, .. } => build_project_menu(name.as_str()),
        ObjectData::Shortcut { name, .. } => build_shortcut_menu(name.as_str()),
        ObjectData::Widget { name, .. } => build_widget_menu(name.as_str()),
        ObjectData::VolumeObject { name, .. } => build_volume_menu(name.as_str()),
        ObjectData::TrashObject { .. } => build_trash_menu(),
        ObjectData::NetworkObject { name, .. } => build_network_menu(name.as_str()),
        ObjectData::WorkspaceObject { name, .. } => build_workspace_menu(name.as_str()),
        ObjectData::RecentObject { name, .. } => build_file_menu(name.as_str()),
    }
}

} // verus!
