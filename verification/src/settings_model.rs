//! The settings screen's view of the configuration: it reads and changes the
//! wallpaper, the theme, the panel layout and the key bindings. Loading and
//! saving the file is the caller's part; the model works on the loaded value.
use vstd::prelude::*;

use crate::app_registry::{contains_view, sorted_distinct};
use crate::config::{
    wallpaper_for, KeybindConfig, PanelConfig, PanelWidgetConfig, ShellConfig, WallpaperConfig,
    WidgetKind, XarphConfig,
};
use crate::text::{join_path, known_or_empty, or_empty, owned, path_join, sorted_views, string_views};

verus! {

/// The settings model.
pub struct SettingsModel;

/// `j` is the first widget of `ws` of the given kind.
pub open spec fn first_of_kind(ws: Seq<PanelWidgetConfig>, kind: WidgetKind, j: int) -> bool {
    &&& 0 <= j < ws.len()
    &&& ws[j].kind == kind
    &&& forall|i: int| 0 <= i < j ==> (#[trigger] ws[i]).kind != kind
}

/// The widget `w` shown or hidden.
pub open spec fn shown(w: PanelWidgetConfig, visible: bool) -> PanelWidgetConfig {
    PanelWidgetConfig { visible, ..w }
}

/// `ws` with its first widget of the given kind shown or hidden; unchanged
/// when there is none.
pub open spec fn with_kind_visible(ws: Seq<PanelWidgetConfig>, kind: WidgetKind, visible: bool) -> Seq<
    PanelWidgetConfig,
> {
    if exists|j: int| first_of_kind(ws, kind, j) {
        let j = choose|j: int| first_of_kind(ws, kind, j);
        ws.update(j, shown(ws[j], visible))
    } else {
        ws
    }
}

/// `b` is `a` but for its widgets.
pub open spec fn same_panel_but_widgets(a: PanelConfig, b: PanelConfig) -> bool {
    &&& a.id == b.id
    &&& a.output == b.output
    &&& a.position == b.position
    &&& a.anchor == b.anchor
    &&& a.size == b.size
    &&& a.spacing == b.spacing
    &&& a.exclusive_zone == b.exclusive_zone
}

/// `b` is `a` but for the panels of its shell layout.
pub open spec fn same_config_but_panels(a: XarphConfig, b: XarphConfig) -> bool {
    &&& b == XarphConfig { shell: b.shell, ..a }
    &&& a.shell.version == b.shell.version
    &&& a.shell.metrics_interval_secs == b.shell.metrics_interval_secs
    &&& a.shell.includes == b.shell.includes
}

proof fn lemma_first_of_kind_unique(ws: Seq<PanelWidgetConfig>, kind: WidgetKind, j: int, k: int)
    requires
        first_of_kind(ws, kind, j),
        first_of_kind(ws, kind, k),
    ensures
        j == k,
{
    if j < k {
        assert(ws[j].kind != kind);
    } else if k < j {
        assert(ws[k].kind != kind);
    }
}

/// Showing or hiding the widgets of a kind changes the first of them, which
/// then reads back as set, and no other widget; the widgets keep their kinds
/// and order.
pub proof fn law_panel_widget_read_after_write(
    ws: Seq<PanelWidgetConfig>,
    kind: WidgetKind,
    visible: bool,
    j: int,
)
    requires
        first_of_kind(ws, kind, j),
    ensures
        ({
            let after = with_kind_visible(ws, kind, visible);
            &&& after.len() == ws.len()
            &&& first_of_kind(after, kind, j)
            &&& after[j].visible == visible
            &&& after[j] == shown(ws[j], visible)
            &&& forall|i: int| 0 <= i < ws.len() && i != j ==> after[i] == ws[i]
        }),
{
    let k = choose|k: int| first_of_kind(ws, kind, k);
    lemma_first_of_kind_unique(ws, kind, j, k);
}

impl SettingsModel {
    /// The global wallpaper.
    pub fn get_wallpaper(&self, config: &XarphConfig) -> (r: WallpaperConfig)
        ensures
            r == config.wallpaper_global,
    {
        config.wallpaper_global.duplicate()
    }

    /// Replaces the global wallpaper; nothing else changes.
    pub fn set_wallpaper(&self, config: &mut XarphConfig, wallpaper: WallpaperConfig)
        ensures
            *final(config) == (XarphConfig { wallpaper_global: wallpaper, ..*old(config) }),
    {
        config.wallpaper_global = wallpaper;
    }

    /// The wallpaper that workspace `workspace_id` shows.
    pub fn get_workspace_wallpaper(&self, config: &XarphConfig, workspace_id: u8) -> (r: WallpaperConfig)
        ensures
            r == wallpaper_for(*config, workspace_id),
    {
        config.get_wallpaper_for_workspace(workspace_id).duplicate()
    }

    /// Gives workspace `workspace_id` its own wallpaper.
    pub fn set_workspace_wallpaper(&self, config: &mut XarphConfig, workspace_id: u8, wallpaper: WallpaperConfig)
        ensures
            final(config).workspace_wallpapers@ == old(config).workspace_wallpapers@.insert(
                workspace_id,
                crate::config::WorkspaceWallpaper { wallpaper: Some(wallpaper) },
            ),
            final(config).wallpaper_global == old(config).wallpaper_global,
            final(config).theme == old(config).theme,
            final(config).shell == old(config).shell,
    {
        config.set_workspace_wallpaper(workspace_id, wallpaper);
    }

    /// The configured theme.
    pub fn get_theme(&self, config: &XarphConfig) -> (r: Option<String>)
        ensures
            r == config.theme,
    {
        config.get_theme_name()
    }

    /// Chooses the theme; nothing else changes.
    pub fn set_theme(&self, config: &mut XarphConfig, theme: &str)
        ensures
            final(config).theme matches Some(t) && t@ == theme@,
            *final(config) == (XarphConfig { theme: final(config).theme, ..*old(config) }),
    {
        config.theme = Some(owned(theme));
    }

    /// The directories searched for themes, for the home and data
    /// directories given: the system's, then `.themes` in the home directory
    /// and `themes` in the data directory (an unknown directory counting as
    /// the empty path).
    pub fn theme_dirs_in(home: Option<String>, data: Option<String>) -> (r: Vec<String>)
        ensures
            r@.len() == 3,
            r@[0]@ == "/usr/share/themes"@,
            r@[1]@ == path_join(known_or_empty(home), ".themes"@),
            r@[2]@ == path_join(known_or_empty(data), "themes"@),
    {
        let home = or_empty(home);
        let data = or_empty(data);
        let mut v: Vec<String> = Vec::new();
        v.push(owned("/usr/share/themes"));
        v.push(join_path(home.as_str(), ".themes"));
        v.push(join_path(data.as_str(), "themes"));
        v
    }

    /// The directories searched for themes, under the user's home and data
    /// directories as the environment gives them.
    pub fn theme_dirs() -> (r: Vec<String>)
        ensures
            r@.len() == 3,
            r@[0]@ == "/usr/share/themes"@,
            exists|home: Seq<char>| r@[1]@ == path_join(home, ".themes"@),
            exists|data: Seq<char>| r@[2]@ == path_join(data, "themes"@),
    {
        let home = crate::locations::home_dir();
        let data = crate::locations::data_dir();
        let r = Self::theme_dirs_in(home, data);
        proof {
            assert(r@[1]@ == path_join(known_or_empty(home), ".themes"@));
            assert(r@[2]@ == path_join(known_or_empty(data), "themes"@));
        }
        r
    }

    /// The paths whose presence marks a theme directory as carrying a Qt
    /// style: its `qt6` and `QtProject` entries.
    pub fn qt_style_paths(theme_dir: &str) -> (r: Vec<String>)
        ensures
            r@.len() == 2,
            r@[0]@ == path_join(theme_dir@, "qt6"@),
            r@[1]@ == path_join(theme_dir@, "QtProject"@),
    {
        let mut v: Vec<String> = Vec::new();
        v.push(join_path(theme_dir, "qt6"));
        v.push(join_path(theme_dir, "QtProject"));
        v
    }

    /// The names of the installed themes that carry a Qt style, found in the
    /// theme directories: in lexicographic order, each once.
    pub fn get_available_themes(found: Vec<String>) -> (r: Vec<String>)
        ensures
            sorted_views(string_views(r@)),
            forall|i: int| 0 < i < r@.len() ==> r@[i - 1]@ != (#[trigger] r@[i])@,
            forall|c: Seq<char>|
                #![trigger contains_view(r@, c)]
                #![trigger contains_view(found@, c)]
                contains_view(r@, c) <==> contains_view(found@, c),
    {
        sorted_distinct(found)
    }

    /// The panel layout.
    pub fn get_panel_config(&self, config: XarphConfig) -> (r: ShellConfig)
        ensures
            r == config.shell,
    {
        config.shell
    }

    /// Shows or hides, on the first panel, the first widget of the given
    /// kind; nothing else changes, and nothing at all without a panel or
    /// such a widget.
    pub fn set_panel_visible(&self, config: &mut XarphConfig, widget_kind: &WidgetKind, visible: bool)
        ensures
            same_config_but_panels(*old(config), *final(config)),
            final(config).shell.panels@.len() == old(config).shell.panels@.len(),
            final(config).shell.panels@.skip(1) == old(config).shell.panels@.skip(1),
            old(config).shell.panels@.len() > 0 ==> {
                let p = old(config).shell.panels@[0];
                let q = final(config).shell.panels@[0];
                &&& same_panel_but_widgets(p, q)
                &&& q.widgets@ == with_kind_visible(p.widgets@, *widget_kind, visible)
            },
    {
        let ghost before = *config;
        let mut panels: Vec<PanelConfig> = Vec::new();
        std::mem::swap(&mut panels, &mut config.shell.panels);
        if panels.len() > 0 {
            let mut first = panels.remove(0);
            let ghost ws = first.widgets@;
            let mut j: usize = 0;
            while j < first.widgets.len() && first.widgets[j].kind != *widget_kind
                invariant
                    j <= first.widgets@.len(),
                    first.widgets@ == ws,
                    forall|i: int| 0 <= i < j ==> (#[trigger] ws[i]).kind != *widget_kind,
                decreases first.widgets.len() - j,
            {
                j = j + 1;
            }
            if j < first.widgets.len() {
                let mut w = first.widgets.remove(j);
                w.visible = visible;
                first.widgets.insert(j, w);
                proof {
                    assert(first_of_kind(ws, *widget_kind, j as int));
                    let k = choose|k: int| first_of_kind(ws, *widget_kind, k);
                    lemma_first_of_kind_unique(ws, *widget_kind, j as int, k);
                    assert(first.widgets@ =~= ws.update(j as int, shown(ws[j as int], visible)));
                }
            } else {
                proof {
                    assert(!exists|k: int| first_of_kind(ws, *widget_kind, k));
                }
            }
            panels.insert(0, first);
        }
        std::mem::swap(&mut panels, &mut config.shell.panels);
        proof {
            assert(config.shell.panels@.skip(1) =~= before.shell.panels@.skip(1));
        }
    }

    /// The key bindings.
    pub fn get_keybinds(&self, config: XarphConfig) -> (r: KeybindConfig)
        ensures
            r == config.keybind_config,
    {
        config.keybind_config
    }
}

} // verus!
