//! The shell configuration: wallpapers, panels and their widgets, keybinds,
//! notifications, gaming mode and themes, with their defaults and the rules
//! by which a configuration directory is assembled into one configuration.
//!
//! Where the configuration holds a floating-point number (font sizes and
//! radii), the library keeps its IEEE-754 bit pattern (`f32::to_bits`): the
//! value is carried through unchanged and never computed with.
use vstd::prelude::*;

use std::collections::HashMap;

use crate::text::{
    chars_of, ends_with, extend_str, join_path, owned, path_join, sort_strings, string_of, string_views,
    sorted_views,
};

verus! {

broadcast use vstd::std_specs::hash::group_hash_axioms;

// ── Wallpaper configuration ─────────────────────────────────────────────

/// How an image wallpaper is fitted to the screen.
#[derive(Debug, Clone, Copy, PartialEq, Eq, Structural)]
pub enum WallpaperMode {
    Fill,
    Fit,
    Stretch,
    Center,
    Tile,
}

impl Default for WallpaperMode {
    fn default() -> (r: Self)
        ensures
            r == WallpaperMode::Fill,
    {
        WallpaperMode::Fill
    }
}

/// A wallpaper: an image file with a fitting mode, or a plain colour.
#[derive(Debug, Clone)]
pub enum WallpaperConfig {
    Image { path: String, mode: WallpaperMode },
    Color { hex: String },
}

impl WallpaperConfig {
    /// An identical copy.
    pub fn duplicate(&self) -> (r: Self)
        ensures
            r == *self,
    {
        match self {
            WallpaperConfig::Image { path, mode } => WallpaperConfig::Image {
                path: path.clone(),
                mode: *mode,
            },
            WallpaperConfig::Color { hex } => WallpaperConfig::Color { hex: hex.clone() },
        }
    }
}

/// Whether `w` is the default wallpaper, the colour `#1a1b26`.
pub open spec fn is_default_wallpaper(w: WallpaperConfig) -> bool {
    w matches WallpaperConfig::Color { hex } && hex@ == "#1a1b26"@
}

impl Default for WallpaperConfig {
    fn default() -> (r: Self)
        ensures
            is_default_wallpaper(r),
    {
        WallpaperConfig::Color { hex: owned("#1a1b26") }
    }
}

/// The wallpaper chosen for one workspace, if any.
#[derive(Debug, Clone)]
pub struct WorkspaceWallpaper {
    pub wallpaper: Option<WallpaperConfig>,
}

impl Default for WorkspaceWallpaper {
    fn default() -> (r: Self)
        ensures
            r.wallpaper is None,
    {
        WorkspaceWallpaper { wallpaper: None }
    }
}

// ── Panels ──────────────────────────────────────────────────────────────

/// The screen edge a panel is attached to.
#[derive(Debug, Clone, Copy, PartialEq, Eq, Structural)]
pub enum PanelPosition {
    Top,
    Bottom,
    Left,
    Right,
}

impl Default for PanelPosition {
    fn default() -> (r: Self)
        ensures
            r == PanelPosition::Top,
    {
        PanelPosition::Top
    }
}

impl PanelPosition {
    /// Whether a panel at this edge runs horizontally.
    pub fn is_horizontal(self) -> (r: bool)
        ensures
            r == (self == PanelPosition::Top || self == PanelPosition::Bottom),
    {
        match self {
            PanelPosition::Top | PanelPosition::Bottom => true,
            _ => false,
        }
    }
}

/// How a panel is laid out along its edge.
#[derive(Debug, Clone, Copy, PartialEq, Eq, Structural)]
pub enum PanelAnchor {
    Fill,
    Start,
    End,
}

impl Default for PanelAnchor {
    fn default() -> (r: Self)
        ensures
            r == PanelAnchor::Fill,
    {
        PanelAnchor::Fill
    }
}

/// The part of a panel a widget sits in.
#[derive(Debug, Clone, Copy, PartialEq, Eq, Structural)]
pub enum PanelSection {
    Start,
    Center,
    End,
}

impl Default for PanelSection {
    fn default() -> (r: Self)
        ensures
            r == PanelSection::Start,
    {
        PanelSection::Start
    }
}

/// The kinds of panel widget.
#[derive(Debug, Clone, Copy, PartialEq, Eq, Structural)]
pub enum WidgetKind {
    StartButton,
    Launcher,
    Workspaces,
    Clock,
    Network,
    System,
    Tray,
    ConfigButton,
}

impl Default for WidgetKind {
    fn default() -> (r: Self)
        ensures
            r == WidgetKind::Clock,
    {
        WidgetKind::Clock
    }
}

/// One widget of a panel.
#[derive(Debug, Clone)]
pub struct PanelWidgetConfig {
    pub id: String,
    pub kind: WidgetKind,
    pub section: PanelSection,
    pub visible: bool,
    pub label: Option<String>,
    pub clock_format: Option<String>,
    pub date_format: Option<String>,
    pub icon_size: Option<i32>,
    pub show_cpu: Option<bool>,
    pub show_ram: Option<bool>,
    pub network_interface: Option<String>,
    pub interval_ms: Option<u64>,
    pub max_visible: Option<usize>,
}

/// A widget with the given id, kind and section and every other setting at
/// its default (visible, nothing else set).
pub open spec fn is_plain_widget(
    w: PanelWidgetConfig,
    id: Seq<char>,
    kind: WidgetKind,
    section: PanelSection,
) -> bool {
    &&& w.id@ == id
    &&& w.kind == kind
    &&& w.section == section
    &&& w.visible
    &&& w.label is None
    &&& w.icon_size is None
    &&& w.show_cpu is None
    &&& w.show_ram is None
    &&& w.network_interface is None
    &&& w.interval_ms is None
    &&& w.max_visible is None
}

impl Default for PanelWidgetConfig {
    fn default() -> (r: Self)
        ensures
            is_plain_widget(r, Seq::empty(), WidgetKind::Clock, PanelSection::Start),
            r.clock_format is None,
            r.date_format is None,
    {
        PanelWidgetConfig {
            id: String::new(),
            kind: WidgetKind::Clock,
            section: PanelSection::Start,
            visible: true,
            label: None,
            clock_format: None,
            date_format: None,
            icon_size: None,
            show_cpu: None,
            show_ram: None,
            network_interface: None,
            interval_ms: None,
            max_visible: None,
        }
    }
}

fn plain_widget(id: &str, kind: WidgetKind, section: PanelSection) -> (r: PanelWidgetConfig)
    ensures
        is_plain_widget(r, id@, kind, section),
        r.clock_format is None,
        r.date_format is None,
{
    PanelWidgetConfig {
        id: owned(id),
        kind,
        section,
        visible: true,
        label: None,
        clock_format: None,
        date_format: None,
        icon_size: None,
        show_cpu: None,
        show_ram: None,
        network_interface: None,
        interval_ms: None,
        max_visible: None,
    }
}

/// The widgets of the default panel: start button and workspaces at the
/// start, the clock in the centre, network, system and tray at the end.
pub open spec fn is_default_panel_widgets(ws: Seq<PanelWidgetConfig>) -> bool {
    &&& ws.len() == 6
    &&& is_plain_widget(ws[0], "start"@, WidgetKind::StartButton, PanelSection::Start)
    &&& ws[0].clock_format is None && ws[0].date_format is None
    &&& is_plain_widget(ws[1], "workspaces"@, WidgetKind::Workspaces, PanelSection::Start)
    &&& ws[1].clock_format is None && ws[1].date_format is None
    &&& is_plain_widget(ws[2], "clock"@, WidgetKind::Clock, PanelSection::Center)
    &&& ws[2].clock_format matches Some(f) && f@ == "%H:%M"@
    &&& ws[2].date_format matches Some(f) && f@ == "%a %d %b"@
    &&& is_plain_widget(ws[3], "network"@, WidgetKind::Network, PanelSection::End)
    &&& ws[3].clock_format is None && ws[3].date_format is None
    &&& is_plain_widget(ws[4], "system"@, WidgetKind::System, PanelSection::End)
    &&& ws[4].clock_format is None && ws[4].date_format is None
    &&& is_plain_widget(ws[5], "tray"@, WidgetKind::Tray, PanelSection::End)
    &&& ws[5].clock_format is None && ws[5].date_format is None
}

/// The widgets of the default panel.
pub fn default_panel_widgets() -> (r: Vec<PanelWidgetConfig>)
    ensures
        is_default_panel_widgets(r@),
{
    let mut v: Vec<PanelWidgetConfig> = Vec::new();
    v.push(plain_widget("start", WidgetKind::StartButton, PanelSection::Start));
    v.push(plain_widget("workspaces", WidgetKind::Workspaces, PanelSection::Start));
    let mut clock = plain_widget("clock", WidgetKind::Clock, PanelSection::Center);
    clock.clock_format = Some(owned("%H:%M"));
    clock.date_format = Some(owned("%a %d %b"));
    v.push(clock);
    v.push(plain_widget("network", WidgetKind::Network, PanelSection::End));
    v.push(plain_widget("system", WidgetKind::System, PanelSection::End));
    v.push(plain_widget("tray", WidgetKind::Tray, PanelSection::End));
    v
}

/// One panel.
#[derive(Debug, Clone)]
pub struct PanelConfig {
    pub id: String,
    pub output: Option<String>,
    pub position: PanelPosition,
    pub anchor: PanelAnchor,
    pub size: i32,
    pub spacing: i32,
    pub exclusive_zone: Option<i32>,
    pub widgets: Vec<PanelWidgetConfig>,
}

/// Whether `p` is the default panel: `top`, 46 pixels along the top edge,
/// filling it, spacing 6, with the default widgets.
pub open spec fn is_default_panel(p: PanelConfig) -> bool {
    &&& p.id@ == "top"@
    &&& p.output is None
    &&& p.position == PanelPosition::Top
    &&& p.anchor == PanelAnchor::Fill
    &&& p.size == 46
    &&& p.spacing == 6
    &&& p.exclusive_zone is None
    &&& is_default_panel_widgets(p.widgets@)
}

impl Default for PanelConfig {
    fn default() -> (r: Self)
        ensures
            is_default_panel(r),
    {
        PanelConfig {
            id: owned("top"),
            output: None,
            position: PanelPosition::Top,
            anchor: PanelAnchor::Fill,
            size: 46,
            spacing: 6,
            exclusive_zone: None,
            widgets: default_panel_widgets(),
        }
    }
}

/// The layout of the shell: its panels and where their files are.
#[derive(Debug, Clone)]
pub struct ShellConfig {
    pub version: u32,
    pub metrics_interval_secs: u64,
    pub includes: Vec<String>,
    pub panels: Vec<PanelConfig>,
}

/// Whether `s` is the default layout: version 1, metrics every 2 seconds,
/// panels read from `panels/*.conf`, one default panel.
pub open spec fn is_default_shell(s: ShellConfig) -> bool {
    &&& s.version == 1
    &&& s.metrics_interval_secs == 2
    &&& s.includes@.len() == 1
    &&& s.includes@[0]@ == "panels/*.conf"@
    &&& s.panels@.len() == 1
    &&& is_default_panel(s.panels@[0])
}

impl Default for ShellConfig {
    fn default() -> (r: Self)
        ensures
            is_default_shell(r),
    {
        let mut includes: Vec<String> = Vec::new();
        includes.push(owned("panels/*.conf"));
        let mut panels: Vec<PanelConfig> = Vec::new();
        panels.push(PanelConfig::default());
        ShellConfig { version: 1, metrics_interval_secs: 2, includes, panels }
    }
}

// ── Themes ──────────────────────────────────────────────────────────────

/// Light, dark or following the system.
#[derive(Debug, Clone, Copy, PartialEq, Eq, Structural)]
pub enum ThemeVariant {
    Light,
    Dark,
    Auto,
}

impl Default for ThemeVariant {
    fn default() -> (r: Self)
        ensures
            r == ThemeVariant::Dark,
    {
        ThemeVariant::Dark
    }
}

/// The colours of a theme.
#[derive(Debug, Clone)]
pub struct ThemeColors {
    pub primary: String,
    pub secondary: String,
    pub background: String,
    pub surface: String,
    pub error: String,
    pub on_primary: String,
    pub on_secondary: String,
    pub on_background: String,
    pub on_surface: String,
    pub on_error: String,
}

/// The fonts of a theme; sizes as `f32` bit patterns.
#[derive(Debug, Clone)]
pub struct ThemeFonts {
    pub family: String,
    pub size_bits: u32,
    pub bold_size_bits: u32,
    pub monospace_family: String,
}

/// The icon themes of a theme.
#[derive(Debug, Clone)]
pub struct ThemeIcons {
    pub theme: String,
    pub fallback: String,
}

/// A theme's settings.
#[derive(Debug, Clone)]
pub struct ThemeConfig {
    pub name: String,
    pub variant: ThemeVariant,
    pub colors: Option<ThemeColors>,
    pub fonts: Option<ThemeFonts>,
    pub icons: Option<ThemeIcons>,
}

/// Where a theme came from and when.
#[derive(Debug, Clone)]
pub struct ThemeMetadata {
    pub created: String,
    pub modified: String,
    pub tags: Vec<String>,
    pub preview: Option<String>,
}

// ── Desktop widgets ─────────────────────────────────────────────────────

/// The position of a desktop widget in pixels.
#[derive(Debug, Clone, Copy, PartialEq, Eq, Structural)]
pub struct WidgetPosition {
    pub x: i32,
    pub y: i32,
}

impl Default for WidgetPosition {
    fn default() -> (r: Self)
        ensures
            r.x == 0 && r.y == 0,
    {
        WidgetPosition { x: 0, y: 0 }
    }
}

/// The size of a desktop widget in pixels.
#[derive(Debug, Clone, Copy, PartialEq, Eq, Structural)]
pub struct WidgetSize {
    pub width: i32,
    pub height: i32,
}

impl Default for WidgetSize {
    fn default() -> (r: Self)
        ensures
            r.width == 0 && r.height == 0,
    {
        WidgetSize { width: 0, height: 0 }
    }
}

/// How a desktop widget is drawn; font size and radius as `f32` bit patterns.
#[derive(Debug, Clone)]
pub struct WidgetStyling {
    pub color: String,
    pub background_color: String,
    pub font_size_bits: u32,
    pub border_radius_bits: u32,
}

/// Settings a desktop widget may carry.
#[derive(Debug, Clone)]
pub struct WidgetSpecificConfig {
    pub position: Option<WidgetPosition>,
    pub size: Option<WidgetSize>,
    pub styling: Option<WidgetStyling>,
}

/// Whether a desktop widget is shown, and its settings.
#[derive(Debug, Clone)]
pub struct WidgetVisibility {
    pub visible: bool,
    pub config: Option<WidgetSpecificConfig>,
}

/// The desktop widgets the shell knows by name.
#[derive(Debug, Clone)]
pub struct WidgetConfig {
    pub launcher: WidgetVisibility,
    pub workspaces: WidgetVisibility,
    pub clock: WidgetVisibility,
    pub system: WidgetVisibility,
    pub network: WidgetVisibility,
}

// ── Keybinds ────────────────────────────────────────────────────────────

/// The key combinations of the shell's actions.
#[derive(Debug, Clone)]
pub struct KeybindConfig {
    pub key_quit: String,
    pub key_lock: String,
    pub key_terminal: String,
    pub key_launcher: String,
    pub key_close_window: String,
    pub key_toggle_floating: String,
    pub key_toggle_overview: String,
    pub key_screenshot: String,
    pub key_workspace_prev: String,
    pub key_workspace_next: String,
    pub key_focus_left: String,
    pub key_focus_right: String,
    pub key_focus_up: String,
    pub key_focus_down: String,
    pub key_move_left: String,
    pub key_move_right: String,
    pub key_move_up: String,
    pub key_move_down: String,
}

/// Whether `k` holds the default key combinations.
pub open spec fn is_default_keybinds(k: KeybindConfig) -> bool {
    &&& k.key_quit@ == "Ctrl+Alt+Backspace"@
    &&& k.key_lock@ == "Super+Alt+L"@
    &&& k.key_terminal@ == "Super+T"@
    &&& k.key_launcher@ == "Super+D"@
    &&& k.key_close_window@ == "Super+Q"@
    &&& k.key_toggle_floating@ == "Super+Space"@
    &&& k.key_toggle_overview@ == "Super+O"@
    &&& k.key_screenshot@ == "Print"@
    &&& k.key_workspace_prev@ == "Super+Page_Down"@
    &&& k.key_workspace_next@ == "Super+Page_Up"@
    &&& k.key_focus_left@ == "Super+Left"@
    &&& k.key_focus_right@ == "Super+Right"@
    &&& k.key_focus_up@ == "Super+Up"@
    &&& k.key_focus_down@ == "Super+Down"@
    &&& k.key_move_left@ == "Super+Shift+Left"@
    &&& k.key_move_right@ == "Super+Shift+Right"@
    &&& k.key_move_up@ == "Super+Shift+Up"@
    &&& k.key_move_down@ == "Super+Shift+Down"@
}

impl Default for KeybindConfig {
    fn default() -> (r: Self)
        ensures
            is_default_keybinds(r),
    {
        KeybindConfig {
            key_quit: owned("Ctrl+Alt+Backspace"),
            key_lock: owned("Super+Alt+L"),
            key_terminal: owned("Super+T"),
            key_launcher: owned("Super+D"),
            key_close_window: owned("Super+Q"),
            key_toggle_floating: owned("Super+Space"),
            key_toggle_overview: owned("Super+O"),
            key_screenshot: owned("Print"),
            key_workspace_prev: owned("Super+Page_Down"),
            key_workspace_next: owned("Super+Page_Up"),
            key_focus_left: owned("Super+Left"),
            key_focus_right: owned("Super+Right"),
            key_focus_up: owned("Super+Up"),
            key_focus_down: owned("Super+Down"),
            key_move_left: owned("Super+Shift+Left"),
            key_move_right: owned("Super+Shift+Right"),
            key_move_up: owned("Super+Shift+Up"),
            key_move_down: owned("Super+Shift+Down"),
        }
    }
}

// ── Automation ──────────────────────────────────────────────────────────

/// `serde_json::Value`, carried through as the parameters of an automation
/// action.
#[verifier::external_type_specification]
#[verifier::external_body]
pub struct ExJsonValue(serde_json::Value);

/// What starts an automation rule.
#[derive(Debug, Clone)]
pub enum AutomationTrigger {
    OnStartup,
    OnTime { hour: u8, minute: u8 },
    OnWindowEvent { event_type: WindowEventType },
    OnSystemEvent { event_type: SystemEventType },
    OnKeyboardShortcut { keys: Vec<String> },
}

impl Default for AutomationTrigger {
    fn default() -> (r: Self)
        ensures
            r is OnStartup,
    {
        AutomationTrigger::OnStartup
    }
}

/// Window events that can start a rule.
#[derive(Debug, Clone, Copy, PartialEq, Eq, Structural)]
pub enum WindowEventType {
    WindowOpened,
    WindowClosed,
    WindowFocused,
    WindowMoved,
    WindowResized,
}

/// System events that can start a rule.
#[derive(Debug, Clone, Copy, PartialEq, Eq, Structural)]
pub enum SystemEventType {
    BatteryLevel { level: u8 },
    NetworkConnected,
    NetworkDisconnected,
    AudioVolumeChanged,
    MicrophoneMuted,
}

/// What a rule does.
#[derive(Debug, Clone)]
pub enum AutomationActionType {
    LaunchApp { app_id: String },
    ExecuteCommand { command: String },
    SetTheme { theme_name: String },
    ToggleWidget { widget_id: String },
    SendNotification { title: String, body: String },
    LockScreen,
    Sleep,
    Hibernate,
    Custom { action_id: String },
}

impl Default for AutomationActionType {
    fn default() -> (r: Self)
        ensures
            r is LockScreen,
    {
        AutomationActionType::LockScreen
    }
}

/// One step of a rule, with its free-form parameters.
#[derive(Debug, Clone)]
pub struct AutomationAction {
    pub action_type: AutomationActionType,
    pub parameters: Option<serde_json::Value>,
}

/// An automation rule.
#[derive(Debug, Clone)]
pub struct AutomationRule {
    pub name: String,
    pub description: String,
    pub trigger: AutomationTrigger,
    pub actions: Vec<AutomationAction>,
    pub enabled: bool,
}

// ── Notifications ───────────────────────────────────────────────────────

/// Where notifications appear.
#[derive(Debug, Clone, Copy, PartialEq, Eq, Structural)]
pub enum NotificationPosition {
    TopLeft,
    TopRight,
    BottomLeft,
    BottomRight,
    TopCenter,
    BottomCenter,
}

impl Default for NotificationPosition {
    fn default() -> (r: Self)
        ensures
            r == NotificationPosition::BottomRight,
    {
        NotificationPosition::BottomRight
    }
}

/// How notifications are coloured.
#[derive(Debug, Clone)]
pub enum NotificationTheme {
    System,
    Light,
    Dark,
    Custom { colors: ThemeColors },
}

impl Default for NotificationTheme {
    fn default() -> (r: Self)
        ensures
            r is System,
    {
        NotificationTheme::System
    }
}

/// How long a notification shows, in milliseconds, when the configuration
/// file does not say.
pub const NOTIFICATION_DURATION_WHEN_UNSET: u64 = 5000;

/// How many notifications show at once when the configuration file does not
/// say.
pub const MAX_NOTIFICATIONS_WHEN_UNSET: u32 = 5;

/// Notification settings.
#[derive(Debug, Clone)]
pub struct NotificationConfig {
    pub enabled: bool,
    pub position: NotificationPosition,
    pub duration: u64,
    pub max_notifications: u32,
    pub theme: NotificationTheme,
}

impl Default for NotificationConfig {
    /// The derived default: every field at its type's default (the values
    /// that apply to a missing field when a file is read are another matter).
    fn default() -> (r: Self)
        ensures
            !r.enabled,
            r.position == NotificationPosition::BottomRight,
            r.duration == 0,
            r.max_notifications == 0,
            r.theme is System,
    {
        NotificationConfig {
            enabled: false,
            position: NotificationPosition::default(),
            duration: 0,
            max_notifications: 0,
            theme: NotificationTheme::default(),
        }
    }
}

// ── Gaming mode ─────────────────────────────────────────────────────────

/// The gaming mode profile.
#[derive(Debug, Clone)]
pub enum GamingProfile {
    Productivity,
    Gaming,
    Custom { name: String },
}

impl Default for GamingProfile {
    fn default() -> (r: Self)
        ensures
            r is Gaming,
    {
        GamingProfile::Gaming
    }
}

/// Performance settings of gaming mode.
#[derive(Debug, Clone, Copy, PartialEq, Eq, Structural)]
pub struct PerformanceSettings {
    pub target_fps: u32,
    pub vsync: bool,
    pub hardware_acceleration: bool,
    pub gpu_scaling: bool,
    pub reduce_background: bool,
}

impl Default for PerformanceSettings {
    fn default() -> (r: Self)
        ensures
            r.target_fps == 0 && !r.vsync && !r.hardware_acceleration && !r.gpu_scaling
                && !r.reduce_background,
    {
        PerformanceSettings {
            target_fps: 0,
            vsync: false,
            hardware_acceleration: false,
            gpu_scaling: false,
            reduce_background: false,
        }
    }
}

/// Visual settings of gaming mode.
#[derive(Debug, Clone, Copy, PartialEq, Eq, Structural)]
pub struct VisualSettings {
    pub reduce_effects: bool,
    pub hide_widgets: bool,
    pub reduce_animations: bool,
    pub high_contrast: bool,
    pub frame_rate_limit: Option<u32>,
}

impl Default for VisualSettings {
    fn default() -> (r: Self)
        ensures
            !r.reduce_effects && !r.hide_widgets && !r.reduce_animations && !r.high_contrast
                && r.frame_rate_limit is None,
    {
        VisualSettings {
            reduce_effects: false,
            hide_widgets: false,
            reduce_animations: false,
            high_contrast: false,
            frame_rate_limit: None,
        }
    }
}

/// Gaming mode settings.
#[derive(Debug, Clone)]
pub struct GamingModeConfig {
    pub enabled: bool,
    pub profile: GamingProfile,
    pub performance: PerformanceSettings,
    pub visual: VisualSettings,
}

impl Default for GamingModeConfig {
    fn default() -> (r: Self)
        ensures
            !r.enabled,
            r.profile is Gaming,
            r.performance == (PerformanceSettings {
                target_fps: 0,
                vsync: false,
                hardware_acceleration: false,
                gpu_scaling: false,
                reduce_background: false,
            }),
            r.visual == (VisualSettings {
                reduce_effects: false,
                hide_widgets: false,
                reduce_animations: false,
                high_contrast: false,
                frame_rate_limit: None,
            }),
    {
        GamingModeConfig {
            enabled: false,
            profile: GamingProfile::default(),
            performance: PerformanceSettings::default(),
            visual: VisualSettings::default(),
        }
    }
}


impl ThemeColors {
    /// An identical copy.
    pub fn duplicate(&self) -> (r: Self)
        ensures
            r == *self,
    {
        ThemeColors {
            primary: self.primary.clone(),
            secondary: self.secondary.clone(),
            background: self.background.clone(),
            surface: self.surface.clone(),
            error: self.error.clone(),
            on_primary: self.on_primary.clone(),
            on_secondary: self.on_secondary.clone(),
            on_background: self.on_background.clone(),
            on_surface: self.on_surface.clone(),
            on_error: self.on_error.clone(),
        }
    }
}

impl NotificationConfig {
    /// An identical copy.
    pub fn duplicate(&self) -> (r: Self)
        ensures
            r == *self,
    {
        NotificationConfig {
            enabled: self.enabled,
            position: self.position,
            duration: self.duration,
            max_notifications: self.max_notifications,
            theme: match &self.theme {
                NotificationTheme::System => NotificationTheme::System,
                NotificationTheme::Light => NotificationTheme::Light,
                NotificationTheme::Dark => NotificationTheme::Dark,
                NotificationTheme::Custom { colors } => NotificationTheme::Custom {
                    colors: colors.duplicate(),
                },
            },
        }
    }
}

impl GamingModeConfig {
    /// An identical copy.
    pub fn duplicate(&self) -> (r: Self)
        ensures
            r == *self,
    {
        GamingModeConfig {
            enabled: self.enabled,
            profile: match &self.profile {
                GamingProfile::Productivity => GamingProfile::Productivity,
                GamingProfile::Gaming => GamingProfile::Gaming,
                GamingProfile::Custom { name } => GamingProfile::Custom { name: name.clone() },
            },
            performance: self.performance,
            visual: self.visual,
        }
    }
}

// ── The whole configuration ─────────────────────────────────────────────

impl Default for WidgetVisibility {
    fn default() -> (r: Self)
        ensures
            !r.visible && r.config is None,
    {
        WidgetVisibility { visible: false, config: None }
    }
}

impl Default for WidgetConfig {
    fn default() -> (r: Self)
        ensures
            !r.launcher.visible && r.launcher.config is None,
            !r.workspaces.visible && r.workspaces.config is None,
            !r.clock.visible && r.clock.config is None,
            !r.system.visible && r.system.config is None,
            !r.network.visible && r.network.config is None,
    {
        WidgetConfig {
            launcher: WidgetVisibility::default(),
            workspaces: WidgetVisibility::default(),
            clock: WidgetVisibility::default(),
            system: WidgetVisibility::default(),
            network: WidgetVisibility::default(),
        }
    }
}

fn shown_widget() -> (r: WidgetVisibility)
    ensures
        r.visible && r.config is None,
{
    WidgetVisibility { visible: true, config: None }
}

/// The configuration of the shell.
#[derive(Clone)]
pub struct XarphConfig {
    pub theme: Option<String>,
    pub launcher_grid_size: Option<u32>,
    pub clock_format: Option<String>,
    pub system_refresh_ms: Option<u64>,
    pub show_cpu: Option<bool>,
    pub show_ram: Option<bool>,
    pub network_interface: Option<String>,
    pub theme_config: Option<ThemeConfig>,
    pub widget_config: WidgetConfig,
    pub keybind_config: KeybindConfig,
    pub automation_rules: Vec<AutomationRule>,
    pub notification_config: NotificationConfig,
    pub gaming_mode: GamingModeConfig,
    pub wallpaper_global: WallpaperConfig,
    pub workspace_wallpapers: HashMap<u8, WorkspaceWallpaper>,
    pub pinned_apps: Vec<String>,
    pub shell: ShellConfig,
}

/// Whether `c` is the default configuration.
pub open spec fn is_default_config(c: XarphConfig) -> bool {
    is_default_except_shell(c) && is_default_shell(c.shell)
}

/// Whether everything of `c` but its shell layout is at its default.
pub open spec fn is_default_except_shell(c: XarphConfig) -> bool {
    &&& c.theme is None
    &&& c.launcher_grid_size is None
    &&& c.clock_format matches Some(f) && f@ == "%H:%M  %a %d %b"@
    &&& c.system_refresh_ms == Some(2000u64)
    &&& c.show_cpu == Some(true)
    &&& c.show_ram == Some(true)
    &&& c.network_interface is None
    &&& c.theme_config is None
    &&& c.widget_config.launcher.visible && c.widget_config.launcher.config is None
    &&& c.widget_config.workspaces.visible && c.widget_config.workspaces.config is None
    &&& c.widget_config.clock.visible && c.widget_config.clock.config is None
    &&& c.widget_config.system.visible && c.widget_config.system.config is None
    &&& c.widget_config.network.visible && c.widget_config.network.config is None
    &&& is_default_keybinds(c.keybind_config)
    &&& c.automation_rules@.len() == 0
    &&& !c.notification_config.enabled
    &&& c.notification_config.position == NotificationPosition::BottomRight
    &&& c.notification_config.duration == 0
    &&& c.notification_config.max_notifications == 0
    &&& c.notification_config.theme is System
    &&& !c.gaming_mode.enabled
    &&& c.gaming_mode.profile is Gaming
    &&& is_default_wallpaper(c.wallpaper_global)
    &&& c.workspace_wallpapers@ == Map::<u8, WorkspaceWallpaper>::empty()
    &&& c.pinned_apps@.len() == 0
}

impl Default for XarphConfig {
    fn default() -> (r: Self)
        ensures
            is_default_config(r),
    {
        XarphConfig {
            theme: None,
            launcher_grid_size: None,
            clock_format: Some(owned("%H:%M  %a %d %b")),
            system_refresh_ms: Some(2000),
            show_cpu: Some(true),
            show_ram: Some(true),
            network_interface: None,
            theme_config: None,
            widget_config: WidgetConfig {
                launcher: shown_widget(),
                workspaces: shown_widget(),
                clock: shown_widget(),
                system: shown_widget(),
                network: shown_widget(),
            },
            keybind_config: KeybindConfig::default(),
            automation_rules: Vec::new(),
            notification_config: NotificationConfig::default(),
            gaming_mode: GamingModeConfig::default(),
            wallpaper_global: WallpaperConfig::default(),
            workspace_wallpapers: HashMap::new(),
            pinned_apps: Vec::new(),
            shell: ShellConfig::default(),
        }
    }
}

/// Whether the named desktop widget is shown; `false` for an unknown name.
pub open spec fn widget_visible(c: XarphConfig, widget_id: Seq<char>) -> bool {
    if widget_id == "launcher"@ {
        c.widget_config.launcher.visible
    } else if widget_id == "workspaces"@ {
        c.widget_config.workspaces.visible
    } else if widget_id == "clock"@ {
        c.widget_config.clock.visible
    } else if widget_id == "system"@ {
        c.widget_config.system.visible
    } else if widget_id == "network"@ {
        c.widget_config.network.visible
    } else {
        false
    }
}

/// The names of the desktop widgets whose visibility can be chosen.
pub open spec fn is_widget_name(widget_id: Seq<char>) -> bool {
    widget_id == "launcher"@ || widget_id == "workspaces"@ || widget_id == "clock"@ || widget_id == "system"@
        || widget_id == "network"@
}

/// The widget settings with the named widget shown or hidden; unchanged for
/// an unknown name.
pub open spec fn with_widget_visibility(w: WidgetConfig, widget_id: Seq<char>, visible: bool) -> WidgetConfig {
    if widget_id == "launcher"@ {
        WidgetConfig { launcher: WidgetVisibility { visible, ..w.launcher }, ..w }
    } else if widget_id == "workspaces"@ {
        WidgetConfig { workspaces: WidgetVisibility { visible, ..w.workspaces }, ..w }
    } else if widget_id == "clock"@ {
        WidgetConfig { clock: WidgetVisibility { visible, ..w.clock }, ..w }
    } else if widget_id == "system"@ {
        WidgetConfig { system: WidgetVisibility { visible, ..w.system }, ..w }
    } else if widget_id == "network"@ {
        WidgetConfig { network: WidgetVisibility { visible, ..w.network }, ..w }
    } else {
        w
    }
}

/// A widget shown or hidden by name reads back as it was set, the other
/// widgets keep their visibility, and a name that is not a widget's is
/// never visible.
pub proof fn law_widget_visibility_read_after_write(c: XarphConfig, id: Seq<char>, other: Seq<char>, visible: bool)
    requires
        other != id,
    ensures
        ({
            let after = XarphConfig { widget_config: with_widget_visibility(c.widget_config, id, visible), ..c };
            &&& is_widget_name(id) ==> widget_visible(after, id) == visible
            &&& !is_widget_name(id) ==> !widget_visible(after, id) && after == c
            &&& widget_visible(after, other) == widget_visible(c, other)
        }),
{
}

/// The wallpaper of workspace `idx`: its own if it has one, else the global one.
pub open spec fn wallpaper_for(c: XarphConfig, idx: u8) -> WallpaperConfig {
    if c.workspace_wallpapers@.contains_key(idx) && c.workspace_wallpapers@[idx].wallpaper is Some {
        c.workspace_wallpapers@[idx].wallpaper->0
    } else {
        c.wallpaper_global
    }
}

impl XarphConfig {
    /// The name of the configured theme.
    pub fn get_theme_name(&self) -> (r: Option<String>)
        ensures
            r == self.theme,
    {
        match &self.theme {
            Some(t) => Some(t.clone()),
            None => None,
        }
    }

    /// Chooses the theme.
    pub fn set_theme(&mut self, theme: String)
        ensures
            final(self).theme == Some(theme),
            final(self).keybind_config == old(self).keybind_config,
            final(self).wallpaper_global == old(self).wallpaper_global,
            final(self).workspace_wallpapers@ == old(self).workspace_wallpapers@,
            final(self).shell == old(self).shell,
    {
        self.theme = Some(theme);
    }

    /// Whether the named desktop widget is shown.
    pub fn get_widget_visibility(&self, widget_id: &str) -> (r: bool)
        ensures
            r == widget_visible(*self, widget_id@),
    {
        if crate::text::str_eq(widget_id, "launcher") {
            self.widget_config.launcher.visible
        } else if crate::text::str_eq(widget_id, "workspaces") {
            self.widget_config.workspaces.visible
        } else if crate::text::str_eq(widget_id, "clock") {
            self.widget_config.clock.visible
        } else if crate::text::str_eq(widget_id, "system") {
            self.widget_config.system.visible
        } else if crate::text::str_eq(widget_id, "network") {
            self.widget_config.network.visible
        } else {
            false
        }
    }

    /// Shows or hides the named desktop widget; an unknown name changes
    /// nothing.
    pub fn set_widget_visibility(&mut self, widget_id: &str, visible: bool)
        ensures
            *final(self) == (XarphConfig {
                widget_config: with_widget_visibility(old(self).widget_config, widget_id@, visible),
                ..*old(self)
            }),
    {
        if crate::text::str_eq(widget_id, "launcher") {
            self.widget_config.launcher.visible = visible;
        } else if crate::text::str_eq(widget_id, "workspaces") {
            self.widget_config.workspaces.visible = visible;
        } else if crate::text::str_eq(widget_id, "clock") {
            self.widget_config.clock.visible = visible;
        } else if crate::text::str_eq(widget_id, "system") {
            self.widget_config.system.visible = visible;
        } else if crate::text::str_eq(widget_id, "network") {
            self.widget_config.network.visible = visible;
        }
    }

    /// The notification settings.
    pub fn get_notification_config(&self) -> (r: NotificationConfig)
        ensures
            r == self.notification_config,
    {
        self.notification_config.duplicate()
    }

    /// Replaces the notification settings.
    pub fn set_notification_config(&mut self, config: NotificationConfig)
        ensures
            final(self).notification_config == config,
            final(self).shell == old(self).shell,
            final(self).wallpaper_global == old(self).wallpaper_global,
    {
        self.notification_config = config;
    }

    /// The gaming mode settings.
    pub fn get_gaming_mode_config(&self) -> (r: GamingModeConfig)
        ensures
            r == self.gaming_mode,
    {
        self.gaming_mode.duplicate()
    }

    /// Replaces the gaming mode settings.
    pub fn set_gaming_mode_config(&mut self, config: GamingModeConfig)
        ensures
            final(self).gaming_mode == config,
            final(self).shell == old(self).shell,
            final(self).wallpaper_global == old(self).wallpaper_global,
    {
        self.gaming_mode = config;
    }

    /// The wallpaper of workspace `workspace_idx`: its own, else the global one.
    pub fn get_wallpaper_for_workspace(&self, workspace_idx: u8) -> (r: &WallpaperConfig)
        ensures
            *r == wallpaper_for(*self, workspace_idx),
    {
        match self.workspace_wallpapers.get(&workspace_idx) {
            Some(ww) => match &ww.wallpaper {
                Some(w) => w,
                None => &self.wallpaper_global,
            },
            None => &self.wallpaper_global,
        }
    }

    /// Gives workspace `workspace_idx` its own wallpaper.
    pub fn set_workspace_wallpaper(&mut self, workspace_idx: u8, wallpaper: WallpaperConfig)
        ensures
            final(self).workspace_wallpapers@ == old(self).workspace_wallpapers@.insert(
                workspace_idx,
                WorkspaceWallpaper { wallpaper: Some(wallpaper) },
            ),
            final(self).wallpaper_global == old(self).wallpaper_global,
            final(self).theme == old(self).theme,
            final(self).shell == old(self).shell,
    {
        self.workspace_wallpapers.insert(workspace_idx, WorkspaceWallpaper { wallpaper: Some(wallpaper) });
    }

    /// Makes workspace `workspace_idx` use the global wallpaper again.
    pub fn clear_workspace_wallpaper(&mut self, workspace_idx: u8)
        ensures
            old(self).workspace_wallpapers@.contains_key(workspace_idx)
                ==> final(self).workspace_wallpapers@ == old(self).workspace_wallpapers@.insert(
                workspace_idx,
                WorkspaceWallpaper { wallpaper: None },
            ),
            !old(self).workspace_wallpapers@.contains_key(workspace_idx)
                ==> final(self).workspace_wallpapers@ == old(self).workspace_wallpapers@,
            final(self).wallpaper_global == old(self).wallpaper_global,
            final(self).theme == old(self).theme,
            final(self).shell == old(self).shell,
    {
        if self.workspace_wallpapers.contains_key(&workspace_idx) {
            self.workspace_wallpapers.insert(workspace_idx, WorkspaceWallpaper { wallpaper: None });
        }
    }
}

/// A workspace's own wallpaper, once set, is what the workspace shows; the
/// other workspaces keep theirs.
pub proof fn law_workspace_wallpaper_read_after_write(
    before: XarphConfig,
    after: XarphConfig,
    idx: u8,
    other: u8,
    w: WallpaperConfig,
)
    requires
        after.workspace_wallpapers@ == before.workspace_wallpapers@.insert(
            idx,
            WorkspaceWallpaper { wallpaper: Some(w) },
        ),
        after.wallpaper_global == before.wallpaper_global,
        other != idx,
    ensures
        wallpaper_for(after, idx) == w,
        wallpaper_for(after, other) == wallpaper_for(before, other),
{
}

/// After a workspace's wallpaper is cleared it shows the global wallpaper;
/// the other workspaces keep theirs.
pub proof fn law_cleared_workspace_uses_global(
    before: XarphConfig,
    after: XarphConfig,
    idx: u8,
    other: u8,
)
    requires
        before.workspace_wallpapers@.contains_key(idx) ==> after.workspace_wallpapers@
            == before.workspace_wallpapers@.insert(idx, WorkspaceWallpaper { wallpaper: None }),
        !before.workspace_wallpapers@.contains_key(idx) ==> after.workspace_wallpapers@
            == before.workspace_wallpapers@,
        after.wallpaper_global == before.wallpaper_global,
        other != idx,
    ensures
        wallpaper_for(after, idx) == after.wallpaper_global,
        wallpaper_for(after, other) == wallpaper_for(before, other),
{
}

// ── Loading a configuration directory ───────────────────────────────────

/// Why a configuration could not be loaded.
#[derive(Debug)]
pub enum ConfigError {
    /// A file could not be read.
    Io { path: String, message: String },
    /// A file is not valid TOML for what it should hold.
    Parse { path: String, message: String },
    /// Two panel files declare the same panel id.
    DuplicatePanelId(String),
    /// The directory has no `shell.conf`.
    MissingManifest(String),
}

/// The text of an error, as it is shown to the user.
pub open spec fn error_text(e: ConfigError) -> Seq<char> {
    match e {
        ConfigError::Io { path, message } => path@ + ": "@ + message@,
        ConfigError::Parse { path, message } => path@ + ": "@ + message@,
        ConfigError::DuplicatePanelId(id) => "duplicate panel id `"@ + id@ + "`"@,
        ConfigError::MissingManifest(path) => "missing shell manifest "@ + path@,
    }
}

impl ConfigError {
    /// The text of the error, as it is shown to the user.
    pub fn to_text(&self) -> (r: String)
        ensures
            r@ == error_text(*self),
    {
        let mut out: Vec<char> = Vec::new();
        match self {
            ConfigError::Io { path, message } | ConfigError::Parse { path, message } => {
                extend_str(&mut out, path.as_str());
                extend_str(&mut out, ": ");
                extend_str(&mut out, message.as_str());
            },
            ConfigError::DuplicatePanelId(id) => {
                extend_str(&mut out, "duplicate panel id `");
                extend_str(&mut out, id.as_str());
                extend_str(&mut out, "`");
            },
            ConfigError::MissingManifest(path) => {
                extend_str(&mut out, "missing shell manifest ");
                extend_str(&mut out, path.as_str());
            },
        }
        proof {
            assert(out@ =~= error_text(*self));
        }
        string_of(&out)
    }
}

/// The contents of one panel file: the panel, and the widgets listed in the
/// file apart from it.
#[derive(Debug, Clone)]
pub struct PanelDocument {
    pub panel: PanelConfig,
    pub widgets: Vec<PanelWidgetConfig>,
}

/// The panel a panel file describes: widgets listed apart from the panel
/// replace the panel's own list when there are any.
pub open spec fn document_panel(doc: PanelDocument) -> PanelConfig {
    if doc.widgets@.len() > 0 {
        PanelConfig { widgets: doc.widgets, ..doc.panel }
    } else {
        doc.panel
    }
}

/// No two panels share an id.
pub open spec fn distinct_ids(ps: Seq<PanelConfig>) -> bool {
    forall|i: int, j: int| 0 <= i < j < ps.len() ==> (#[trigger] ps[i]).id@ != (#[trigger] ps[j]).id@
}

/// The panels read so far from the panel files of a configuration
/// directory, in the order the files were read.
pub struct PanelAssembly {
    panels: Vec<PanelConfig>,
}

impl PanelAssembly {
    /// The panels so far.
    pub closed spec fn panels(&self) -> Seq<PanelConfig> {
        self.panels@
    }

    /// The panels so far have distinct ids.
    pub closed spec fn wf(&self) -> bool {
        distinct_ids(self.panels@)
    }

    /// No panel yet.
    pub fn new() -> (r: PanelAssembly)
        ensures
            r.wf(),
            r.panels() == Seq::<PanelConfig>::empty(),
    {
        PanelAssembly { panels: Vec::new() }
    }

    /// Adds the panel of the next panel file, or reports that its id is
    /// already taken (the panels are then unchanged).
    pub fn add_document(&mut self, doc: PanelDocument) -> (r: Result<(), ConfigError>)
        requires
            old(self).wf(),
        ensures
            final(self).wf(),
            r is Ok <==> (forall|i: int|
                0 <= i < old(self).panels().len() ==> (#[trigger] old(self).panels()[i]).id@
                    != doc.panel.id@),
            r is Ok ==> final(self).panels() == old(self).panels().push(document_panel(doc)),
            r matches Err(e) ==> e matches ConfigError::DuplicatePanelId(id) && id@
                == doc.panel.id@ && final(self).panels() == old(self).panels(),
    {
        let ghost d = doc;
        let mut i: usize = 0;
        while i < self.panels.len()
            invariant
                i <= self.panels@.len(),
                distinct_ids(self.panels@),
                self.panels@ == old(self).panels@,
                forall|j: int| 0 <= j < i ==> (#[trigger] self.panels@[j]).id@ != doc.panel.id@,
            decreases self.panels.len() - i,
        {
            if self.panels[i].id == doc.panel.id {
                return Err(ConfigError::DuplicatePanelId(doc.panel.id.clone()));
            }
            i = i + 1;
        }
        let PanelDocument { mut panel, widgets } = doc;
        if widgets.len() > 0 {
            panel.widgets = widgets;
        }
        proof {
            assert(panel == document_panel(d));
        }
        self.panels.push(panel);
        proof {
            assert forall|a: int, b: int|
                0 <= a < b < self.panels@.len() implies (#[trigger] self.panels@[a]).id@
                != (#[trigger] self.panels@[b]).id@ by {
                if b == self.panels@.len() - 1 {
                    assert(self.panels@[b].id@ == d.panel.id@);
                }
            }
        }
        Ok(())
    }

    /// The configuration of the directory: the defaults, with the manifest's
    /// shell layout, whose panels are the panels read, or the default panel
    /// when there are none.
    pub fn finish(self, shell: ShellConfig) -> (r: XarphConfig)
        ensures
            is_default_except_shell(r),
            r.shell.version == shell.version,
            r.shell.metrics_interval_secs == shell.metrics_interval_secs,
            r.shell.includes == shell.includes,
            self.panels().len() > 0 ==> r.shell.panels@ == self.panels(),
            self.panels().len() == 0 ==> r.shell.panels@.len() == 1 && is_default_panel(
                r.shell.panels@[0],
            ),
    {
        let mut config = XarphConfig::default();
        let mut shell = shell;
        if self.panels.len() == 0 {
            let mut v: Vec<PanelConfig> = Vec::new();
            v.push(PanelConfig::default());
            shell.panels = v;
        } else {
            shell.panels = self.panels;
        }
        config.shell = shell;
        config
    }
}

/// Where the configuration is loaded from.
#[derive(Debug, Clone, Copy, PartialEq, Eq, Structural)]
pub enum ConfigSource {
    /// The user's configuration directory.
    UserDir,
    /// The user's single-file configuration of older versions.
    Legacy,
    /// The user's directory, first filled from the system's defaults.
    SeedFromSystem,
    /// The user's directory, first filled from the defaults shipped beside
    /// the program.
    SeedFromRepo,
    /// No file: the built-in defaults.
    Defaults,
}

/// Where the configuration is loaded from, given which of the candidate
/// files exist: the user's `shell.conf`, the user's legacy `xarph.toml`, the
/// system's `shell.conf`, the shipped `shell.conf`, in that order of
/// preference.
pub open spec fn source_for(user: bool, legacy: bool, system: bool, repo: bool) -> ConfigSource {
    if user {
        ConfigSource::UserDir
    } else if legacy {
        ConfigSource::Legacy
    } else if system {
        ConfigSource::SeedFromSystem
    } else if repo {
        ConfigSource::SeedFromRepo
    } else {
        ConfigSource::Defaults
    }
}

/// The sources come in a fixed priority: the user's own configuration
/// directory wins whenever its manifest exists; the legacy file is read only
/// when there is no user manifest; the system's and then the repository's
/// seed only when neither of those exists; the built-in defaults only when
/// nothing exists. A source is only ever chosen if it exists.
pub proof fn law_source_priority(user: bool, legacy: bool, system: bool, repo: bool)
    ensures
        user ==> source_for(user, legacy, system, repo) == ConfigSource::UserDir,
        !user && legacy ==> source_for(user, legacy, system, repo) == ConfigSource::Legacy,
        !user && !legacy && system ==> source_for(user, legacy, system, repo) == ConfigSource::SeedFromSystem,
        !user && !legacy && !system && repo ==> source_for(user, legacy, system, repo)
            == ConfigSource::SeedFromRepo,
        source_for(user, legacy, system, repo) == ConfigSource::UserDir ==> user,
        source_for(user, legacy, system, repo) == ConfigSource::Legacy ==> legacy && !user,
        source_for(user, legacy, system, repo) == ConfigSource::SeedFromSystem ==> system && !user && !legacy,
        source_for(user, legacy, system, repo) == ConfigSource::SeedFromRepo ==> repo && !user && !legacy
            && !system,
        (source_for(user, legacy, system, repo) == ConfigSource::Defaults) == (!user && !legacy && !system
            && !repo),
{
}

/// How a path given to the loader is read.
#[derive(Debug, Clone, Copy, PartialEq, Eq, Structural)]
pub enum LoadTarget {
    /// A configuration directory.
    Directory,
    /// The `shell.conf` of a configuration directory: its parent is read.
    ParentDirectory,
    /// A single legacy file.
    LegacyFile,
}

/// The configuration loader.
pub struct ConfigLoader;

impl ConfigLoader {
    /// Where `load_default` reads from (see `source_for`).
    pub fn default_source(
        user_manifest_exists: bool,
        legacy_exists: bool,
        system_manifest_exists: bool,
        repo_manifest_exists: bool,
    ) -> (r: ConfigSource)
        ensures
            r == source_for(
                user_manifest_exists,
                legacy_exists,
                system_manifest_exists,
                repo_manifest_exists,
            ),
    {
        if user_manifest_exists {
            ConfigSource::UserDir
        } else if legacy_exists {
            ConfigSource::Legacy
        } else if system_manifest_exists {
            ConfigSource::SeedFromSystem
        } else if repo_manifest_exists {
            ConfigSource::SeedFromRepo
        } else {
            ConfigSource::Defaults
        }
    }

    /// How `load_path` reads a path: a directory as a configuration
    /// directory, a file called `shell.conf` through its directory, anything
    /// else as a legacy file.
    pub fn path_target(is_dir: bool, file_name: Option<&str>) -> (r: LoadTarget)
        ensures
            is_dir ==> r == LoadTarget::Directory,
            !is_dir && (file_name matches Some(n) && n@ == "shell.conf"@) ==> r
                == LoadTarget::ParentDirectory,
            !is_dir && !(file_name matches Some(n) && n@ == "shell.conf"@) ==> r
                == LoadTarget::LegacyFile,
    {
        if is_dir {
            LoadTarget::Directory
        } else {
            match file_name {
                Some(n) => if crate::text::str_eq(n, "shell.conf") {
                    LoadTarget::ParentDirectory
                } else {
                    LoadTarget::LegacyFile
                },
                None => LoadTarget::LegacyFile,
            }
        }
    }

    /// The sub-directory that an include pattern `<dir>/*.conf` names, or
    /// `None` for a pattern that names one file.
    pub fn include_dir(pattern: &str) -> (r: Option<String>)
        ensures
            crate::text::has_suffix(pattern@, "/*.conf"@) ==> (r matches Some(d) && d@
                == pattern@.take(pattern@.len() - 7)),
            !crate::text::has_suffix(pattern@, "/*.conf"@) ==> r is None,
    {
        let p = chars_of(pattern);
        let suffix = chars_of("/*.conf");
        proof {
            reveal_strlit("/*.conf");
        }
        if ends_with(&p, &suffix) {
            let mut d: Vec<char> = Vec::new();
            let n = p.len() - suffix.len();
            let mut i: usize = 0;
            while i < n
                invariant
                    i <= n,
                    n <= p@.len(),
                    d@ == p@.take(i as int),
                decreases n - i,
            {
                d.push(p[i]);
                proof {
                    assert(d@ =~= p@.take(i + 1));
                }
                i = i + 1;
            }
            Some(string_of(&d))
        } else {
            None
        }
    }

    /// The `.conf` files among the names of a directory's entries, in sorted
    /// order (an entry `x.conf` counts when `x` is not empty, as
    /// `Path::extension` has it).
    pub fn select_includes(names: Vec<String>) -> (r: Vec<String>)
        ensures
            sorted_views(string_views(r@)),
            r@.to_multiset() == names@.filter(|n: String| is_conf_name(n@)).to_multiset(),
    {
        let mut keep: Vec<String> = Vec::new();
        let suffix = chars_of(".conf");
        let mut i: usize = 0;
        while i < names.len()
            invariant
                i <= names.len(),
                suffix@ == ".conf"@,
                keep@ == names@.take(i as int).filter(|n: String| is_conf_name(n@)),
            decreases names.len() - i,
        {
            let cs = chars_of(names[i].as_str());
            let ok = cs.len() > 5 && ends_with(&cs, &suffix);
            proof {
                reveal_strlit(".conf");
                assert(names@.take(i + 1).drop_last() =~= names@.take(i as int));
                reveal(Seq::filter);
                assert(names@.take(i + 1) =~= names@.take(i as int).push(names@[i as int]));
            }
            if ok {
                keep.push(names[i].clone());
            }
            i = i + 1;
        }
        proof {
            assert(names@.take(names.len() as int) =~= names@);
        }
        sort_strings(keep)
    }
}

/// A file name with the extension `conf`.
pub open spec fn is_conf_name(n: Seq<char>) -> bool {
    n.len() > 5 && crate::text::has_suffix(n, ".conf"@)
}

// ── Standard locations ──────────────────────────────────────────────────

/// The base directory for the shell's files: the user's configuration
/// directory, or `~/.config` where there is none.
pub open spec fn config_base(dir: Option<String>) -> Seq<char> {
    match dir {
        Some(d) => d@,
        None => "~/.config"@,
    }
}

fn config_base_of(dir: Option<String>) -> (r: String)
    ensures
        r@ == config_base(dir),
{
    match dir {
        Some(x) => x,
        None => owned("~/.config"),
    }
}

/// The legacy single-file configuration under the configuration directory
/// `dir`: `<dir>/xarph/xarph.toml`, `~/.config` standing in for a missing
/// directory.
pub fn config_path_in(dir: Option<String>) -> (r: String)
    ensures
        r@ == path_join(path_join(config_base(dir), "xarph"@), "xarph.toml"@),
{
    let base = config_base_of(dir);
    let a = join_path(base.as_str(), "xarph");
    join_path(a.as_str(), "xarph.toml")
}

/// The legacy single-file configuration, `<config>/xarph/xarph.toml`, under
/// the user's configuration directory as the environment gives it.
pub fn config_path() -> (r: String)
    ensures
        exists|d: Option<String>| r@ == path_join(path_join(config_base(d), "xarph"@), "xarph.toml"@),
{
    config_path_in(crate::locations::config_dir())
}

/// The user's configuration directory under the configuration directory
/// `dir`: `<dir>/xarph/conf`, `~/.config` standing in for a missing
/// directory.
pub fn config_dir_in(dir: Option<String>) -> (r: String)
    ensures
        r@ == path_join(path_join(config_base(dir), "xarph"@), "conf"@),
{
    let base = config_base_of(dir);
    let a = join_path(base.as_str(), "xarph");
    join_path(a.as_str(), "conf")
}

/// The user's configuration directory, `<config>/xarph/conf`, under the
/// user's configuration directory as the environment gives it.
pub fn config_dir() -> (r: String)
    ensures
        exists|d: Option<String>| r@ == path_join(path_join(config_base(d), "xarph"@), "conf"@),
{
    config_dir_in(crate::locations::config_dir())
}

/// The system's default configuration directory.
pub fn system_config_dir() -> (r: String)
    ensures
        r@ == "/usr/share/xarph/conf"@,
{
    owned("/usr/share/xarph/conf")
}

// ── Theme manager ───────────────────────────────────────────────────────

/// A theme as it is stored: its settings and where it came from.
#[derive(Debug, Clone)]
pub struct Theme {
    pub name: String,
    pub description: String,
    pub version: String,
    pub author: String,
    pub config: ThemeConfig,
    pub metadata: ThemeMetadata,
}

impl ThemeConfig {
    /// An identical copy.
    pub fn duplicate(&self) -> (r: Self)
        ensures
            r == *self,
    {
        ThemeConfig {
            name: self.name.clone(),
            variant: self.variant,
            colors: match &self.colors {
                Some(c) => Some(c.duplicate()),
                None => None,
            },
            fonts: match &self.fonts {
                Some(f) => Some(
                    ThemeFonts {
                        family: f.family.clone(),
                        size_bits: f.size_bits,
                        bold_size_bits: f.bold_size_bits,
                        monospace_family: f.monospace_family.clone(),
                    },
                ),
                None => None,
            },
            icons: match &self.icons {
                Some(i) => Some(ThemeIcons { theme: i.theme.clone(), fallback: i.fallback.clone() }),
                None => None,
            },
        }
    }
}

/// The themes known by name, and the one in use. No name occurs twice.
pub struct ThemeManager {
    themes: Vec<(String, Theme)>,
    current_theme: Option<String>,
    theme_dir: String,
}

/// The themes by name, in the order they were added.
pub open spec fn theme_names_of(ts: Seq<(String, Theme)>) -> Seq<Seq<char>> {
    ts.map_values(|e: (String, Theme)| e.0@)
}

/// The theme named `name`.
pub open spec fn theme_named(ts: Seq<(String, Theme)>, name: Seq<char>) -> Option<Theme> {
    if exists|i: int| 0 <= i < ts.len() && (#[trigger] ts[i]).0@ == name {
        Some(ts[choose|i: int| 0 <= i < ts.len() && (#[trigger] ts[i]).0@ == name].1)
    } else {
        None
    }
}

/// The user's data directory, `~/.local/share` standing in for a missing one.
pub open spec fn data_base(dir: Option<String>) -> Seq<char> {
    match dir {
        Some(d) => d@,
        None => "~/.local/share"@,
    }
}

/// Each theme is kept under its own name.
pub open spec fn keyed_by_name(ts: Seq<(String, Theme)>) -> bool {
    forall|i: int| 0 <= i < ts.len() ==> (#[trigger] ts[i]).0@ == ts[i].1.name@
}

/// No name occurs twice.
pub open spec fn distinct_theme_names(ts: Seq<(String, Theme)>) -> bool {
    forall|i: int, j: int| 0 <= i < j < ts.len() ==> (#[trigger] ts[i]).0@ != (#[trigger] ts[j]).0@
}

/// The f32 bits of 14.0 and 16.0, the default theme's font sizes.
pub const DEFAULT_FONT_SIZE_BITS: u32 = 0x4160_0000;
pub const DEFAULT_BOLD_FONT_SIZE_BITS: u32 = 0x4180_0000;

proof fn lemma_theme_index(ts: Seq<(String, Theme)>, name: Seq<char>, i: int)
    requires
        distinct_theme_names(ts),
        0 <= i < ts.len(),
        ts[i].0@ == name,
    ensures
        theme_named(ts, name) == Some(ts[i].1),
        (choose|j: int| 0 <= j < ts.len() && (#[trigger] ts[j]).0@ == name) == i,
{
    let j = choose|j: int| 0 <= j < ts.len() && (#[trigger] ts[j]).0@ == name;
    if j != i {
        if j < i {
            assert(ts[j].0@ != ts[i].0@);
        } else {
            assert(ts[i].0@ != ts[j].0@);
        }
    }
}

impl ThemeManager {
    #[verifier::type_invariant]
    closed spec fn names_distinct(&self) -> bool {
        &&& distinct_theme_names(self.themes@)
        &&& keyed_by_name(self.themes@)
    }

    /// The themes with their names.
    pub closed spec fn themes(&self) -> Seq<(String, Theme)> {
        self.themes@
    }

    /// The name of the theme in use.
    pub closed spec fn current(&self) -> Option<String> {
        self.current_theme
    }

    /// Where the themes are stored.
    pub closed spec fn dir(&self) -> Seq<char> {
        self.theme_dir@
    }

    /// A manager without themes, storing them in `<data>/xarph/themes` for
    /// the data directory `data` (`~/.local/share` standing in for a missing
    /// one).
    pub fn new_in(data: Option<String>) -> (r: Self)
        ensures
            r.themes().len() == 0,
            r.current() is None,
            r.dir() == path_join(path_join(data_base(data), "xarph"@), "themes"@),
    {
        let base = match &data {
            Some(x) => x.clone(),
            None => owned("~/.local/share"),
        };
        let a = join_path(base.as_str(), "xarph");
        let dir = join_path(a.as_str(), "themes");
        ThemeManager { themes: Vec::new(), current_theme: None, theme_dir: dir }
    }

    /// A manager without themes, storing them in `<data>/xarph/themes` under
    /// the user's data directory as the environment gives it.
    pub fn new() -> (r: Self)
        ensures
            r.themes().len() == 0,
            r.current() is None,
            exists|d: Option<String>| r.dir() == path_join(path_join(data_base(d), "xarph"@), "themes"@),
    {
        Self::new_in(crate::locations::data_dir())
    }

    /// Where the themes are stored.
    pub fn theme_dir(&self) -> (r: &str)
        ensures
            r@ == self.dir(),
    {
        self.theme_dir.as_str()
    }

    /// The file a theme is saved to: `<theme dir>/<name>.toml`.
    pub fn theme_path(&self, theme: &Theme) -> (r: String)
        ensures
            r@ == path_join(self.dir(), theme.name@ + ".toml"@),
    {
        let file = crate::text::concat_str(theme.name.as_str(), ".toml");
        join_path(self.theme_dir.as_str(), file.as_str())
    }

    fn index_of(&self, name: &str) -> (r: Option<usize>)
        ensures
            match r {
                Some(i) => i < self.themes@.len() && self.themes@[i as int].0@ == name@,
                None => theme_named(self.themes@, name@) is None,
            },
    {
        let mut i: usize = 0;
        while i < self.themes.len()
            invariant
                i <= self.themes@.len(),
                forall|j: int| 0 <= j < i ==> (#[trigger] self.themes@[j]).0@ != name@,
            decreases self.themes.len() - i,
        {
            if crate::text::str_eq(self.themes[i].0.as_str(), name) {
                return Some(i);
            }
            i = i + 1;
        }
        proof {
            if exists|j: int| 0 <= j < self.themes@.len() && (#[trigger] self.themes@[j]).0@ == name@ {
                let j = choose|j: int| 0 <= j < self.themes@.len() && (#[trigger] self.themes@[j]).0@ == name@;
                assert(self.themes@[j].0@ != name@);
            }
        }
        None
    }

    /// Adds a loaded theme under its name, replacing a theme of that name
    /// (`HashMap::insert`).
    pub fn insert_theme(&mut self, theme: Theme)
        ensures
            theme_named(final(self).themes(), theme.name@) == Some(theme),
            forall|n: Seq<char>| n != theme.name@ ==> theme_named(final(self).themes(), n) == theme_named(
                old(self).themes(),
                n,
            ),
            final(self).current() == old(self).current(),
            final(self).dir() == old(self).dir(),
    {
        proof {
            use_type_invariant(&*self);
        }
        let ghost before = self.themes@;
        let ghost t = theme;
        let key = theme.name.clone();
        let mut ts: Vec<(String, Theme)> = Vec::new();
        std::mem::swap(&mut ts, &mut self.themes);
        match self.index_of_in(&ts, key.as_str()) {
            Some(i) => {
                ts.remove(i);
                ts.insert(i, (key, theme));
                proof {
                    assert(ts@ =~= before.update(i as int, (ts@[i as int].0, t)));
                    assert forall|a: int| 0 <= a < ts@.len() implies (#[trigger] ts@[a]).0@ == ts@[a].1.name@ by {
                        if a != i {
                            assert(ts@[a] == before[a]);
                        }
                    }
                    assert forall|a: int, b: int| 0 <= a < b < ts@.len() implies (#[trigger] ts@[a]).0@ != (
                        #[trigger] ts@[b]).0@ by {
                        if a != i && b != i {
                            assert(ts@[a] == before[a] && ts@[b] == before[b]);
                        } else if a == i {
                            assert(ts@[b] == before[b]);
                        } else {
                            assert(ts@[a] == before[a]);
                        }
                    }
                    lemma_theme_index(ts@, t.name@, i as int);
                    assert forall|n: Seq<char>| n != t.name@ implies theme_named(ts@, n) == theme_named(before, n) by {
                        if exists|j: int| 0 <= j < before.len() && (#[trigger] before[j]).0@ == n {
                            let j = choose|j: int| 0 <= j < before.len() && (#[trigger] before[j]).0@ == n;
                            assert(j != i);
                            lemma_theme_index(before, n, j);
                            assert(ts@[j] == before[j]);
                            lemma_theme_index(ts@, n, j);
                        }
                        if exists|j: int| 0 <= j < ts@.len() && (#[trigger] ts@[j]).0@ == n {
                            let j = choose|j: int| 0 <= j < ts@.len() && (#[trigger] ts@[j]).0@ == n;
                            assert(j != i);
                            assert(ts@[j] == before[j]);
                        }
                    }
                }
            },
            None => {
                ts.push((key, theme));
                proof {
                    assert(ts@ =~= before.push((ts@.last().0, t)));
                    assert forall|a: int| 0 <= a < ts@.len() implies (#[trigger] ts@[a]).0@ == ts@[a].1.name@ by {
                        if a < ts@.len() - 1 {
                            assert(ts@[a] == before[a]);
                        }
                    }
                    assert forall|a: int, b: int| 0 <= a < b < ts@.len() implies (#[trigger] ts@[a]).0@ != (
                        #[trigger] ts@[b]).0@ by {
                        if b == ts@.len() - 1 {
                            assert(ts@[a] == before[a]);
                        } else {
                            assert(ts@[a] == before[a] && ts@[b] == before[b]);
                        }
                    }
                    lemma_theme_index(ts@, t.name@, ts@.len() - 1);
                    assert forall|n: Seq<char>| n != t.name@ implies theme_named(ts@, n) == theme_named(before, n) by {
                        if exists|j: int| 0 <= j < before.len() && (#[trigger] before[j]).0@ == n {
                            let j = choose|j: int| 0 <= j < before.len() && (#[trigger] before[j]).0@ == n;
                            lemma_theme_index(before, n, j);
                            assert(ts@[j] == before[j]);
                            lemma_theme_index(ts@, n, j);
                        }
                        if exists|j: int| 0 <= j < ts@.len() && (#[trigger] ts@[j]).0@ == n {
                            let j = choose|j: int| 0 <= j < ts@.len() && (#[trigger] ts@[j]).0@ == n;
                            assert(j != ts@.len() - 1);
                            assert(ts@[j] == before[j]);
                        }
                    }
                }
            },
        }
        self.themes = ts;
    }

    fn index_of_in(&self, ts: &Vec<(String, Theme)>, name: &str) -> (r: Option<usize>)
        ensures
            match r {
                Some(i) => i < ts@.len() && ts@[i as int].0@ == name@,
                None => theme_named(ts@, name@) is None,
            },
    {
        let mut i: usize = 0;
        while i < ts.len()
            invariant
                i <= ts@.len(),
                forall|j: int| 0 <= j < i ==> (#[trigger] ts@[j]).0@ != name@,
            decreases ts.len() - i,
        {
            if crate::text::str_eq(ts[i].0.as_str(), name) {
                return Some(i);
            }
            i = i + 1;
        }
        proof {
            if exists|j: int| 0 <= j < ts@.len() && (#[trigger] ts@[j]).0@ == name@ {
                let j = choose|j: int| 0 <= j < ts@.len() && (#[trigger] ts@[j]).0@ == name@;
                assert(ts@[j].0@ != name@);
            }
        }
        None
    }

    /// The theme named `name`.
    pub fn get_theme(&self, name: &str) -> (r: Option<&Theme>)
        ensures
            match r {
                Some(t) => theme_named(self.themes(), name@) == Some(*t) && t.name@ == name@,
                None => theme_named(self.themes(), name@) is None,
            },
    {
        proof {
            use_type_invariant(self);
        }
        match self.index_of(name) {
            Some(i) => {
                proof {
                    lemma_theme_index(self.themes@, name@, i as int);
                }
                Some(&self.themes[i].1)
            },
            None => None,
        }
    }

    /// The names of the themes.
    pub fn get_theme_names(&self) -> (r: Vec<String>)
        ensures
            r@.map_values(|s: String| s@) == theme_names_of(self.themes()),
            forall|i: int, j: int| 0 <= i < j < r@.len() ==> (#[trigger] r@[i])@ != (#[trigger] r@[j])@,
    {
        proof {
            use_type_invariant(self);
        }
        let mut r: Vec<String> = Vec::new();
        let mut i: usize = 0;
        while i < self.themes.len()
            invariant
                i <= self.themes@.len(),
                r@.map_values(|s: String| s@) == theme_names_of(self.themes@).take(i as int),
            decreases self.themes.len() - i,
        {
            let ghost before = r@;
            r.push(self.themes[i].0.clone());
            proof {
                assert(r@.map_values(|s: String| s@) =~= before.map_values(|s: String| s@).push(self.themes@[i as int].0@));
                assert(theme_names_of(self.themes@).take(i + 1) =~= theme_names_of(self.themes@).take(i as int).push(
                    self.themes@[i as int].0@,
                ));
            }
            i = i + 1;
        }
        proof {
            assert(theme_names_of(self.themes@).take(self.themes@.len() as int) =~= theme_names_of(self.themes@));
            assert forall|a: int, b: int| 0 <= a < b < r@.len() implies (#[trigger] r@[a])@ != (#[trigger] r@[b])@ by {
                assert(r@.map_values(|s: String| s@)[a] == r@[a]@);
                assert(r@.map_values(|s: String| s@)[b] == r@[b]@);
                assert(self.themes@[a].0@ != self.themes@[b].0@);
            }
        }
        r
    }

    /// Chooses the theme in use; refused (false, nothing changes) for a
    /// name no theme has.
    pub fn set_current_theme(&mut self, name: &str) -> (r: bool)
        ensures
            r == (theme_named(old(self).themes(), name@) is Some),
            r ==> (final(self).current() matches Some(c) && c@ == name@),
            !r ==> final(self).current() == old(self).current(),
            final(self).themes() == old(self).themes(),
            final(self).dir() == old(self).dir(),
    {
        proof {
            use_type_invariant(&*self);
        }
        match self.index_of(name) {
            Some(i) => {
                proof {
                    lemma_theme_index(self.themes@, name@, i as int);
                }
                self.current_theme = Some(owned(name));
                true
            },
            None => false,
        }
    }

    /// The theme in use, if it names a known theme.
    pub fn get_current_theme(&self) -> (r: Option<&Theme>)
        ensures
            match self.current() {
                Some(c) => match r {
                    Some(t) => theme_named(self.themes(), c@) == Some(*t),
                    None => theme_named(self.themes(), c@) is None,
                },
                None => r is None,
            },
    {
        match &self.current_theme {
            Some(c) => self.get_theme(c.as_str()),
            None => None,
        }
    }

    /// Puts the theme in use into the configuration: its name and its
    /// settings. Without one the configuration stays as it is.
    pub fn apply_theme(&self, config: &mut XarphConfig)
        ensures
            match self.current() {
                Some(c) => match theme_named(self.themes(), c@) {
                    Some(t) => (final(config).theme matches Some(n) && n@ == c@) && final(config).theme == Some(t.name)
                        && final(config).theme_config == Some(t.config)
                        && *final(config) == (XarphConfig {
                        theme: final(config).theme,
                        theme_config: final(config).theme_config,
                        ..*old(config)
                    }),
                    None => *final(config) == *old(config),
                },
                None => *final(config) == *old(config),
            },
    {
        proof {
            use_type_invariant(self);
        }
        match self.get_current_theme() {
            Some(t) => {
                proof {
                    let c = self.current_theme->0;
                    let j = choose|j: int| 0 <= j < self.themes@.len() && (#[trigger] self.themes@[j]).0@ == c@;
                    assert(self.themes@[j].0@ == self.themes@[j].1.name@);
                }
                config.theme = Some(t.name.clone());
                config.theme_config = Some(t.config.duplicate());
            },
            None => {},
        }
    }

    /// The built-in theme: `default`, dark, Roboto 14/16 with Roboto Mono,
    /// Papirus icons over hicolor, and the Material dark colours.
    pub fn create_default_theme(&self) -> (r: Theme)
        ensures
            r.name@ == "default"@,
            r.description@ == "Default Xarph theme"@,
            r.version@ == "1.0.0"@,
            r.author@ == "Xarph Team"@,
            r.config.name@ == "default"@,
            r.config.variant == ThemeVariant::Dark,
            r.config.colors matches Some(c) && c.primary@ == "#6200ee"@ && c.secondary@ == "#03dac6"@
                && c.background@ == "#121212"@ && c.surface@ == "#1e1e1e"@ && c.error@ == "#cf6679"@
                && c.on_primary@ == "#ffffff"@ && c.on_secondary@ == "#000000"@ && c.on_background@
                == "#ffffff"@ && c.on_surface@ == "#b3b3b3"@ && c.on_error@ == "#000000"@,
            r.config.fonts matches Some(f) && f.family@ == "Roboto"@ && f.size_bits == DEFAULT_FONT_SIZE_BITS
                && f.bold_size_bits == DEFAULT_BOLD_FONT_SIZE_BITS && f.monospace_family@ == "Roboto Mono"@,
            r.config.icons matches Some(i) && i.theme@ == "Papirus"@ && i.fallback@ == "hicolor"@,
            r.metadata.created@ == "2024-01-01"@,
            r.metadata.modified@ == "2024-01-01"@,
            r.metadata.tags@.len() == 2 && r.metadata.tags@[0]@ == "default"@ && r.metadata.tags@[1]@
                == "dark"@,
            r.metadata.preview is None,
    {
        let mut tags: Vec<String> = Vec::new();
        tags.push(owned("default"));
        tags.push(owned("dark"));
        Theme {
            name: owned("default"),
            description: owned("Default Xarph theme"),
            version: owned("1.0.0"),
            author: owned("Xarph Team"),
            config: ThemeConfig {
                name: owned("default"),
                variant: ThemeVariant::Dark,
                colors: Some(
                    ThemeColors {
                        primary: owned("#6200ee"),
                        secondary: owned("#03dac6"),
                        background: owned("#121212"),
                        surface: owned("#1e1e1e"),
                        error: owned("#cf6679"),
                        on_primary: owned("#ffffff"),
                        on_secondary: owned("#000000"),
                        on_background: owned("#ffffff"),
                        on_surface: owned("#b3b3b3"),
                        on_error: owned("#000000"),
                    },
                ),
                fonts: Some(
                    ThemeFonts {
                        family: owned("Roboto"),
                        size_bits: DEFAULT_FONT_SIZE_BITS,
                        bold_size_bits: DEFAULT_BOLD_FONT_SIZE_BITS,
                        monospace_family: owned("Roboto Mono"),
                    },
                ),
                icons: Some(ThemeIcons { theme: owned("Papirus"), fallback: owned("hicolor") }),
            },
            metadata: ThemeMetadata {
                created: owned("2024-01-01"),
                modified: owned("2024-01-01"),
                tags,
                preview: None,
            },
        }
    }
}

} // verus!
