//! The configuration files the manager generates.
use vstd::prelude::*;

use crate::json::{pretty_text_of, to_pretty_json, JsonValue};
use crate::manager::paths::{config_dir_of, hypr_config_dir, shell_config_dir, UserDirs};
use crate::text::{join_path, owned, path_join};

verus! {

/// A file to write: where, and what.
#[derive(Debug, Clone)]
pub struct FileWrite {
    pub path: String,
    pub content: String,
}

/// The compositor configuration the session starts with.
pub open spec fn hyprland_conf_text() -> Seq<char> {
    "
monitor=,preferred,auto,1
exec-once=dbus-launch --sh-syntax

input {
    kb_layout=us
    follow_mouse=1
}

windowrulev2=float,class:^(pavucontrol)$
windowrulev2=noop,class:^(steam)$

bind=MOD, Q, exit
bind=MOD, C, exec, kitty
bind=MOD, V, togglefloating
bind=MOD, 1, workspace, 1
bind=MOD, 2, workspace, 2
bind=MOD, 3, workspace, 3
bind=MOD, 4, workspace, 4
bind=MOD, 5, workspace, 5
"@
}

fn hyprland_conf() -> (r: &'static str)
    ensures
        r@ == hyprland_conf_text(),
{
    "
monitor=,preferred,auto,1
exec-once=dbus-launch --sh-syntax

input {
    kb_layout=us
    follow_mouse=1
}

windowrulev2=float,class:^(pavucontrol)$
windowrulev2=noop,class:^(steam)$

bind=MOD, Q, exit
bind=MOD, C, exec, kitty
bind=MOD, V, togglefloating
bind=MOD, 1, workspace, 1
bind=MOD, 2, workspace, 2
bind=MOD, 3, workspace, 3
bind=MOD, 4, workspace, 4
bind=MOD, 5, workspace, 5
"
}

/// `e` is the string member `key` with the text `value`.
pub open spec fn is_string_entry(e: (String, JsonValue), key: Seq<char>, value: Seq<char>) -> bool {
    e.0@ == key && (e.1 matches JsonValue::String(s) && s@ == value)
}

/// The shell's default settings: `daemon` with `ipc_version` "1" and
/// `log_level` "info", and `ui` with `qml_path` "qrc:/qml/main.qml".
pub open spec fn is_default_shell_settings(v: JsonValue) -> bool {
    v matches JsonValue::Object(es) && {
        let es = es@;
        &&& es.len() == 2
        &&& es[0].0@ == "daemon"@
        &&& es[0].1 matches JsonValue::Object(d) && d@.len() == 2
            && is_string_entry(d@[0], "ipc_version"@, "1"@)
            && is_string_entry(d@[1], "log_level"@, "info"@)
        &&& es[1].0@ == "ui"@
        &&& es[1].1 matches JsonValue::Object(u) && u@.len() == 1
            && is_string_entry(u@[0], "qml_path"@, "qrc:/qml/main.qml"@)
    }
}

fn string_entry(key: &str, value: &str) -> (r: (String, JsonValue))
    ensures
        is_string_entry(r, key@, value@),
{
    (owned(key), JsonValue::String(owned(value)))
}

fn default_shell_settings() -> (r: JsonValue)
    ensures
        is_default_shell_settings(r),
{
    let mut daemon: Vec<(String, JsonValue)> = Vec::new();
    daemon.push(string_entry("ipc_version", "1"));
    daemon.push(string_entry("log_level", "info"));
    let mut ui: Vec<(String, JsonValue)> = Vec::new();
    ui.push(string_entry("qml_path", "qrc:/qml/main.qml"));
    let mut root: Vec<(String, JsonValue)> = Vec::new();
    root.push((owned("daemon"), JsonValue::Object(daemon)));
    root.push((owned("ui"), JsonValue::Object(ui)));
    JsonValue::Object(root)
}

/// The compositor configuration: `hyprland.conf` in the compositor's
/// configuration directory.
pub fn generate_hypr_config(d: &UserDirs) -> (r: FileWrite)
    requires
        d.config is Some,
    ensures
        r.path@ == path_join(path_join(config_dir_of(*d), "hypr"@), "hyprland.conf"@),
        r.content@ == hyprland_conf_text(),
{
    let dir = hypr_config_dir(d);
    FileWrite { path: join_path(dir.as_str(), "hyprland.conf"), content: owned(hyprland_conf()) }
}

/// The shell settings: `settings.json` in the shell's settings directory,
/// the default settings written as pretty JSON.
pub fn generate_shell_config(d: &UserDirs) -> (r: FileWrite)
    requires
        d.config is Some,
    ensures
        r.path@ == path_join(path_join(config_dir_of(*d), "shell"@), "settings.json"@),
        exists|v: JsonValue| is_default_shell_settings(v) && r.content@ == pretty_text_of(v),
{
    let dir = shell_config_dir(d);
    let v = default_shell_settings();
    let content = to_pretty_json(&v);
    FileWrite { path: join_path(dir.as_str(), "settings.json"), content }
}

/// Both generated files: the compositor configuration, then the shell
/// settings.
pub fn generate_default_configs(d: &UserDirs) -> (r: Vec<FileWrite>)
    requires
        d.config is Some,
    ensures
        r@.len() == 2,
        r@[0].path@ == path_join(path_join(config_dir_of(*d), "hypr"@), "hyprland.conf"@),
        r@[0].content@ == hyprland_conf_text(),
        r@[1].path@ == path_join(path_join(config_dir_of(*d), "shell"@), "settings.json"@),
        exists|v: JsonValue| is_default_shell_settings(v) && r@[1].content@ == pretty_text_of(v),
{
    let mut r: Vec<FileWrite> = Vec::new();
    r.push(generate_hypr_config(d));
    r.push(generate_shell_config(d));
    r
}

} // verus!
