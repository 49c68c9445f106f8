//! The `status` command: what is installed and running, as a report.
use vstd::prelude::*;

use crate::json::{json_of_text, parse_json, pretty_text_of, to_pretty_json, JsonValue};
use crate::manager::paths::{
    cache_dir, config_dir, data_dir, hypr_config_dir, session_dir_system, session_dir_user, shell_config_dir,
    systemd_service_dir, UserDirs,
};
use crate::text::{bool_text, bool_word, chars_of, extend_str, join_path, owned, string_of, trim, trim_chars};

verus! {

/// What `status` found.
#[derive(Debug, Clone, Copy, PartialEq, Eq, Structural)]
pub struct StatusReport {
    pub daemon_running: bool,
    pub service_file_exists: bool,
    pub session_file_exists: bool,
    pub hypr_config_exists: bool,
    pub shell_config_exists: bool,
    pub shell_config_valid: bool,
    pub config_dir_exists: bool,
    pub data_dir_exists: bool,
    pub cache_dir_exists: bool,
}

/// The paths `status` looks at.
#[derive(Debug, Clone)]
pub struct StatusPaths {
    pub service_file: String,
    pub session_file_user: String,
    pub session_file_system: String,
    pub hypr_config: String,
    pub shell_config: String,
    pub config_dir: String,
    pub data_dir: String,
    pub cache_dir: String,
}

/// The text report.
pub open spec fn report_text(r: StatusReport, config: Seq<char>, data: Seq<char>, cache: Seq<char>) -> Seq<char> {
    "x4-shell Status Report\n"@ + "=========================\n"@ + "Daemon running: "@ + bool_text(r.daemon_running)
        + "\n"@ + "Service file exists: "@ + bool_text(r.service_file_exists) + "\n"@ + "Session file exists: "@
        + bool_text(r.session_file_exists) + "\n"@ + "Hyprland config exists: "@ + bool_text(r.hypr_config_exists)
        + "\n"@ + "Shell config exists: "@ + bool_text(r.shell_config_exists) + "\n"@ + "Shell config valid: "@
        + bool_text(r.shell_config_valid) + "\n"@ + "\nDirectories:\n"@ + "  Config: "@ + config + " ("@
        + bool_text(r.config_dir_exists) + ")\n"@ + "  Data: "@ + data + " ("@ + bool_text(r.data_dir_exists)
        + ")\n"@ + "  Cache: "@ + cache + " ("@ + bool_text(r.cache_dir_exists) + ")\n"@
}

/// `e` is the member `key` with the boolean `b`.
pub open spec fn is_bool_entry(e: (String, JsonValue), key: Seq<char>, b: bool) -> bool {
    e.0@ == key && e.1 == JsonValue::Bool(b)
}

/// The report as a JSON object of its nine flags.
pub open spec fn is_report_object(v: JsonValue, r: StatusReport) -> bool {
    v matches JsonValue::Object(es) && {
        let es = es@;
        &&& es.len() == 9
        &&& is_bool_entry(es[0], "cache_dir_exists"@, r.cache_dir_exists)
        &&& is_bool_entry(es[1], "config_dir_exists"@, r.config_dir_exists)
        &&& is_bool_entry(es[2], "daemon_running"@, r.daemon_running)
        &&& is_bool_entry(es[3], "data_dir_exists"@, r.data_dir_exists)
        &&& is_bool_entry(es[4], "hypr_config_exists"@, r.hypr_config_exists)
        &&& is_bool_entry(es[5], "service_file_exists"@, r.service_file_exists)
        &&& is_bool_entry(es[6], "session_file_exists"@, r.session_file_exists)
        &&& is_bool_entry(es[7], "shell_config_exists"@, r.shell_config_exists)
        &&& is_bool_entry(es[8], "shell_config_valid"@, r.shell_config_valid)
    }
}

fn bool_entry(key: &str, b: bool) -> (r: (String, JsonValue))
    ensures
        is_bool_entry(r, key@, b),
{
    (owned(key), JsonValue::Bool(b))
}

impl StatusReport {
    /// The paths `status` looks at: the daemon's unit, the user's and the
    /// system's session files, the two configuration files and the three
    /// directories.
    pub fn paths(d: &UserDirs) -> (r: StatusPaths)
        requires
            d.config is Some,
            d.data is Some,
            d.cache is Some,
        ensures
            r.service_file@ == crate::text::path_join(
                crate::manager::paths::systemd_service_dir_of(*d),
                "x4-shell-daemon.service"@,
            ),
            r.session_file_user@ == crate::text::path_join(
                crate::manager::paths::session_dir_user_of(*d),
                "x4-shell.desktop"@,
            ),
            r.session_file_system@ == crate::text::path_join("/usr/share/wayland-sessions"@, "x4-shell.desktop"@),
            r.hypr_config@ == crate::text::path_join(
                crate::text::path_join(crate::manager::paths::config_dir_of(*d), "hypr"@),
                "hyprland.conf"@,
            ),
            r.shell_config@ == crate::text::path_join(
                crate::text::path_join(crate::manager::paths::config_dir_of(*d), "shell"@),
                "settings.json"@,
            ),
            r.config_dir@ == crate::manager::paths::config_dir_of(*d),
            r.data_dir@ == crate::manager::paths::data_dir_of(*d),
            r.cache_dir@ == crate::manager::paths::cache_dir_of(*d),
    {
        let units = systemd_service_dir(d);
        let sessions = session_dir_user(d);
        let system_sessions = session_dir_system();
        let hypr = hypr_config_dir(d);
        let shell = shell_config_dir(d);
        StatusPaths {
            service_file: join_path(units.as_str(), "x4-shell-daemon.service"),
            session_file_user: join_path(sessions.as_str(), "x4-shell.desktop"),
            session_file_system: join_path(system_sessions.as_str(), "x4-shell.desktop"),
            hypr_config: join_path(hypr.as_str(), "hyprland.conf"),
            shell_config: join_path(shell.as_str(), "settings.json"),
            config_dir: config_dir(d),
            data_dir: data_dir(d),
            cache_dir: cache_dir(d),
        }
    }

    /// Whether `systemctl --user is-active` said `active` (its output, none
    /// when it could not be run).
    pub fn daemon_active(stdout: Option<&str>) -> (r: bool)
        ensures
            r == (stdout matches Some(s) && trim(s@) == "active"@),
    {
        match stdout {
            Some(s) => {
                let c = chars_of(s);
                let t = trim_chars(&c);
                crate::text::str_eq(string_of(&t).as_str(), "active")
            },
            None => false,
        }
    }

    /// Whether the shell settings are valid: the file exists and its text
    /// (none when it could not be read) is a JSON document.
    pub fn shell_config_valid(exists: bool, text: Option<&str>) -> (r: bool)
        ensures
            r == (exists && (text matches Some(t) && json_of_text(t@) is Some)),
    {
        if !exists {
            return false;
        }
        match text {
            Some(t) => parse_json(t).is_some(),
            None => false,
        }
    }

    /// The report as pretty JSON.
    pub fn to_json(&self) -> (r: String)
        ensures
            exists|v: JsonValue| is_report_object(v, *self) && r@ == pretty_text_of(v),
    {
        let mut es: Vec<(String, JsonValue)> = Vec::new();
        es.push(bool_entry("cache_dir_exists", self.cache_dir_exists));
        es.push(bool_entry("config_dir_exists", self.config_dir_exists));
        es.push(bool_entry("daemon_running", self.daemon_running));
        es.push(bool_entry("data_dir_exists", self.data_dir_exists));
        es.push(bool_entry("hypr_config_exists", self.hypr_config_exists));
        es.push(bool_entry("service_file_exists", self.service_file_exists));
        es.push(bool_entry("session_file_exists", self.session_file_exists));
        es.push(bool_entry("shell_config_exists", self.shell_config_exists));
        es.push(bool_entry("shell_config_valid", self.shell_config_valid));
        let v = JsonValue::Object(es);
        to_pretty_json(&v)
    }

    /// The report as text, naming the three directories.
    pub fn to_text(&self, config: &str, data: &str, cache: &str) -> (r: String)
        ensures
            r@ == report_text(*self, config@, data@, cache@),
    {
        let mut out: Vec<char> = Vec::new();
        extend_str(&mut out, "x4-shell Status Report\n");
        extend_str(&mut out, "=========================\n");
        extend_str(&mut out, "Daemon running: ");
        extend_str(&mut out, bool_word(self.daemon_running));
        extend_str(&mut out, "\n");
        extend_str(&mut out, "Service file exists: ");
        extend_str(&mut out, bool_word(self.service_file_exists));
        extend_str(&mut out, "\n");
        extend_str(&mut out, "Session file exists: ");
        extend_str(&mut out, bool_word(self.session_file_exists));
        extend_str(&mut out, "\n");
        extend_str(&mut out, "Hyprland config exists: ");
        extend_str(&mut out, bool_word(self.hypr_config_exists));
        extend_str(&mut out, "\n");
        extend_str(&mut out, "Shell config exists: ");
        extend_str(&mut out, bool_word(self.shell_config_exists));
        extend_str(&mut out, "\n");
        extend_str(&mut out, "Shell config valid: ");
        extend_str(&mut out, bool_word(self.shell_config_valid));
        extend_str(&mut out, "\n");
        extend_str(&mut out, "\nDirectories:\n");
        extend_str(&mut out, "  Config: ");
        extend_str(&mut out, config);
        extend_str(&mut out, " (");
        extend_str(&mut out, bool_word(self.config_dir_exists));
        extend_str(&mut out, ")\n");
        extend_str(&mut out, "  Data: ");
        extend_str(&mut out, data);
        extend_str(&mut out, " (");
        extend_str(&mut out, bool_word(self.data_dir_exists));
        extend_str(&mut out, ")\n");
        extend_str(&mut out, "  Cache: ");
        extend_str(&mut out, cache);
        extend_str(&mut out, " (");
        extend_str(&mut out, bool_word(self.cache_dir_exists));
        extend_str(&mut out, ")\n");
        proof {
            assert(out@ =~= report_text(*self, config@, data@, cache@));
        }
        string_of(&out)
    }
}

} // verus!
