//! The directories of the shell session's files.
use vstd::prelude::*;

use crate::text::{join_path, owned, path_join};

verus! {

/// The user's standard directories, as the environment gives them.
#[derive(Debug, Clone)]
pub struct UserDirs {
    pub config: Option<String>,
    pub data: Option<String>,
    pub cache: Option<String>,
    pub executable: Option<String>,
    pub home: Option<String>,
}

impl UserDirs {
    /// The directories of the present user (the `dirs` crate's answers).
    pub fn current() -> (r: UserDirs) {
        UserDirs {
            config: crate::locations::config_dir(),
            data: crate::locations::data_dir(),
            cache: crate::locations::cache_dir(),
            executable: crate::locations::executable_dir(),
            home: crate::locations::home_dir(),
        }
    }
}

/// `<config>/x4-shell`.
pub open spec fn config_dir_of(d: UserDirs) -> Seq<char> {
    path_join(d.config->0@, "x4-shell"@)
}

/// `<data>/x4-shell`.
pub open spec fn data_dir_of(d: UserDirs) -> Seq<char> {
    path_join(d.data->0@, "x4-shell"@)
}

/// `<cache>/x4-shell`.
pub open spec fn cache_dir_of(d: UserDirs) -> Seq<char> {
    path_join(d.cache->0@, "x4-shell"@)
}

/// `<config>/systemd/user`.
pub open spec fn systemd_service_dir_of(d: UserDirs) -> Seq<char> {
    path_join(d.config->0@, "systemd/user"@)
}

/// `<data>/wayland-sessions`.
pub open spec fn session_dir_user_of(d: UserDirs) -> Seq<char> {
    path_join(d.data->0@, "wayland-sessions"@)
}

/// The user's executables directory, else `<home>/.local/bin`.
pub open spec fn bin_dir_user_of(d: UserDirs) -> Seq<char> {
    match d.executable {
        Some(e) => e@,
        None => path_join(d.home->0@, ".local/bin"@),
    }
}

/// The shell's configuration directory, `<config>/x4-shell`.
pub fn config_dir(d: &UserDirs) -> (r: String)
    requires
        d.config is Some,
    ensures
        r@ == config_dir_of(*d),
{
    match &d.config {
        Some(c) => join_path(c.as_str(), "x4-shell"),
        None => owned(""),
    }
}

/// The compositor's configuration directory, `<config>/x4-shell/hypr`.
pub fn hypr_config_dir(d: &UserDirs) -> (r: String)
    requires
        d.config is Some,
    ensures
        r@ == path_join(config_dir_of(*d), "hypr"@),
{
    let c = config_dir(d);
    join_path(c.as_str(), "hypr")
}

/// The shell's settings directory, `<config>/x4-shell/shell`.
pub fn shell_config_dir(d: &UserDirs) -> (r: String)
    requires
        d.config is Some,
    ensures
        r@ == path_join(config_dir_of(*d), "shell"@),
{
    let c = config_dir(d);
    join_path(c.as_str(), "shell")
}

/// The shell's data directory, `<data>/x4-shell`.
pub fn data_dir(d: &UserDirs) -> (r: String)
    requires
        d.data is Some,
    ensures
        r@ == data_dir_of(*d),
{
    match &d.data {
        Some(c) => join_path(c.as_str(), "x4-shell"),
        None => owned(""),
    }
}

/// The shell's cache directory, `<cache>/x4-shell`.
pub fn cache_dir(d: &UserDirs) -> (r: String)
    requires
        d.cache is Some,
    ensures
        r@ == cache_dir_of(*d),
{
    match &d.cache {
        Some(c) => join_path(c.as_str(), "x4-shell"),
        None => owned(""),
    }
}

/// The user's systemd units, `<config>/systemd/user`.
pub fn systemd_service_dir(d: &UserDirs) -> (r: String)
    requires
        d.config is Some,
    ensures
        r@ == systemd_service_dir_of(*d),
{
    match &d.config {
        Some(c) => join_path(c.as_str(), "systemd/user"),
        None => owned(""),
    }
}

/// The user's session files, `<data>/wayland-sessions`.
pub fn session_dir_user(d: &UserDirs) -> (r: String)
    requires
        d.data is Some,
    ensures
        r@ == session_dir_user_of(*d),
{
    match &d.data {
        Some(c) => join_path(c.as_str(), "wayland-sessions"),
        None => owned(""),
    }
}

/// The system's session files.
pub fn session_dir_system() -> (r: String)
    ensures
        r@ == "/usr/share/wayland-sessions"@,
{
    owned("/usr/share/wayland-sessions")
}

/// The user's executables: the standard directory, else
/// `<home>/.local/bin`.
pub fn bin_dir_user(d: &UserDirs) -> (r: String)
    requires
        d.executable is Some || d.home is Some,
    ensures
        r@ == bin_dir_user_of(*d),
{
    match &d.executable {
        Some(e) => e.clone(),
        None => match &d.home {
            Some(h) => join_path(h.as_str(), ".local/bin"),
            None => owned(""),
        },
    }
}

/// The system's executables.
pub fn bin_dir_system() -> (r: String)
    ensures
        r@ == "/usr/local/bin"@,
{
    owned("/usr/local/bin")
}

/// `Path::starts_with`: whether `base`'s components begin `path`'s.
pub uninterp spec fn path_starts_with(path: Seq<char>, base: Seq<char>) -> bool;

/// `Path::starts_with`, on paths given as text. The contract names the
/// result; how a path splits into components is not written out here.
#[verifier::external_body]
fn starts_with_path(path: &str, base: &str) -> (r: bool)
    ensures
        r == path_starts_with(path@, base@),
{
    std::path::Path::new(path).starts_with(base)
}

/// Whether the manager may write at `path`: not inside the compositor's own
/// configuration, `<config>/hypr`; the refusal names the path.
pub fn ensure_safe_path(path: &str, d: &UserDirs) -> (r: Result<(), String>)
    ensures
        match d.config {
            Some(c) => if path_starts_with(path@, path_join(c@, "hypr"@)) {
                r matches Err(m) && m@ == "Refusing to operate on Hyprland config path: "@ + path@
            } else {
                r is Ok
            },
            None => r is Ok,
        },
{
    match &d.config {
        Some(c) => {
            let hypr = join_path(c.as_str(), "hypr");
            if starts_with_path(path, hypr.as_str()) {
                Err(crate::text::concat_str("Refusing to operate on Hyprland config path: ", path))
            } else {
                Ok(())
            }
        },
        None => Ok(()),
    }
}

} // verus!
