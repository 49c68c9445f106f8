//! The session script that starts the shell, and the session's desktop
//! file that display managers list.
use vstd::prelude::*;

use crate::manager::config::FileWrite;
use crate::manager::paths::{
    bin_dir_system, bin_dir_user, bin_dir_user_of, ensure_safe_path, path_starts_with, session_dir_system,
    session_dir_user, session_dir_user_of, UserDirs,
};
use crate::text::{join_path, owned, path_join};

verus! {

/// The script that starts the daemon, the UI and the compositor.
pub open spec fn session_script_text() -> Seq<char> {
    "#!/bin/sh
XDG_DATA_HOME=\"${XDG_DATA_HOME:-$HOME/.local/share}\"
XDG_CONFIG_HOME=\"${XDG_CONFIG_HOME:-$HOME/.config}\"

DAEMON_PATH=\"/usr/local/bin/x4shell-daemon\"
if [ ! -x \"$DAEMON_PATH\" ]; then
    DAEMON_PATH=\"$HOME/.local/bin/x4shell-daemon\"
fi
if [ ! -x \"$DAEMON_PATH\" ]; then
    echo \"x4shell-daemon not found\" >&2
    exit 1
fi
$DAEMON_PATH &

sleep 1

quickshell -c \"$XDG_DATA_HOME/x4-shell/ui/main.qml\" &

exec Hyprland --config \"$XDG_CONFIG_HOME/x4-shell/hypr/hyprland.conf\"
"@
}

fn session_script_literal() -> (r: &'static str)
    ensures
        r@ == session_script_text(),
{
    "#!/bin/sh
XDG_DATA_HOME=\"${XDG_DATA_HOME:-$HOME/.local/share}\"
XDG_CONFIG_HOME=\"${XDG_CONFIG_HOME:-$HOME/.config}\"

DAEMON_PATH=\"/usr/local/bin/x4shell-daemon\"
if [ ! -x \"$DAEMON_PATH\" ]; then
    DAEMON_PATH=\"$HOME/.local/bin/x4shell-daemon\"
fi
if [ ! -x \"$DAEMON_PATH\" ]; then
    echo \"x4shell-daemon not found\" >&2
    exit 1
fi
$DAEMON_PATH &

sleep 1

quickshell -c \"$XDG_DATA_HOME/x4-shell/ui/main.qml\" &

exec Hyprland --config \"$XDG_CONFIG_HOME/x4-shell/hypr/hyprland.conf\"
"
}

/// The desktop entry of the session.
pub open spec fn session_desktop_text() -> Seq<char> {
    "[Desktop Entry]
Name=X4 Shell
Comment=Custom Hyprland-based Wayland desktop shell
Exec=/usr/local/bin/x4-shell-session
Type=Application
DesktopNames=X4Shell
Keywords=wayland;hyprland;
"@
}

fn session_desktop_literal() -> (r: &'static str)
    ensures
        r@ == session_desktop_text(),
{
    "[Desktop Entry]
Name=X4 Shell
Comment=Custom Hyprland-based Wayland desktop shell
Exec=/usr/local/bin/x4-shell-session
Type=Application
DesktopNames=X4Shell
Keywords=wayland;hyprland;
"
}

/// The outcome of writing `content` at `p`: refused inside the
/// compositor's configuration, else that file.
pub open spec fn safe_write(d: UserDirs, p: Seq<char>, content: Seq<char>, r: Result<FileWrite, String>) -> bool {
    let refused = match d.config {
        Some(c) => path_starts_with(p, path_join(c@, "hypr"@)),
        None => false,
    };
    if refused {
        r matches Err(m) && m@ == "Refusing to operate on Hyprland config path: "@ + p
    } else {
        r matches Ok(w) && w.path@ == p && w.content@ == content
    }
}

/// Where the session script goes: among the system's binaries for a
/// system-wide install, else among the user's.
pub open spec fn session_script_path(d: UserDirs, system_wide: bool) -> Seq<char> {
    path_join(if system_wide { "/usr/local/bin"@ } else { bin_dir_user_of(d) }, "x4-shell-session"@)
}

/// Where the session's desktop file goes: among the system's sessions for
/// a system-wide install, else among the user's.
pub open spec fn session_file_path(d: UserDirs, system_wide: bool) -> Seq<char> {
    path_join(
        if system_wide { "/usr/share/wayland-sessions"@ } else { session_dir_user_of(d) },
        "x4-shell.desktop"@,
    )
}

/// The session script, `x4-shell-session` among the system's binaries or
/// the user's (as `system_wide` says); refused where that path is not safe
/// to write.
pub fn install_session_script(d: &UserDirs, system_wide: bool) -> (r: Result<FileWrite, String>)
    requires
        !system_wide ==> (d.executable is Some || d.home is Some),
    ensures
        safe_write(*d, session_script_path(*d, system_wide), session_script_text(), r),
{
    let dir = if system_wide { bin_dir_system() } else { bin_dir_user(d) };
    let path = join_path(dir.as_str(), "x4-shell-session");
    match ensure_safe_path(path.as_str(), d) {
        Err(m) => Err(m),
        Ok(()) => Ok(FileWrite { path, content: owned(session_script_literal()) }),
    }
}

/// The session's desktop file, `x4-shell.desktop` among the system's
/// sessions or the user's (as `system_wide` says); refused where that path
/// is not safe to write.
pub fn install_session_file(d: &UserDirs, system_wide: bool) -> (r: Result<FileWrite, String>)
    requires
        !system_wide ==> d.data is Some,
    ensures
        safe_write(*d, session_file_path(*d, system_wide), session_desktop_text(), r),
{
    let dir = if system_wide { session_dir_system() } else { session_dir_user(d) };
    let path = join_path(dir.as_str(), "x4-shell.desktop");
    match ensure_safe_path(path.as_str(), d) {
        Err(m) => Err(m),
        Ok(()) => Ok(FileWrite { path, content: owned(session_desktop_literal()) }),
    }
}

} // verus!
