//! The shell daemon's systemd user unit.
use vstd::prelude::*;

use crate::manager::config::FileWrite;
use crate::manager::paths::{ensure_safe_path, systemd_service_dir, systemd_service_dir_of, UserDirs};
use crate::text::{join_path, owned, path_join};

verus! {

/// The unit file of the daemon.
pub open spec fn service_file_text() -> Seq<char> {
    "[Unit]
Description=X4 Shell Daemon
After=graphical-session.target
PartOf=graphical-session.target

[Service]
ExecStart=/usr/local/bin/x4shell-daemon
Restart=on-failure
RestartSec=5s

[Install]
WantedBy=graphical-session.target
"@
}

fn service_file() -> (r: &'static str)
    ensures
        r@ == service_file_text(),
{
    "[Unit]
Description=X4 Shell Daemon
After=graphical-session.target
PartOf=graphical-session.target

[Service]
ExecStart=/usr/local/bin/x4shell-daemon
Restart=on-failure
RestartSec=5s

[Install]
WantedBy=graphical-session.target
"
}

/// The daemon's unit file, `x4-shell-daemon.service` among the user's
/// units; refused where that path is not safe to write.
pub fn install_service(d: &UserDirs) -> (r: Result<FileWrite, String>)
    requires
        d.config is Some,
    ensures
        ({
            let p = path_join(systemd_service_dir_of(*d), "x4-shell-daemon.service"@);
            if crate::manager::paths::path_starts_with(p, path_join(d.config->0@, "hypr"@)) {
                r matches Err(m) && m@ == "Refusing to operate on Hyprland config path: "@ + p
            } else {
                r matches Ok(w) && w.path@ == p && w.content@ == service_file_text()
            }
        }),
{
    let dir = systemd_service_dir(d);
    let path = join_path(dir.as_str(), "x4-shell-daemon.service");
    match ensure_safe_path(path.as_str(), d) {
        Err(m) => Err(m),
        Ok(()) => Ok(FileWrite { path, content: owned(service_file()) }),
    }
}

/// The arguments of `systemctl` that apply `action` (`enable`, `start`,
/// `stop` or `disable`) to the daemon's user unit.
pub fn service_command_args(action: &str) -> (r: Vec<String>)
    ensures
        r@.len() == 3,
        r@[0]@ == "--user"@,
        r@[1]@ == action@,
        r@[2]@ == "x4-shell-daemon.service"@,
{
    let mut r: Vec<String> = Vec::new();
    r.push(owned("--user"));
    r.push(owned(action));
    r.push(owned("x4-shell-daemon.service"));
    r
}

} // verus!
