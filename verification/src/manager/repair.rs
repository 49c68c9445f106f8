//! The `repair` command: what to look for, and what to redo for what is
//! missing.
use vstd::prelude::*;

use crate::manager::commands::Cli;
use crate::manager::paths::{
    bin_dir_system, bin_dir_user, cache_dir, cache_dir_of, config_dir, config_dir_of,
    data_dir, data_dir_of, hypr_config_dir, session_dir_system, session_dir_user,
    shell_config_dir, systemd_service_dir, systemd_service_dir_of, UserDirs,
};
use crate::manager::config::FileWrite;
use crate::manager::session::{
    safe_write, session_desktop_text, session_file_path, session_script_path, session_script_text,
};
use crate::text::{join_path, path_join};

verus! {

/// What repairing a missing file or directory takes.
#[derive(Debug, Clone)]
pub enum RepairAction {
    CreateDir(String),
    GenerateHyprConfig,
    GenerateShellConfig,
    InstallSessionScript,
    InstallService,
    InstallSessionFile,
}

impl RepairAction {
    /// An identical copy.
    pub fn duplicate(&self) -> (r: Self)
        ensures
            r == *self,
    {
        match self {
            RepairAction::CreateDir(p) => RepairAction::CreateDir(p.clone()),
            RepairAction::GenerateHyprConfig => RepairAction::GenerateHyprConfig,
            RepairAction::GenerateShellConfig => RepairAction::GenerateShellConfig,
            RepairAction::InstallSessionScript => RepairAction::InstallSessionScript,
            RepairAction::InstallService => RepairAction::InstallService,
            RepairAction::InstallSessionFile => RepairAction::InstallSessionFile,
        }
    }
}

/// A path to look for, and what to do when it is missing.
#[derive(Debug, Clone)]
pub struct RepairCheck {
    pub path: String,
    pub action: RepairAction,
}

/// The check of `path`, creating it as a directory when missing.
pub open spec fn is_dir_check(c: RepairCheck, path: Seq<char>) -> bool {
    c.path@ == path && (c.action matches RepairAction::CreateDir(p) && p@ == path)
}

/// The directories the user needs for the session's binaries and session
/// file to be looked for (the system's need nothing).
pub open spec fn dirs_known(cli: Cli, d: UserDirs) -> bool {
    &&& d.config is Some
    &&& d.data is Some
    &&& d.cache is Some
    &&& !cli.system_wide ==> (d.executable is Some || d.home is Some)
}

/// What `repair` looks for, in order: the six directories of the session,
/// the compositor configuration, the shell settings, the session script, the
/// daemon's unit and the session file (the system's or the user's, as the
/// command line says).
pub open spec fn repair_checks(cli: Cli, d: UserDirs, cs: Seq<RepairCheck>) -> bool {
    let config = config_dir_of(d);
    &&& cs.len() == 11
    &&& is_dir_check(cs[0], config)
    &&& is_dir_check(cs[1], path_join(config, "hypr"@))
    &&& is_dir_check(cs[2], path_join(config, "shell"@))
    &&& is_dir_check(cs[3], data_dir_of(d))
    &&& is_dir_check(cs[4], cache_dir_of(d))
    &&& is_dir_check(cs[5], systemd_service_dir_of(d))
    &&& cs[6].path@ == path_join(path_join(config, "hypr"@), "hyprland.conf"@)
    &&& cs[6].action is GenerateHyprConfig
    &&& cs[7].path@ == path_join(path_join(config, "shell"@), "settings.json"@)
    &&& cs[7].action is GenerateShellConfig
    &&& cs[8].path@ == session_script_path(d, cli.system_wide)
    &&& cs[8].action is InstallSessionScript
    &&& cs[9].path@ == path_join(systemd_service_dir_of(d), "x4-shell-daemon.service"@)
    &&& cs[9].action is InstallService
    &&& cs[10].path@ == session_file_path(d, cli.system_wide)
    &&& cs[10].action is InstallSessionFile
}

fn dir_check(path: String) -> (r: RepairCheck)
    ensures
        is_dir_check(r, path@),
{
    let p = path.clone();
    RepairCheck { path, action: RepairAction::CreateDir(p) }
}

/// The paths `repair` looks for, and what it does for each one missing.
pub fn checks(cli: &Cli, d: &UserDirs) -> (r: Vec<RepairCheck>)
    requires
        dirs_known(*cli, *d),
    ensures
        repair_checks(*cli, *d, r@),
{
    let mut r: Vec<RepairCheck> = Vec::new();
    r.push(dir_check(config_dir(d)));
    r.push(dir_check(hypr_config_dir(d)));
    r.push(dir_check(shell_config_dir(d)));
    r.push(dir_check(data_dir(d)));
    r.push(dir_check(cache_dir(d)));
    r.push(dir_check(systemd_service_dir(d)));
    let hypr = hypr_config_dir(d);
    r.push(RepairCheck { path: join_path(hypr.as_str(), "hyprland.conf"), action: RepairAction::GenerateHyprConfig });
    let shell = shell_config_dir(d);
    r.push(RepairCheck { path: join_path(shell.as_str(), "settings.json"), action: RepairAction::GenerateShellConfig });
    let bin = if cli.system_wide { bin_dir_system() } else { bin_dir_user(d) };
    r.push(RepairCheck { path: join_path(bin.as_str(), "x4-shell-session"), action: RepairAction::InstallSessionScript });
    let units = systemd_service_dir(d);
    r.push(RepairCheck { path: join_path(units.as_str(), "x4-shell-daemon.service"), action: RepairAction::InstallService });
    let sessions = if cli.system_wide { session_dir_system() } else { session_dir_user(d) };
    r.push(RepairCheck { path: join_path(sessions.as_str(), "x4-shell.desktop"), action: RepairAction::InstallSessionFile });
    r
}

/// What a repair reinstalls is found by the next one: the session script
/// and the session file that the install steps write, for the same command
/// line, stand at the paths that `checks` looks for.
pub proof fn law_repair_finds_reinstalled(
    cli: Cli,
    d: UserDirs,
    cs: Seq<RepairCheck>,
    script: Result<FileWrite, String>,
    desktop: Result<FileWrite, String>,
)
    requires
        repair_checks(cli, d, cs),
        safe_write(d, session_script_path(d, cli.system_wide), session_script_text(), script),
        safe_write(d, session_file_path(d, cli.system_wide), session_desktop_text(), desktop),
    ensures
        script matches Ok(w) ==> w.path@ == cs[8].path@ && cs[8].action is InstallSessionScript,
        desktop matches Ok(w) ==> w.path@ == cs[10].path@ && cs[10].action is InstallSessionFile,
{
}

/// The actions of the checks whose paths are missing, in order.
pub open spec fn missing_actions(cs: Seq<RepairCheck>, present: Seq<bool>) -> Seq<RepairAction>
    decreases cs.len(),
{
    if cs.len() == 0 {
        Seq::empty()
    } else {
        let init = missing_actions(cs.drop_last(), present);
        if present[cs.len() - 1] {
            init
        } else {
            init.push(cs.last().action)
        }
    }
}

/// What `repair` does: the action of every check whose path is missing
/// (`present[i]` says whether the path of check `i` exists), in order.
pub fn run(checks: &Vec<RepairCheck>, present: &Vec<bool>) -> (r: Vec<RepairAction>)
    requires
        present@.len() == checks@.len(),
    ensures
        r@ == missing_actions(checks@, present@),
{
    let mut r: Vec<RepairAction> = Vec::new();
    let mut i: usize = 0;
    while i < checks.len()
        invariant
            i <= checks@.len(),
            present@.len() == checks@.len(),
            r@ == missing_actions(checks@.take(i as int), present@),
        decreases checks.len() - i,
    {
        proof {
            assert(checks@.take(i + 1).drop_last() =~= checks@.take(i as int));
            assert(checks@.take(i + 1).last() == checks@[i as int]);
        }
        if !present[i] {
            r.push(checks[i].action.duplicate());
        }
        i = i + 1;
    }
    proof {
        assert(checks@.take(checks@.len() as int) =~= checks@);
    }
    r
}

} // verus!
