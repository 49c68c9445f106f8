//! The `uninstall` command: what to remove.
use vstd::prelude::*;

use crate::manager::commands::Cli;
use crate::manager::paths::{
    bin_dir_system, bin_dir_user, bin_dir_user_of, session_dir_system, session_dir_user, session_dir_user_of,
    systemd_service_dir, systemd_service_dir_of, UserDirs,
};
use crate::text::{join_path, path_join};

verus! {

/// A step of the uninstallation.
#[derive(Debug, Clone)]
pub enum UninstallStep {
    /// Remove the file (a dry run only reports it).
    RemoveFile(String),
    /// Stop the daemon's unit, errors ignored.
    StopService,
    /// Disable the daemon's unit, errors ignored.
    DisableService,
    /// Report that the configuration directories are kept.
    ReportConfigKept,
}

/// The files `uninstall` removes when they exist, in order: the daemon's
/// unit, the user's and the system's session files, then the session script
/// in the system's binaries (and first in the user's, unless system-wide).
pub open spec fn uninstall_targets(cli: Cli, d: UserDirs, ts: Seq<String>) -> bool {
    &&& ts[0]@ == path_join(systemd_service_dir_of(d), "x4-shell-daemon.service"@)
    &&& ts[1]@ == path_join(session_dir_user_of(d), "x4-shell.desktop"@)
    &&& ts[2]@ == path_join("/usr/share/wayland-sessions"@, "x4-shell.desktop"@)
    &&& if cli.system_wide {
        ts.len() == 4 && ts[3]@ == path_join("/usr/local/bin"@, "x4-shell-session"@)
    } else {
        &&& ts.len() == 5
        &&& ts[3]@ == path_join(bin_dir_user_of(d), "x4-shell-session"@)
        &&& ts[4]@ == path_join("/usr/local/bin"@, "x4-shell-session"@)
    }
}

/// The files `uninstall` looks for.
pub fn targets(cli: &Cli, d: &UserDirs) -> (r: Vec<String>)
    requires
        d.config is Some,
        d.data is Some,
        !cli.system_wide ==> (d.executable is Some || d.home is Some),
    ensures
        uninstall_targets(*cli, *d, r@),
{
    let mut r: Vec<String> = Vec::new();
    let units = systemd_service_dir(d);
    r.push(join_path(units.as_str(), "x4-shell-daemon.service"));
    let user_sessions = session_dir_user(d);
    r.push(join_path(user_sessions.as_str(), "x4-shell.desktop"));
    let system_sessions = session_dir_system();
    r.push(join_path(system_sessions.as_str(), "x4-shell.desktop"));
    if !cli.system_wide {
        let user_bin = bin_dir_user(d);
        r.push(join_path(user_bin.as_str(), "x4-shell-session"));
    }
    let system_bin = bin_dir_system();
    r.push(join_path(system_bin.as_str(), "x4-shell-session"));
    r
}

/// A step as a value of the specification.
pub enum StepView {
    Remove(Seq<char>),
    Stop,
    Disable,
    Keep,
}

/// The view of a step.
pub open spec fn step_view(s: UninstallStep) -> StepView {
    match s {
        UninstallStep::RemoveFile(p) => StepView::Remove(p@),
        UninstallStep::StopService => StepView::Stop,
        UninstallStep::DisableService => StepView::Disable,
        UninstallStep::ReportConfigKept => StepView::Keep,
    }
}

/// The removals of the targets from position `from` on that exist.
pub open spec fn removals(ts: Seq<String>, present: Seq<bool>, from: int) -> Seq<StepView>
    decreases ts.len() - from,
{
    if from >= ts.len() {
        Seq::empty()
    } else if present[from] {
        seq![StepView::Remove(ts[from]@)] + removals(ts, present, from + 1)
    } else {
        removals(ts, present, from + 1)
    }
}

/// What `uninstall` does, given which targets exist: remove the daemon's
/// unit if it is there, stop and disable the daemon, remove the other
/// targets that are there, and (unless a dry run) report that the
/// configuration stays.
pub fn run(cli: &Cli, targets: &Vec<String>, present: &Vec<bool>) -> (r: Vec<UninstallStep>)
    requires
        targets@.len() >= 1,
        present@.len() == targets@.len(),
    ensures
        ({
            let first = if present@[0] { seq![StepView::Remove(targets@[0]@)] } else { Seq::empty() };
            let tail = if cli.dry_run { Seq::empty() } else { seq![StepView::Keep] };
            r@.map_values(|s: UninstallStep| step_view(s)) == first + seq![StepView::Stop, StepView::Disable]
                + removals(targets@, present@, 1) + tail
        }),
{
    let mut r: Vec<UninstallStep> = Vec::new();
    if present[0] {
        r.push(UninstallStep::RemoveFile(targets[0].clone()));
    }
    r.push(UninstallStep::StopService);
    r.push(UninstallStep::DisableService);
    let ghost head = r@.map_values(|s: UninstallStep| step_view(s));
    let mut i: usize = 1;
    while i < targets.len()
        invariant
            1 <= i <= targets@.len(),
            present@.len() == targets@.len(),
            r@.map_values(|s: UninstallStep| step_view(s)) + removals(targets@, present@, i as int) == head + removals(
                targets@,
                present@,
                1,
            ),
        decreases targets.len() - i,
    {
        let ghost before = r@.map_values(|s: UninstallStep| step_view(s));
        if present[i] {
            r.push(UninstallStep::RemoveFile(targets[i].clone()));
            proof {
                assert(r@.map_values(|s: UninstallStep| step_view(s)) =~= before.push(StepView::Remove(targets@[i as int]@)));
                assert(before + removals(targets@, present@, i as int) =~= before.push(StepView::Remove(targets@[i as int]@)) + removals(
                    targets@,
                    present@,
                    i + 1,
                ));
            }
        }
        i = i + 1;
    }
    proof {
        assert(removals(targets@, present@, i as int) =~= Seq::<StepView>::empty());
        assert(r@.map_values(|s: UninstallStep| step_view(s)) + Seq::<StepView>::empty() =~= r@.map_values(
            |s: UninstallStep| step_view(s),
        ));
    }
    let ghost body = r@.map_values(|s: UninstallStep| step_view(s));
    if !cli.dry_run {
        r.push(UninstallStep::ReportConfigKept);
        proof {
            assert(r@.map_values(|s: UninstallStep| step_view(s)) =~= body.push(StepView::Keep));
        }
    }
    proof {
        let first = if present@[0] { seq![StepView::Remove(targets@[0]@)] } else { Seq::<StepView>::empty() };
        assert(head =~= first + seq![StepView::Stop, StepView::Disable]);
        let tail = if cli.dry_run { Seq::<StepView>::empty() } else { seq![StepView::Keep] };
        assert(r@.map_values(|s: UninstallStep| step_view(s)) =~= body + tail);
    }
    r
}

} // verus!
