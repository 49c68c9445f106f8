//! The `install` command: its checks and the order of its steps.
use vstd::prelude::*;

use crate::manager::commands::Cli;

verus! {

/// A step of the installation, after the checks.
#[derive(Debug, Clone, Copy, PartialEq, Eq, Structural)]
pub enum InstallStep {
    CreateDirectories,
    GenerateConfigs,
    InstallUiFiles,
    InstallDaemonBinary,
    InstallSessionScript,
    InstallService,
    EnableService,
    StartService,
    /// Warn that `systemctl` is missing and the unit is skipped.
    ReportNoSystemctl,
    InstallSessionFile,
    /// Remind that the UI needs quickshell.
    ReportQuickshellNeeded,
}

/// The installer runs only on Arch-based systems.
pub fn check_platform(arch_based: bool) -> (r: Result<(), &'static str>)
    ensures
        arch_based ==> r is Ok,
        !arch_based ==> (r matches Err(m) && m@ == "This installer only supports Arch-based distributions"@),
{
    if arch_based {
        Ok(())
    } else {
        Err("This installer only supports Arch-based distributions")
    }
}

/// Whether the user is asked to confirm: not in a dry run.
pub fn asks_confirmation(cli: &Cli) -> (r: bool)
    ensures
        r == !cli.dry_run,
{
    !cli.dry_run
}

/// The steps of the installation once the checks passed: the directories,
/// the configuration, the UI, the daemon and the session script; the unit
/// (installed, enabled, started) when `systemctl` is there, else a warning;
/// the session file; and, unless a dry run, the reminder about quickshell.
pub fn steps(cli: &Cli, systemctl_found: bool) -> (r: Vec<InstallStep>)
    ensures
        r@ == seq![
            InstallStep::CreateDirectories,
            InstallStep::GenerateConfigs,
            InstallStep::InstallUiFiles,
            InstallStep::InstallDaemonBinary,
            InstallStep::InstallSessionScript,
        ] + (if systemctl_found {
            seq![InstallStep::InstallService, InstallStep::EnableService, InstallStep::StartService]
        } else {
            seq![InstallStep::ReportNoSystemctl]
        }) + seq![InstallStep::InstallSessionFile] + (if cli.dry_run {
            Seq::empty()
        } else {
            seq![InstallStep::ReportQuickshellNeeded]
        }),
{
    let mut r: Vec<InstallStep> = Vec::new();
    r.push(InstallStep::CreateDirectories);
    r.push(InstallStep::GenerateConfigs);
    r.push(InstallStep::InstallUiFiles);
    r.push(InstallStep::InstallDaemonBinary);
    r.push(InstallStep::InstallSessionScript);
    if systemctl_found {
        r.push(InstallStep::InstallService);
        r.push(InstallStep::EnableService);
        r.push(InstallStep::StartService);
    } else {
        r.push(InstallStep::ReportNoSystemctl);
    }
    r.push(InstallStep::InstallSessionFile);
    if !cli.dry_run {
        r.push(InstallStep::ReportQuickshellNeeded);
    }
    proof {
        let head = seq![
            InstallStep::CreateDirectories,
            InstallStep::GenerateConfigs,
            InstallStep::InstallUiFiles,
            InstallStep::InstallDaemonBinary,
            InstallStep::InstallSessionScript,
        ];
        let mid = if systemctl_found {
            seq![InstallStep::InstallService, InstallStep::EnableService, InstallStep::StartService]
        } else {
            seq![InstallStep::ReportNoSystemctl]
        };
        let tail = if cli.dry_run { Seq::<InstallStep>::empty() } else { seq![InstallStep::ReportQuickshellNeeded] };
        assert(r@ =~= head + mid + seq![InstallStep::InstallSessionFile] + tail);
    }
    r
}

} // verus!
