//! The `update` command.
use vstd::prelude::*;

use crate::manager::commands::Cli;

verus! {

/// A step of the update.
#[derive(Debug, Clone, Copy, PartialEq, Eq, Structural)]
pub enum UpdateStep {
    /// Stop the daemon's unit (a dry run only reports it).
    StopService,
    /// Report that the binary is not replaced.
    ReportBinaryUnchanged,
    /// Start the daemon's unit (a dry run only reports it).
    StartService,
}

/// The steps of an update: stop the daemon, report (unless it is a dry run)
/// that the binary stays, start the daemon again.
pub fn run(cli: &Cli) -> (r: Vec<UpdateStep>)
    ensures
        r@ == if cli.dry_run {
            seq![UpdateStep::StopService, UpdateStep::StartService]
        } else {
            seq![UpdateStep::StopService, UpdateStep::ReportBinaryUnchanged, UpdateStep::StartService]
        },
{
    let mut r: Vec<UpdateStep> = Vec::new();
    r.push(UpdateStep::StopService);
    if !cli.dry_run {
        r.push(UpdateStep::ReportBinaryUnchanged);
    }
    r.push(UpdateStep::StartService);
    proof {
        if cli.dry_run {
            assert(r@ =~= seq![UpdateStep::StopService, UpdateStep::StartService]);
        } else {
            assert(r@ =~= seq![UpdateStep::StopService, UpdateStep::ReportBinaryUnchanged, UpdateStep::StartService]);
        }
    }
    r
}

} // verus!
