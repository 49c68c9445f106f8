//! The manager's command line and the dispatch of its commands.
use vstd::prelude::*;

use crate::manager::update::UpdateStep;

verus! {

/// The options of `status`.
#[derive(Debug, Clone, Copy, PartialEq, Eq, Structural)]
pub struct StatusArgs {
    /// Print the report as JSON.
    pub json: bool,
}

/// The manager's commands.
#[derive(Debug, Clone, Copy, PartialEq, Eq, Structural)]
pub enum Commands {
    Install,
    Uninstall,
    Update,
    Repair,
    Status(StatusArgs),
}

/// The manager's command line.
#[derive(Debug, Clone, Copy, PartialEq, Eq, Structural)]
pub struct Cli {
    pub command: Commands,
    pub yes: bool,
    pub dry_run: bool,
    pub verbose: bool,
    pub system_wide: bool,
}

impl Cli {
    /// The level of the log: `debug` when verbose, else `info`.
    pub fn log_level(&self) -> (r: &'static str)
        ensures
            r@ == if self.verbose { "debug"@ } else { "info"@ },
    {
        if self.verbose {
            "debug"
        } else {
            "info"
        }
    }
}

/// What the command line asks for.
#[derive(Debug, Clone)]
pub enum Task {
    Install { dry_run: bool, system_wide: bool },
    Uninstall { dry_run: bool, system_wide: bool },
    Update(Vec<UpdateStep>),
    Repair { dry_run: bool, system_wide: bool },
    Status { json: bool },
}

/// The task of the command line's command, with the options it uses; an
/// update comes with its steps.
pub fn run(cli: &Cli) -> (r: Task)
    ensures
        match cli.command {
            Commands::Install => r == Task::Install { dry_run: cli.dry_run, system_wide: cli.system_wide },
            Commands::Uninstall => r == Task::Uninstall { dry_run: cli.dry_run, system_wide: cli.system_wide },
            Commands::Update => r matches Task::Update(steps) && steps@ == (if cli.dry_run {
                seq![UpdateStep::StopService, UpdateStep::StartService]
            } else {
                seq![UpdateStep::StopService, UpdateStep::ReportBinaryUnchanged, UpdateStep::StartService]
            }),
            Commands::Repair => r == Task::Repair { dry_run: cli.dry_run, system_wide: cli.system_wide },
            Commands::Status(args) => r == Task::Status { json: args.json },
        },
{
    match cli.command {
        Commands::Install => Task::Install { dry_run: cli.dry_run, system_wide: cli.system_wide },
        Commands::Uninstall => Task::Uninstall { dry_run: cli.dry_run, system_wide: cli.system_wide },
        Commands::Update => Task::Update(crate::manager::update::run(cli)),
        Commands::Repair => Task::Repair { dry_run: cli.dry_run, system_wide: cli.system_wide },
        Commands::Status(args) => Task::Status { json: args.json },
    }
}

} // verus!
