//! The decisions of a cross-platform command runner, verified.
//!
//! Running a command takes five steps: settling the directory in which the
//! child runs ([`cwd`]), finding the executable that the command stands for
//! ([`resolve`], with [`path`] and [`search_path`]), starting the child
//! ([`launch`]), copying its output to the caller's own streams while it runs
//! ([`forward`]), and reporting how it ended ([`exit`]). [`runner`] ties the
//! steps into one invocation. [`install`] decides where tools are kept and
//! what installing one consists of.
//!
//! Nothing here touches the file system, the environment or a process. Each
//! part says what is to be done and is told what came of it, so that what it
//! decides can be stated exactly and holds for every answer that the outside
//! world may give.

pub mod cwd;
pub mod exit;
pub mod forward;
pub mod install;
pub mod launch;
pub mod path;
pub mod resolve;
pub mod runner;
pub mod search_path;
pub mod text;

pub use cwd::get_cli_run_cwd;
pub use exit::{ExecutionOutcome, RunError};
pub use install::{
    download_and_install, Cli, CliInstaller, Terraform, TerraformCli, TerraformInstaller,
};
pub use path::Platform;
pub use resolve::ResolvedCommand;
pub use runner::{cli_run, CliRun, Invocation, InvocationRequest};
