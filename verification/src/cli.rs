//! The commands that the package manager understands.
use vstd::prelude::*;

verus! {

/// A parsed command line.
#[derive(Debug)]
pub struct Args {
    pub command: Commands,
}

/// The top-level commands.
#[derive(Debug)]
#[allow(inconsistent_fields)]
pub enum Commands {
    Env { command: EnvCommand },
    Activate { command: ActivateCommand },
    Pkg { command: PkgCommand },
}

/// The shells that an activation script can be written for.
#[derive(Debug, Clone, Copy)]
pub enum ActivateCommand {
    Sh,
    Bash,
    Zsh,
    Nu,
}

/// Commands on environments, each naming one.
#[derive(Debug)]
pub enum EnvCommand {
    Add { path: String },
    Remove { path: String },
    /// Makes the named environment the active one (`env set`).
    Select { path: String },
    Fetch { path: String },
}

/// Commands on packages, each naming one.
#[derive(Debug)]
pub enum PkgCommand {
    Add { path: String },
    Remove { path: String },
}

} // verus!
