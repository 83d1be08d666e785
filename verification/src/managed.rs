//! Running commands in the mode that keeps a shim directory in front of
//! `PATH`: each command that changes the store refreshes the shims and
//! ends with a report.
use crate::cli::Commands;
use crate::paths::StorePaths;
use crate::protocol::{Directive, Mode};
use crate::rules::begin;
use crate::session::Session;
use crate::text::{cat, owned};
use vstd::prelude::*;

verus! {

/// Starts `command` on `store` with shims: the session and its first
/// directive.
pub fn run(command: Commands, store: StorePaths) -> (r: (Session, Directive))
    ensures
        (r.0@, r.1@) == begin(Mode::Shims, store.base@, command),
{
    Session::start(Mode::Shims, store, command)
}

/// The line that reports a failed command on the error stream.
pub fn report_error(error: &str) -> (line: String)
    ensures
        line@ == "error "@ + error@,
{
    cat("error ", error)
}

/// The text shown while `command` runs, for the commands that show
/// progress: those on environments and on packages.
pub open spec fn progress_text(command: Commands) -> Option<Seq<char>> {
    match command {
        Commands::Env { .. } => Some("updating environment"@),
        Commands::Pkg { .. } => Some("processing package"@),
        Commands::Activate { .. } => None,
    }
}

/// The text shown while `command` runs, if it shows progress.
pub fn progress_label(command: &Commands) -> (label: Option<String>)
    ensures
        match label {
            Some(l) => progress_text(*command) == Some(l@),
            None => progress_text(*command) == None::<Seq<char>>,
        },
{
    match command {
        Commands::Env { .. } => Some(owned("updating environment")),
        Commands::Pkg { .. } => Some(owned("processing package")),
        Commands::Activate { .. } => None,
    }
}

} // verus!
