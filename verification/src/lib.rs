//! A small package manager: environments of binaries, packages built
//! from GitHub repositories or the sloxpkgs registry, and shell activation.
//!
//! The library decides; the caller acts. A command is started with
//! [`run`] (binaries on `PATH` directly) or [`managed::run`] (through a
//! shim directory), which yields a [`session::Session`] and a first
//! [`protocol::Directive`]. The caller performs each directive's action
//! and hands the outcome back to [`session::Session::step`] until the
//! action is `Finish`.
pub mod activate;
pub mod building;
pub mod cli;
pub mod env;
pub mod laws;
pub mod managed;
pub mod paths;
pub mod phase;
pub mod pkg;
pub mod protocol;
pub mod rules;
pub mod session;
pub mod shim;
pub mod term;
pub mod text;

use crate::cli::Commands;
use crate::paths::StorePaths;
use crate::protocol::{Directive, Mode};
use crate::rules::begin;
use crate::session::Session;
use crate::term::{red_code, status_text};
use vstd::prelude::*;

verus! {

/// Starts `command` on `store`, with binaries put on `PATH` directly: the
/// session and its first directive.
pub fn run(command: Commands, store: StorePaths) -> (r: (Session, Directive))
    ensures
        (r.0@, r.1@) == begin(Mode::Direct, store.base@, command),
{
    Session::start(Mode::Direct, store, command)
}

/// The line that reports a failed command on the error stream: a red
/// `ERR` label, then the error.
pub fn report_error(error: &str) -> (line: String)
    ensures
        line@ == status_text("ERR"@, red_code(), error@),
{
    crate::term::status_line("ERR", crate::term::red(), error)
}

} // verus!
