//! Shims: small shell scripts that run a binary by its absolute path.
use crate::text::cat3;
use vstd::prelude::*;

verus! {

/// A shim for the binary at `target`.
pub struct Shim {
    target: String,
}

/// The script of a shim for `target`: it execs the target with all
/// arguments passed on.
pub open spec fn shim_script(target: Seq<char>) -> Seq<char> {
    "#!/bin/sh\nexec \""@ + target + "\" \"$@\""@
}

impl View for Shim {
    type V = Seq<char>;

    /// The path of the binary that the shim runs.
    closed spec fn view(&self) -> Seq<char> {
        self.target@
    }
}

impl Shim {
    /// A shim for the binary at `bin`. That the binary exists is a question
    /// about the file system, which the library does not ask: the program
    /// checks it before writing a shim and stops with `Requested path is not
    /// available:` and the path when it does not.
    pub fn new(bin: &str) -> (shim: Shim)
        ensures
            shim@ == bin@,
    {
        Shim { target: crate::text::owned(bin) }
    }

    /// The text of the shim script.
    pub fn generate(&self) -> (script: String)
        ensures
            script@ == shim_script(self@),
    {
        cat3("#!/bin/sh\nexec \"", self.target.as_str(), "\" \"$@\"")
    }
}

} // verus!
