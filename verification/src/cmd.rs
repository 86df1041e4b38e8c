//! The packaging command: what is asked for on the command line, and what
//! the packager is then told to do.

use vstd::prelude::*;

verus! {

/// What every command is given.
#[derive(Debug, Clone, PartialEq, Eq)]
pub struct GlobalArgs {
    /// How often `-v` was given.
    pub verbosity: u8,
}

/// What the packaging command is given.
#[derive(Debug, Clone, PartialEq, Eq)]
pub struct Args {
    pub dev: bool,
    pub extractor_path: String,
    pub gpu: bool,
}

/// What the packager is told to do.
#[derive(Debug, Clone, PartialEq, Eq)]
pub struct PackageJob {
    pub extractor_path: String,
    pub dev: bool,
    pub gpu: bool,
    /// Whether the packager reports what it does. It does from the second
    /// `-v` on.
    pub verbose: bool,
}

impl Args {
    /// The job that these arguments ask for.
    pub fn job(self, global_args: &GlobalArgs) -> (r: PackageJob)
        ensures
            r.extractor_path == self.extractor_path,
            r.dev == self.dev,
            r.gpu == self.gpu,
            r.verbose == (global_args.verbosity > 1),
    {
        PackageJob {
            extractor_path: self.extractor_path,
            dev: self.dev,
            gpu: self.gpu,
            verbose: global_args.verbosity > 1,
        }
    }
}

} // verus!
