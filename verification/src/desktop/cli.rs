//! The command line of the desktop program.

use vstd::prelude::*;

verus! {

/// How much the program logs.
#[derive(Clone, Copy, Debug, PartialEq, Eq, Structural)]
pub enum Verbosity {
    Info,
    Debug,
    Trace,
}

/// The arguments of the program.
#[derive(Clone, Copy, Debug, PartialEq, Eq, Structural)]
pub struct Cli {
    /// Whether the settings are reset to their defaults.
    pub reset_config: bool,
    /// How often `-v` was given.
    pub verbose: u8,
}

/// The verbosity for a count of `-v`: informative without any, debugging with
/// one, tracing with more.
pub open spec fn verbosity_for(verbose: u8) -> Verbosity {
    if verbose == 0 {
        Verbosity::Info
    } else if verbose == 1 {
        Verbosity::Debug
    } else {
        Verbosity::Trace
    }
}

impl Cli {
    /// How much the program logs for these arguments.
    pub fn log_level(&self) -> (level: Verbosity)
        ensures
            level == verbosity_for(self.verbose),
    {
        match self.verbose {
            0 => Verbosity::Info,
            1 => Verbosity::Debug,
            _ => Verbosity::Trace,
        }
    }
}

} // verus!
