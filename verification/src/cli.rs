use vstd::prelude::*;

verus! {

/// The command-line arguments: an optional path that overrides the default
/// configuration file location, and a repeatable verbosity level.
pub struct Cli {
    pub config: Option<String>,
    pub verbose: u8,
}

} // verus!
