//! The command line.

use vstd::prelude::*;
use vstd::string::StringExecFns;

verus! {

/// The arguments of the program.
#[derive(Debug)]
pub struct Args {
    /// Path to the configuration file.
    pub config: String,
}

impl Default for Args {
    /// The arguments of a call without any: the configuration is read from
    /// `config.yaml`.
    fn default() -> (args: Args)
        ensures
            args.config@ == "config.yaml"@,
    {
        Args { config: String::from_str("config.yaml") }
    }
}

} // verus!
