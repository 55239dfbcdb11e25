//! The options of the command line.

use vstd::prelude::*;

verus! {

/// What the command line asks of the program.
#[derive(Clone, Copy, Debug, PartialEq, Eq, Structural, Hash)]
pub struct Cli {
    /// Whether the commands of the bot are to be registered anew.
    pub update_commands: bool,
}

} // verus!
