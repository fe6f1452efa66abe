//! The command line, once parsed.

use vstd::prelude::*;

verus! {

/// A subcommand of the tool.
#[derive(Debug, Clone, PartialEq, Eq)]
pub enum Commands {
    /// Create a new workspace-style project called `name`.
    Init { name: String },
}

/// The parsed command line. Without a subcommand there is nothing to do.
#[derive(Debug, Clone, PartialEq, Eq)]
pub struct Args {
    pub command: Option<Commands>,
}

impl Args {
    /// The name of the project that the command line asks for, if it asks for one.
    pub open spec fn requested(&self) -> Option<Seq<char>> {
        match self.command {
            Some(Commands::Init { name }) => Some(name@),
            None => None,
        }
    }
}

} // verus!
