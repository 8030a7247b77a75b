//! The request that the command line makes of the library.

use vstd::prelude::*;

verus! {

/// A parsed command line.
#[derive(Debug)]
pub struct Cli {
    pub command: Commands,
}

/// The subcommands.
#[derive(Debug)]
pub enum Commands {
    /// Create the project `name`; `git` asks for a repository in it, `docs`
    /// for the documentation starter files.
    Init { name: String, git: bool, docs: bool },
}

} // verus!
