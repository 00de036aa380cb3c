//! The commands of the command line, as plain values.

use vstd::prelude::*;

verus! {

/// One invocation of the tool.
pub struct Cli {
    pub command: Commands,
}

/// What the operator asks for.
pub enum Commands {
    /// Deploy a new application from a repository.
    Create { name: String, type_: String, github_url: String },
    /// Remove an application.
    Remove { name: String },
    /// Stop an application.
    Stop { name: String },
    /// Start an application.
    Start { name: String },
    /// Bring the control plane up on the local engine.
    Up,
    /// Take the control plane down.
    Down,
}

} // verus!
