use vstd::prelude::*;

verus! {

/// Why the worker could not be started.
#[derive(Debug)]
pub enum SpawnError {
    /// A resource directory that the worker needs could not be located.
    ResolutionFailed,
    /// The operating system refused to create the process.
    ExecFailed(String),
}

/// Why the kill signal did not go through.
#[derive(Debug)]
pub enum TerminateError {
    KillFailed(String),
}

} // verus!
