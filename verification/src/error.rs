//! Why a child could not be started.

use vstd::prelude::*;

verus! {

/// The ways in which starting a child on a pseudo-terminal fails. Nothing is retried, and
/// with either failure no process is left behind.
#[derive(Debug)]
pub enum SpawnError {
    /// No descriptor for the slave side of the pseudo-terminal could be had. Nothing was
    /// attempted after that.
    PtyUnavailable,
    /// The operating system did not create the process. This is also how a failed step of
    /// the child's own set-up arrives: the child ends before it loads the program, and its
    /// failure comes back through process creation.
    Spawn(std::io::Error),
}

} // verus!
