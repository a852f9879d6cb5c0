//! The three standard streams of the child and where each one comes from.

use vstd::prelude::*;

verus! {

/// One of the three standard streams of a process.
#[derive(Clone, Copy, Debug, PartialEq, Eq, Structural)]
pub enum Stream {
    Stdin,
    Stdout,
    Stderr,
}

/// What a standard stream of the child is connected to.
#[derive(Debug, PartialEq, Eq)]
pub enum StreamSource<S> {
    /// The slave side of the pseudo-terminal: the one device that serves every stream the
    /// caller did not override.
    PtySlave,
    /// The caller's own source, used as it is; the pseudo-terminal plays no part in it.
    Explicit(S),
}

/// Where a stream comes from, given what the caller chose for it: an explicit choice always
/// wins, and without one the stream is the terminal.
pub open spec fn resolved<S>(choice: Option<S>) -> StreamSource<S> {
    match choice {
        Some(source) => StreamSource::Explicit(source),
        None => StreamSource::PtySlave,
    }
}

/// Decides where a stream comes from, given what the caller chose for it.
pub fn resolve<S>(choice: Option<S>) -> (source: StreamSource<S>)
    ensures
        source == resolved(choice),
{
    match choice {
        Some(source) => StreamSource::Explicit(source),
        None => StreamSource::PtySlave,
    }
}

} // verus!
