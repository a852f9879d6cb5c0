//! A started process together with the pseudo-terminal it runs on.

use vstd::prelude::*;

use crate::error::SpawnError;

verus! {

/// A child process and the pseudo-terminal it was started on, under one owner: the handle of
/// the terminal lives exactly as long as the handle of the process.
///
/// `H` is the handle of the process, `P` the handle of the pseudo-terminal. The state of the
/// process (running, exited, signalled) is the business of `H` alone.
#[derive(Debug)]
pub struct Child<H, P> {
    inner: H,
    pty: P,
}

/// The mathematical content of a [`Child`]: the two handles it holds.
pub struct ChildView<H, P> {
    pub process: H,
    pub pty: P,
}

impl<H, P> View for Child<H, P> {
    type V = ChildView<H, P>;

    closed spec fn view(&self) -> ChildView<H, P> {
        ChildView { process: self.inner, pty: self.pty }
    }
}

impl<H, P> Child<H, P> {
    fn new(inner: H, pty: P) -> (child: Self)
        ensures
            child@ == (ChildView { process: inner, pty }),
    {
        Child { inner, pty }
    }

    /// Ends a spawn with the answer of process creation. A created process is handed out
    /// together with `pty`; a failure is handed on as `Spawn` with its cause, and no child
    /// exists.
    pub fn attach(created: Result<H, std::io::Error>, pty: P) -> (outcome: Result<Self, SpawnError>)
        ensures
            match created {
                Ok(process) => outcome matches Ok(child) && child@ == (ChildView { process, pty }),
                Err(cause) => outcome matches Err(error) && error == SpawnError::Spawn(cause),
            },
    {
        match created {
            Ok(process) => Ok(Child::new(process, pty)),
            Err(cause) => Err(SpawnError::Spawn(cause)),
        }
    }

    /// The pseudo-terminal that the child runs on.
    #[must_use]
    pub fn pty(&self) -> (pty: &P)
        ensures
            *pty == self@.pty,
    {
        &self.pty
    }

    /// The pseudo-terminal that the child runs on, for changing it. Whatever the caller does
    /// to it is what the child then holds; the process handle is untouched.
    #[must_use]
    pub fn pty_mut(&mut self) -> (pty: &mut P)
        ensures
            *pty == old(self)@.pty,
            final(self)@ == (ChildView { process: old(self)@.process, pty: *final(pty) }),
    {
        &mut self.pty
    }
}

impl<H, P> core::ops::Deref for Child<H, P> {
    type Target = H;

    /// The handle of the process: waiting, killing and reading the exit status go through it.
    fn deref(&self) -> (process: &H)
        ensures
            *process == self@.process,
    {
        &self.inner
    }
}

impl<H, P> core::ops::DerefMut for Child<H, P> {
    /// The handle of the process, for the operations that change it. The terminal is
    /// untouched.
    fn deref_mut(&mut self) -> (process: &mut H)
        ensures
            *process == old(self)@.process,
            final(self)@ == (ChildView { process: *final(process), pty: old(self)@.pty }),
    {
        &mut self.inner
    }
}

} // verus!
