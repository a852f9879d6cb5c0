//! Starting a child process on a pseudo-terminal.
//!
//! A [`PtyCommand`] collects what is to be run. [`PtyCommand::spawn`] then decides how the
//! child is started: which of its three standard streams are the terminal, what the child
//! does to become the leader of a session that the terminal controls, and what the process
//! builder is filled with. [`Child::attach`] ends the spawn with the answer of process
//! creation. Opening the pseudo-terminal and creating the process are the caller's part.

pub mod child;
pub mod command;
pub mod env;
pub mod error;
pub mod pre_exec;
pub mod process;
pub mod stream;

pub use child::Child;
pub use command::{Launch, PtyCommand};
pub use env::EnvEdit;
pub use error::SpawnError;
pub use pre_exec::{after_step, next_step, PreExecAction, PreExecStep};
pub use stream::{Stream, StreamSource};
