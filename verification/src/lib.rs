//! The verified core of a terminal session: the queues a session hands its
//! news through, the rules for what a child may ask of the app, the wake
//! owed to a consumer, and the synchronized-output hold that decides when it
//! is paid.
//!
//! The VT engine, the pseudoterminal and the threads around a session are not
//! here. What they answer reaches this crate as plain values, and everything
//! decided from those answers is.

pub mod boundary;
pub mod config;
pub mod description;
pub mod frame;
pub mod golden;
pub mod key;
pub mod listener;
pub mod mailbox;
pub mod mouse;
pub mod pty;
pub mod queue;
pub mod screen;
pub mod script;
pub mod session;
pub mod snapshot;
pub mod sync;
pub mod terminal;
mod text;
pub mod wake;
pub mod writer;

pub use mailbox::Mailbox;
pub use queue::{ClipboardTarget, Event, EventQueue};
pub use wake::Debt;
pub use writer::WriteQueue;

use vstd::prelude::*;

verus! {

/// Why a core operation failed.
///
/// Variants are distinguishable so that a boundary can map them onto status
/// codes a caller can classify.
#[derive(Clone, Copy, Debug, PartialEq, Eq, Structural)]
pub enum Error {
    /// The VT engine rejected an operation.
    Engine,
    /// The terminal's state is bigger than a snapshot can describe.
    TooLarge,
    /// A coordinate fell outside the terminal.
    OutOfRange,
    /// The queue of bytes bound for the child is at its cap, and what did not
    /// fit was dropped.
    WriteQueueFull,
    /// An operating system call failed.
    Io,
}

} // verus!
