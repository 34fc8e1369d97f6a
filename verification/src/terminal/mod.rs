//! Pseudo-terminal backed shell sessions.
//!
//! The managers in this module decide; the operating system work (opening a
//! pseudo-terminal, spawning the shell, writing to it, resizing it) is done by
//! the caller, who hands each outcome back as a plain value.

pub mod error;
pub mod ident;
pub mod laws;
pub mod model;
pub mod pty;
pub mod session;
pub mod stream;

pub use error::TerminalError;
pub use model::{CommandBlock, CommandStatus, TerminalOutput, TerminalSession};
pub use pty::{PendingWrite, PtyManager, PtySession, PtySize, SpawnRequest};
pub use session::SessionManager;
pub use stream::OutputPublisher;
