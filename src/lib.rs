//! Session controller of a core device: the verified protocol logic that
//! connects a host session, the kernel CPU mailbox and the persistent state
//! shared between kernel runs.

pub mod bytes;
pub mod cache;
pub mod error;
pub mod interner;
pub mod logbuf;
pub mod magic;
pub mod session;
pub mod supervisor;
pub mod watchdog;
pub mod worker;

pub use error::io_error;
