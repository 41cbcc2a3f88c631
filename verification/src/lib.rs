//! A dual-mode handle on the one live session to a remote editor process.
//!
//! While the editor starts, the session lives in a slot that several threads
//! share under a lock. Once start-up is over it is moved, once, into a slot
//! that only the owning thread reaches and that needs no lock. One accessor
//! serves both phases.

pub mod client;
pub mod lock;
pub mod mode;
pub mod remote;
pub mod slot;
pub mod state;
