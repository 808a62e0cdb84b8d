//! Finds the file-manager window that has focus and the folder it shows.
//!
//! The operating-system calls are made by the host; this crate holds the
//! decisions between them as verified state machines and pure functions.
pub mod discovery;
pub mod error;
pub mod matcher;
pub mod path;
pub mod registry;
pub mod session;
