//! A synthetic read-only filesystem whose lookups and reads act as the
//! transport for a constrained command-execution channel.
//!
//! The crate is split into the hex codec that turns path-encoded payloads
//! into command bytes, the message types exchanged with the shell worker
//! pool, and the filesystem facade that owns the command buffer, the inode
//! table and the control files.

pub mod bytes;
pub mod chan;
pub mod fs;
pub mod hex;
pub mod shell;
