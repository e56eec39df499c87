//! Segment descriptors of the global descriptor table.
pub mod access;
pub mod entry;
pub mod flag;
pub mod init;
