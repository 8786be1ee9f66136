//! Native backend for a desktop application: the pure logic of its command
//! handlers. Each handler performs one filesystem operation or one tag edit;
//! this crate holds the verified part of each — what the handler decides and
//! the exact response it returns — while the surrounding process performs the
//! actual reads and writes.

pub mod cover_art;
pub mod fs_commands;
