//! A stream cutter: the decisions of a filter that copies bytes from a
//! source to a sink until a byte budget or a time limit is used up.
//!
//! The library holds no I/O. A driver performs the reads, writes and sleeps
//! that a [`session::Session`] asks for and reports what happened; every
//! decision about forwarding, retrying and stopping is taken here.

pub mod clock;
pub mod config;
pub mod failure;
pub mod laws;
pub mod session;
pub mod source;
pub mod trace;
