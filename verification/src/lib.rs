//! Feeding a native audio engine from any readable, seekable source.
//!
//! The engine asks for data through four operations (read a chunk, move to
//! an absolute offset, tell the current offset, tell the total size), each
//! of which answers with one signed 64-bit number. This crate holds those
//! four operations, written against the [`source::Source`] capability, and
//! an in-memory source that fulfils it.

pub mod inputstream;
pub mod memory;
pub mod source;
