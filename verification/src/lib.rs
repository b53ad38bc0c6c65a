//! Status extraction from the live memory of a foreign game process.
//!
//! The crate reads fixed, version-specific offsets out of an emulator's
//! address space through a process-memory handle, classifies which
//! execution context the game is in, decodes the per-context fields, and
//! produces one self-consistent status record per poll. Presentation of
//! the record (labels, images, transport) is left to the caller.

pub mod codec;
pub mod interface;
pub mod mem;
pub mod scan;
pub mod task;

