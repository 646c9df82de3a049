//! Core of a renderer-side state visualization pipeline: a shared,
//! lock-guarded byte buffer written by a producer thread, a mirror buffer
//! kept in sync by an opportunistic (never-blocking) or smooth (blocking)
//! refresh protocol, and a slice-range map that projects logical slice ids
//! onto byte ranges of the flat buffer.

use vstd::prelude::*;

pub mod hex_grid_buffer;
pub mod map;
pub mod rng;
pub mod state;

verus! {

/// The error conditions surfaced by this crate.
#[derive(Clone, Copy, Debug, PartialEq, Eq, Structural)]
pub enum BufferError {
    /// A slice id or slice-id range lies outside the declared total range.
    OutOfRange,
    /// A writer supplied a payload whose length differs from the buffer length.
    LengthMismatch,
    /// A replacement map's total element count differs from the mirror buffer length.
    SizeMismatch,
    /// A lock holder terminated abnormally while holding the lock.
    LockPoisoned,
}

} // verus!
