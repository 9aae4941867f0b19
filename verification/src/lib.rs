//! GPU resource and data-upload core of a real-time renderer.
//!
//! The crate plans device-memory layouts for groups of resources, batches
//! CPU-to-GPU copies into transactions backed by a staging arena, sequences
//! their submission on a transfer queue with per-slot monotonic counters, and
//! coordinates per-frame double buffering so the CPU can prepare one frame
//! while the GPU still consumes another.  Everything here works on plain
//! values (byte offsets, sizes, bitmasks, handles as integers); the thin
//! layer that hands these plans to the graphics API lives outside the crate.

use vstd::prelude::*;

pub mod allocator;
pub mod arena;
pub mod frame;
pub mod transaction;
pub mod transfer;

verus! {

/// Number of frame slots kept in flight (double buffering).
pub const FRAME_COUNT: usize = 2;

/// Bounded wait for frame-level synchronization, in nanoseconds.
pub const TIMEOUT: u64 = 1_000_000_000;

} // verus!
