//! Host side of a bridge that lets a sandboxed WebAssembly guest load, attach
//! and drive eBPF programs, and receive their events in its own memory.
use vstd::prelude::*;

pub mod attach;
pub mod control;
pub mod laws;
pub mod map_ops;
pub mod memory;
pub mod pipe;
pub mod poller;
pub mod registry;

verus! {

/// Invalid argument: a bad command, or a guest pointer or length that does
/// not fit the guest's memory.
pub const EINVAL: i32 = 22;

/// No such entry: a map descriptor that the object does not hold.
pub const ENOENT: i32 = 2;

/// The status that reports an invalid argument to the guest.
pub const INVALID_ARGUMENT: i32 = -EINVAL;

/// The status that reports a missing entry to the guest.
pub const NOT_FOUND: i32 = -ENOENT;

/// The pointer type in 32-bit WebAssembly.
pub type WasmPointer = u32;

/// The handle of a loaded eBPF object.
pub type BpfObjectType = u64;

/// A string in the guest: the offset of its first byte.
pub type WasmString = u32;

} // verus!
