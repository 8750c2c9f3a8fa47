//! Opaque capability sets passed through to the native surface.
//!
//! Access rights, snapshot categories and memory-protection modes are bit
//! masks whose meaning belongs to the operating system; the library carries
//! them as opaque values and never interprets their bits.

use vstd::prelude::*;

verus! {

/// Snapshot category: heap lists of the target process.
pub const TH32CS_SNAPHEAPLIST: u32 = 0x1;

/// Snapshot category: all processes of the system.
pub const TH32CS_SNAPPROCESS: u32 = 0x2;

/// Snapshot category: all threads of the system.
pub const TH32CS_SNAPTHREAD: u32 = 0x4;

/// Snapshot category: modules of the target process.
pub const TH32CS_SNAPMODULE: u32 = 0x8;

/// Snapshot category: 32-bit modules of the target process, as seen from a
/// 64-bit caller.
pub const TH32CS_SNAPMODULE32: u32 = 0x10;

/// The category flags a snapshot is requested with.
#[derive(Clone, Copy, PartialEq, Eq, Structural, Debug)]
pub struct SnapshotFlags {
    pub bits: u32,
}

/// A memory-protection mode, carried opaquely to the protection-change native
/// call.
#[derive(Clone, Copy, PartialEq, Eq, Structural, Debug)]
pub struct ProtectFlag {
    pub bits: u32,
}

impl SnapshotFlags {
    /// Wraps a raw category mask.
    pub fn new(bits: u32) -> (r: SnapshotFlags)
        ensures
            r.bits == bits,
    {
        SnapshotFlags { bits }
    }

    /// The raw category mask.
    pub fn bits(&self) -> (r: u32)
        ensures
            r == self.bits,
    {
        self.bits
    }
}

impl ProtectFlag {
    /// Wraps a raw protection mask.
    pub fn new(bits: u32) -> (r: ProtectFlag)
        ensures
            r.bits == bits,
    {
        ProtectFlag { bits }
    }

    /// The raw protection mask.
    pub fn bits(&self) -> (r: u32)
        ensures
            r == self.bits,
    {
        self.bits
    }
}

} // verus!
