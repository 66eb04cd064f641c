//! Raw, cache-bypassing block-level access to ATA disks.
//!
//! The crate covers the pure core of such access: building the exact byte
//! layouts that the kernel pass-through transports expect for the three ATA
//! commands READ DMA EXT (0x25), WRITE DMA EXT (0x35) and IDENTIFY DEVICE
//! (0xEC), and decoding the 512-byte IDENTIFY DEVICE response with its
//! word-swapped strings and little-endian word fields.
//!
//! The kernel calls themselves (open, ioctl, close) are outside this crate;
//! a thin unverified shell hands their plain results back in.

pub mod device;
pub mod encode;
pub mod error;
pub mod identify;
pub mod lba;

pub use device::Device;
pub use identify::IdentifyDeviceData;

use vstd::prelude::*;

verus! {

/// Bytes per sector; the only sector size this crate supports.
pub const SECTOR_BYTES: usize = 512;

} // verus!
